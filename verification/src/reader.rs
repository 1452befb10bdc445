use vstd::prelude::*;
use crate::normalize::{AudioBandAmplitudes, normalize_band_response, normalized_band, scales_linearly};

verus! {

/// Number of frequency bands the MSGEQ7 multiplexes onto its output.
pub const BAND_COUNT: u8 = 7;

/// Index of the last band of a frame.
pub const LAST_BAND_INDEX: u8 = 6;

/// Phase of resetting the MSGEQ7: the reset line is held low, then high,
/// each since the recorded millisecond.
#[derive(Clone, Copy, Debug, PartialEq, Eq, Structural)]
pub enum MSGEQ7ResetState {
    Low { time_set_low_ms: u32 },
    High { time_set_high_ms: u32 },
}

impl MSGEQ7ResetState {
    /// Milliseconds the reset line must stay low, exclusive.
    pub const SET_LOW_WAIT_MS: u32 = 1;

    /// Milliseconds the reset line must stay high, exclusive.
    pub const SET_HIGH_WAIT_MS: u32 = 1;
}

/// Phase of strobing the MSGEQ7 to step through its bands: the strobe line
/// is held low or high since the recorded millisecond.
#[derive(Clone, Copy, Debug, PartialEq, Eq, Structural)]
pub enum MSGEQ7StrobeState {
    Low { time_set_low_ms: u32 },
    High { time_set_high_ms: u32 },
}

impl MSGEQ7StrobeState {
    /// Milliseconds the strobe line must stay low, exclusive.
    pub const SET_LOW_WAIT_MS: u32 = 1;

    /// Milliseconds the strobe line must stay high, exclusive.
    pub const SET_HIGH_WAIT_MS: u32 = 1;
}

/// State of the MSGEQ7 reader: resetting the chip, or reading band
/// `frequency_band_index` (0 to 6).
#[derive(Clone, Copy, Debug, PartialEq, Eq, Structural)]
pub enum MSGEQ7ReaderState {
    Resetting(MSGEQ7ResetState),
    Reading { strobe_state: MSGEQ7StrobeState, frequency_band_index: u8 },
}

/// What the reader asks of the pins after a poll.
#[derive(Clone, Copy, Debug, PartialEq, Eq, Structural)]
pub enum ReaderAction {
    /// Nothing is due yet.
    Wait,
    /// Drive the reset line high.
    ReleaseReset,
    /// Drive the reset line low and the strobe line high.
    BeginStrobing,
    /// Drive the strobe line low, let the output settle, read the analog
    /// output and hand the reading to `record_sample`.
    SampleBand { band: u8 },
    /// Drive the strobe line high.
    RaiseStrobe,
}

/// What follows a recorded band reading.
#[derive(Clone, Copy, Debug, PartialEq, Eq)]
pub enum SampleOutcome {
    /// Drive the strobe line low; more bands of this frame are to come.
    NextBand,
    /// All seven bands are read; `normalized` is the frame, normalized.
    FrameComplete { normalized: AudioBandAmplitudes },
}

impl MSGEQ7ReaderState {
    /// The band index of a reading state stays within the seven bands, and
    /// the strobe goes low between bands only before the last one.
    pub open spec fn well_formed(self) -> bool {
        match self {
            MSGEQ7ReaderState::Resetting(_) => true,
            MSGEQ7ReaderState::Reading { strobe_state: MSGEQ7StrobeState::High { .. }, frequency_band_index } =>
                frequency_band_index <= LAST_BAND_INDEX,
            MSGEQ7ReaderState::Reading { strobe_state: MSGEQ7StrobeState::Low { .. }, frequency_band_index } =>
                frequency_band_index < LAST_BAND_INDEX,
        }
    }

    /// The millisecond at which the current line level was set.
    pub open spec fn since(self) -> u32 {
        match self {
            MSGEQ7ReaderState::Resetting(MSGEQ7ResetState::Low { time_set_low_ms }) => time_set_low_ms,
            MSGEQ7ReaderState::Resetting(MSGEQ7ResetState::High { time_set_high_ms }) => time_set_high_ms,
            MSGEQ7ReaderState::Reading { strobe_state: MSGEQ7StrobeState::Low { time_set_low_ms }, .. } => time_set_low_ms,
            MSGEQ7ReaderState::Reading { strobe_state: MSGEQ7StrobeState::High { time_set_high_ms }, .. } => time_set_high_ms,
        }
    }

    /// The wait, exclusive, that the current line level must be held.
    pub open spec fn wait_ms(self) -> u32 {
        match self {
            MSGEQ7ReaderState::Resetting(MSGEQ7ResetState::Low { .. }) => MSGEQ7ResetState::SET_LOW_WAIT_MS,
            MSGEQ7ReaderState::Resetting(MSGEQ7ResetState::High { .. }) => MSGEQ7ResetState::SET_HIGH_WAIT_MS,
            MSGEQ7ReaderState::Reading { strobe_state: MSGEQ7StrobeState::Low { .. }, .. } => MSGEQ7StrobeState::SET_LOW_WAIT_MS,
            MSGEQ7ReaderState::Reading { strobe_state: MSGEQ7StrobeState::High { .. }, .. } => MSGEQ7StrobeState::SET_HIGH_WAIT_MS,
        }
    }

    /// The reader waits for a band reading: the strobe is high on some band.
    pub open spec fn awaits_sample(self) -> bool {
        self matches MSGEQ7ReaderState::Reading { strobe_state: MSGEQ7StrobeState::High { .. }, .. }
    }

    /// The state and action a poll at `now` leads to.
    pub open spec fn spec_poll(self, now: u32) -> (MSGEQ7ReaderState, ReaderAction) {
        if now - self.since() > self.wait_ms() {
            match self {
                MSGEQ7ReaderState::Resetting(MSGEQ7ResetState::Low { .. }) => (
                    MSGEQ7ReaderState::Resetting(MSGEQ7ResetState::High { time_set_high_ms: now }),
                    ReaderAction::ReleaseReset,
                ),
                MSGEQ7ReaderState::Resetting(MSGEQ7ResetState::High { .. }) => (
                    MSGEQ7ReaderState::Reading {
                        strobe_state: MSGEQ7StrobeState::High { time_set_high_ms: now },
                        frequency_band_index: 0,
                    },
                    ReaderAction::BeginStrobing,
                ),
                MSGEQ7ReaderState::Reading { strobe_state: MSGEQ7StrobeState::High { .. }, frequency_band_index } => (
                    self,
                    ReaderAction::SampleBand { band: frequency_band_index },
                ),
                MSGEQ7ReaderState::Reading { strobe_state: MSGEQ7StrobeState::Low { .. }, frequency_band_index } => (
                    MSGEQ7ReaderState::Reading {
                        strobe_state: MSGEQ7StrobeState::High { time_set_high_ms: now },
                        frequency_band_index: (frequency_band_index + 1) as u8,
                    },
                    ReaderAction::RaiseStrobe,
                ),
            }
        } else {
            (self, ReaderAction::Wait)
        }
    }

    /// The state a band reading recorded at `now` leads to.
    pub open spec fn spec_after_sample(self, now: u32) -> MSGEQ7ReaderState {
        match self {
            MSGEQ7ReaderState::Reading { frequency_band_index, .. } => {
                if frequency_band_index < LAST_BAND_INDEX {
                    MSGEQ7ReaderState::Reading {
                        strobe_state: MSGEQ7StrobeState::Low { time_set_low_ms: now },
                        frequency_band_index,
                    }
                } else {
                    MSGEQ7ReaderState::Resetting(MSGEQ7ResetState::Low { time_set_low_ms: now })
                }
            },
            MSGEQ7ReaderState::Resetting(_) => self,
        }
    }

    /// The index of the band being read; zero while resetting.
    pub open spec fn band_index(self) -> int {
        match self {
            MSGEQ7ReaderState::Reading { frequency_band_index, .. } => frequency_band_index as int,
            MSGEQ7ReaderState::Resetting(_) => 0,
        }
    }

    /// The reader as it starts at `now`: the reset line has just gone low.
    pub fn start(now: u32) -> (state: MSGEQ7ReaderState)
        ensures
            state == MSGEQ7ReaderState::Resetting(MSGEQ7ResetState::Low { time_set_low_ms: now }),
            state.well_formed(),
    {
        MSGEQ7ReaderState::Resetting(MSGEQ7ResetState::Low { time_set_low_ms: now })
    }

    /// Whether the state is well formed (see `well_formed`).
    pub fn is_well_formed(&self) -> (b: bool)
        ensures
            b == self.well_formed(),
    {
        match self {
            MSGEQ7ReaderState::Resetting(_) => true,
            MSGEQ7ReaderState::Reading { strobe_state: MSGEQ7StrobeState::High { .. }, frequency_band_index } =>
                *frequency_band_index <= LAST_BAND_INDEX,
            MSGEQ7ReaderState::Reading { strobe_state: MSGEQ7StrobeState::Low { .. }, frequency_band_index } =>
                *frequency_band_index < LAST_BAND_INDEX,
        }
    }

    /// The millisecond at which the current line level was set.
    pub fn since_ms(&self) -> (t: u32)
        ensures
            t == self.since(),
    {
        match self {
            MSGEQ7ReaderState::Resetting(MSGEQ7ResetState::Low { time_set_low_ms }) => *time_set_low_ms,
            MSGEQ7ReaderState::Resetting(MSGEQ7ResetState::High { time_set_high_ms }) => *time_set_high_ms,
            MSGEQ7ReaderState::Reading { strobe_state: MSGEQ7StrobeState::Low { time_set_low_ms }, .. } => *time_set_low_ms,
            MSGEQ7ReaderState::Reading { strobe_state: MSGEQ7StrobeState::High { time_set_high_ms }, .. } => *time_set_high_ms,
        }
    }

    /// Whether the reader waits for a band reading.
    pub fn is_awaiting_sample(&self) -> (b: bool)
        ensures
            b == self.awaits_sample(),
    {
        match self {
            MSGEQ7ReaderState::Reading { strobe_state: MSGEQ7StrobeState::High { .. }, .. } => true,
            _ => false,
        }
    }

    /// One turn of the reader at the millisecond `now`: once the current
    /// line level has been held longer than its wait, the reader moves on
    /// and says which lines to drive; otherwise it waits.
    pub fn poll(self, now: u32) -> (result: (MSGEQ7ReaderState, ReaderAction))
        requires
            self.well_formed(),
            self.since() <= now,
        ensures
            result == self.spec_poll(now),
            result.0.well_formed(),
            result.0.since() <= now,
            result.1 is Wait <==> now - self.since() <= self.wait_ms(),
            result.1 is Wait || result.1 is SampleBand ==> result.0 == self,
            result.0 != self ==> result.0.since() == now,
            result.1 is ReleaseReset ==> {
                &&& self matches MSGEQ7ReaderState::Resetting(MSGEQ7ResetState::Low { .. })
                &&& result.0 matches MSGEQ7ReaderState::Resetting(MSGEQ7ResetState::High { .. })
            },
            result.1 is BeginStrobing ==> {
                &&& self matches MSGEQ7ReaderState::Resetting(MSGEQ7ResetState::High { .. })
                &&& result.0.awaits_sample()
                &&& result.0.band_index() == 0
            },
            result.1 is RaiseStrobe ==> {
                &&& self matches MSGEQ7ReaderState::Reading { strobe_state: MSGEQ7StrobeState::Low { .. }, .. }
                &&& result.0.awaits_sample()
            },
            result.1 is SampleBand ==> self.awaits_sample(),
            result.0.band_index() == self.band_index() + (if result.1 is RaiseStrobe { 1int } else { 0int }),
            result.1 matches ReaderAction::SampleBand { band } ==> {
                &&& band <= LAST_BAND_INDEX
                &&& band as int == self.band_index()
                &&& result.0.awaits_sample()
            },
    {
        match self {
            MSGEQ7ReaderState::Resetting(reset_state) => {
                match reset_state {
                    MSGEQ7ResetState::Low { time_set_low_ms } => {
                        if (now - time_set_low_ms) > MSGEQ7ResetState::SET_LOW_WAIT_MS {
                            (
                                MSGEQ7ReaderState::Resetting(MSGEQ7ResetState::High { time_set_high_ms: now }),
                                ReaderAction::ReleaseReset,
                            )
                        } else {
                            (self, ReaderAction::Wait)
                        }
                    },
                    MSGEQ7ResetState::High { time_set_high_ms } => {
                        if (now - time_set_high_ms) > MSGEQ7ResetState::SET_HIGH_WAIT_MS {
                            (
                                MSGEQ7ReaderState::Reading {
                                    strobe_state: MSGEQ7StrobeState::High { time_set_high_ms: now },
                                    frequency_band_index: 0,
                                },
                                ReaderAction::BeginStrobing,
                            )
                        } else {
                            (self, ReaderAction::Wait)
                        }
                    },
                }
            },
            MSGEQ7ReaderState::Reading { frequency_band_index, strobe_state } => {
                match strobe_state {
                    MSGEQ7StrobeState::High { time_set_high_ms } => {
                        if (now - time_set_high_ms) > MSGEQ7StrobeState::SET_HIGH_WAIT_MS {
                            (self, ReaderAction::SampleBand { band: frequency_band_index })
                        } else {
                            (self, ReaderAction::Wait)
                        }
                    },
                    MSGEQ7StrobeState::Low { time_set_low_ms } => {
                        if (now - time_set_low_ms) > MSGEQ7StrobeState::SET_LOW_WAIT_MS {
                            (
                                MSGEQ7ReaderState::Reading {
                                    strobe_state: MSGEQ7StrobeState::High { time_set_high_ms: now },
                                    frequency_band_index: frequency_band_index + 1,
                                },
                                ReaderAction::RaiseStrobe,
                            )
                        } else {
                            (self, ReaderAction::Wait)
                        }
                    },
                }
            },
        }
    }

    /// Records the reading `value` of the band whose strobe is high, taken
    /// at the millisecond `now`. Before the last band the strobe goes low
    /// for the next one; after it the chip is reset and the frame, stored
    /// in `amplitudes`, is handed out normalized.
    pub fn record_sample(self, now: u32, value: u16, amplitudes: &mut AudioBandAmplitudes) -> (result: (MSGEQ7ReaderState, SampleOutcome))
        requires
            self.well_formed(),
            self.awaits_sample(),
        ensures
            final(amplitudes)@ == old(amplitudes)@.update(self.band_index(), value),
            result.0 == self.spec_after_sample(now),
            result.0.well_formed(),
            result.0.since() == now,
            self.band_index() < LAST_BAND_INDEX ==> result.0.band_index() == self.band_index(),
            !result.0.awaits_sample(),
            self.band_index() < LAST_BAND_INDEX ==> result.1 == SampleOutcome::NextBand,
            self.band_index() == LAST_BAND_INDEX ==> (result.1 matches SampleOutcome::FrameComplete { normalized }
                && (forall|i: int| 0 <= i < 7 ==> normalized@[i] as int == #[trigger] normalized_band(i, final(amplitudes)@[i] as int))
                && (forall|i: int| 0 <= i < 7 ==> #[trigger] scales_linearly(i, final(amplitudes)@[i] as int, normalized@[i] as int))),
    {
        match self {
            MSGEQ7ReaderState::Reading { frequency_band_index, .. } => {
                amplitudes[frequency_band_index as usize] = value;
                if frequency_band_index < LAST_BAND_INDEX {
                    (
                        MSGEQ7ReaderState::Reading {
                            strobe_state: MSGEQ7StrobeState::Low { time_set_low_ms: now },
                            frequency_band_index,
                        },
                        SampleOutcome::NextBand,
                    )
                } else {
                    let normalized = normalize_band_response(*amplitudes);
                    (
                        MSGEQ7ReaderState::Resetting(MSGEQ7ResetState::Low { time_set_low_ms: now }),
                        SampleOutcome::FrameComplete { normalized },
                    )
                }
            },
            MSGEQ7ReaderState::Resetting(_) => {
                (self, SampleOutcome::NextBand)
            },
        }
    }
}

/// Resetting takes two polls: once the reset line has been low longer than
/// its wait it goes high, and once it has been high longer than its wait
/// the reader starts strobing at band 0.
pub proof fn lemma_reset_then_first_band(start: u32, released: u32, strobed: u32)
    requires
        start <= released <= strobed,
        released - start > MSGEQ7ResetState::SET_LOW_WAIT_MS,
        strobed - released > MSGEQ7ResetState::SET_HIGH_WAIT_MS,
    ensures
        ({
            let s0 = MSGEQ7ReaderState::Resetting(MSGEQ7ResetState::Low { time_set_low_ms: start });
            let (s1, a1) = s0.spec_poll(released);
            let (s2, a2) = s1.spec_poll(strobed);
            &&& a1 == ReaderAction::ReleaseReset
            &&& a2 == ReaderAction::BeginStrobing
            &&& s2 == MSGEQ7ReaderState::Reading {
                strobe_state: MSGEQ7StrobeState::High { time_set_high_ms: strobed },
                frequency_band_index: 0,
            }
        }),
{
}

/// A band reading is followed by the next band: after the reading of a
/// band other than the last, the strobe goes low, and once it has been low
/// longer than its wait the reader strobes the next band.
pub proof fn lemma_sample_then_next_band(state: MSGEQ7ReaderState, sampled: u32, polled: u32)
    requires
        state.well_formed(),
        state.awaits_sample(),
        state.band_index() < LAST_BAND_INDEX,
        sampled <= polled,
        polled - sampled > MSGEQ7StrobeState::SET_LOW_WAIT_MS,
    ensures
        state.spec_after_sample(sampled).spec_poll(polled) == (
            MSGEQ7ReaderState::Reading {
                strobe_state: MSGEQ7StrobeState::High { time_set_high_ms: polled },
                frequency_band_index: (state.band_index() + 1) as u8,
            },
            ReaderAction::RaiseStrobe,
        ),
{
}

/// The reading of the last band ends the frame: the reader starts a new
/// reset at the millisecond of the reading.
pub proof fn lemma_last_sample_restarts(state: MSGEQ7ReaderState, sampled: u32)
    requires
        state.well_formed(),
        state.awaits_sample(),
        state.band_index() == LAST_BAND_INDEX,
    ensures
        state.spec_after_sample(sampled) == MSGEQ7ReaderState::Resetting(
            MSGEQ7ResetState::Low { time_set_low_ms: sampled },
        ),
{
}

/// Polling before the wait is over changes nothing, however often it is repeated.
pub proof fn lemma_wait_keeps_state(state: MSGEQ7ReaderState, now: u32)
    requires
        state.since() <= now,
        now - state.since() <= state.wait_ms(),
    ensures
        state.spec_poll(now) == (state, ReaderAction::Wait),
{
}

} // verus!
