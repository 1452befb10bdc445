use vstd::prelude::*;
use crate::normalize::{AudioBandAmplitudes, normalized_band, lemma_normalized_on_scale};

verus! {

/// Width of the ST7789 screen in landscape orientation, in pixels.
pub const REAL_SCREEN_WIDTH: u32 = 280;

/// Height of the ST7789 screen in landscape orientation, in pixels.
pub const REAL_SCREEN_HEIGHT: u32 = 200;

/// Number of bars, one per band.
pub const NUM_BANDS: u32 = 7;

/// Pixels between neighbouring bars, and at either edge.
pub const BAR_GAP: u32 = 4;

/// The value that fills a bar to the full screen height.
pub const BAR_FULL_SCALE: u32 = 1024;

/// Which colour a rectangle is painted with.
#[derive(Clone, Copy, Debug, PartialEq, Eq, Structural)]
pub enum BarFill {
    /// The bar colour.
    Bar,
    /// The background colour.
    Background,
}

/// A rectangle of the screen, corners inclusive, with the number of pixels
/// it holds and the colour it is painted with. `y` grows downwards.
#[derive(Clone, Copy, Debug, PartialEq, Eq, Structural)]
pub struct BarSegment {
    pub x_start: u16,
    pub y_start: u16,
    pub x_end: u16,
    pub y_end: u16,
    pub pixel_count: u32,
    pub fill: BarFill,
}

pub open spec fn screen_width() -> int {
    REAL_SCREEN_WIDTH as int
}

pub open spec fn screen_height() -> int {
    REAL_SCREEN_HEIGHT as int
}

/// Width of each bar: what is left of the screen after the gaps, shared
/// evenly among the bars and rounded down.
pub open spec fn spec_bar_width() -> int {
    (screen_width() - (NUM_BANDS + 1) * BAR_GAP) / (NUM_BANDS as int)
}

/// Left edge of bar `index`.
pub open spec fn spec_bar_x_start(index: int) -> int {
    BAR_GAP + index * (spec_bar_width() + BAR_GAP)
}

/// Height in pixels of a bar showing `value`, on a scale where 1024 fills
/// the screen height, rounded down.
pub open spec fn spec_bar_height(value: int) -> int {
    (value * screen_height()) / (BAR_FULL_SCALE as int)
}

/// A value whose bar fits on the screen.
pub open spec fn fits_screen(value: u16) -> bool {
    spec_bar_height(value as int) <= screen_height()
}

/// Every band of `bands` fits on the screen.
pub open spec fn all_fit_screen(bands: AudioBandAmplitudes) -> bool {
    forall|i: int| 0 <= i < 7 ==> #[trigger] fits_screen(bands@[i])
}

/// The rectangle that turns bar `index` from the height of `old_value` to
/// the height of `new_value`: the rows between the two tops, painted with
/// the bar colour when the bar grows and with the background when it
/// shrinks; none when the heights agree.
pub open spec fn spec_bar_segment(index: int, new_value: int, old_value: int) -> Option<BarSegment> {
    let new_height = spec_bar_height(new_value);
    let old_height = spec_bar_height(old_value);
    let x_start = spec_bar_x_start(index);
    if new_height > old_height {
        Some(BarSegment {
            x_start: x_start as u16,
            y_start: (screen_height() - new_height) as u16,
            x_end: (x_start + spec_bar_width() - 1) as u16,
            y_end: (screen_height() - old_height - 1) as u16,
            pixel_count: (spec_bar_width() * (new_height - old_height)) as u32,
            fill: BarFill::Bar,
        })
    } else if new_height < old_height {
        Some(BarSegment {
            x_start: x_start as u16,
            y_start: (screen_height() - old_height) as u16,
            x_end: (x_start + spec_bar_width() - 1) as u16,
            y_end: (screen_height() - new_height - 1) as u16,
            pixel_count: (spec_bar_width() * (old_height - new_height)) as u32,
            fill: BarFill::Background,
        })
    } else {
        None
    }
}

/// Width of each bar.
pub fn bar_width() -> (w: u32)
    ensures
        w == spec_bar_width(),
        w == 35,
{
    let total_gaps_width = (NUM_BANDS + 1) * BAR_GAP;
    (REAL_SCREEN_WIDTH - total_gaps_width) / NUM_BANDS
}

/// Left edge of bar `index`.
pub fn bar_x_start(index: usize) -> (x: u16)
    requires
        index < NUM_BANDS,
    ensures
        x == spec_bar_x_start(index as int),
{
    let bar_width = bar_width();
    assert(index as u32 * 39 <= 6 * 39) by (nonlinear_arith)
        requires
            index < 7,
    ;
    (BAR_GAP + (index as u32 * (bar_width + BAR_GAP))) as u16
}

/// Height in pixels of the bar showing `value`.
pub fn bar_height(value: u16) -> (h: u16)
    ensures
        h == spec_bar_height(value as int),
{
    assert(value as u32 * 200 <= 0xffff * 200);
    ((value as u32 * REAL_SCREEN_HEIGHT) / BAR_FULL_SCALE) as u16
}

/// Whether the bar of `value` fits on the screen.
pub fn fits_on_screen(value: u16) -> (b: bool)
    ensures
        b == fits_screen(value),
{
    (bar_height(value) as u32) <= REAL_SCREEN_HEIGHT
}

/// The rectangle that redraws bar `index` from `old_value` to `new_value`.
/// Bars of equal height need no rectangle, whatever their height; bars of
/// different heights must both fit on the screen.
pub fn bar_segment(index: usize, new_value: u16, old_value: u16) -> (segment: Option<BarSegment>)
    requires
        index < NUM_BANDS,
        spec_bar_height(new_value as int) != spec_bar_height(old_value as int) ==> {
            &&& fits_screen(new_value)
            &&& fits_screen(old_value)
        },
    ensures
        segment == spec_bar_segment(index as int, new_value as int, old_value as int),
        redraws_exactly(segment, index as int, new_value as int, old_value as int),
{
    proof {
        if spec_bar_height(new_value as int) != spec_bar_height(old_value as int) {
            lemma_segment_redraws_bar(index as int, new_value, old_value);
        }
    }
    let bar_width = bar_width();
    let x_start = bar_x_start(index);
    let screen_height = REAL_SCREEN_HEIGHT as u16;
    let new_height = bar_height(new_value);
    let old_height = bar_height(old_value);

    if new_height > old_height {
        let segment_height = new_height - old_height;
        Some(BarSegment {
            x_start,
            y_start: screen_height - new_height,
            x_end: x_start + bar_width as u16 - 1,
            y_end: (screen_height - old_height) - 1,
            pixel_count: bar_width * segment_height as u32,
            fill: BarFill::Bar,
        })
    } else if new_height < old_height {
        let segment_height = old_height - new_height;
        Some(BarSegment {
            x_start,
            y_start: screen_height - old_height,
            x_end: x_start + bar_width as u16 - 1,
            y_end: (screen_height - new_height) - 1,
            pixel_count: bar_width * segment_height as u32,
            fill: BarFill::Background,
        })
    } else {
        None
    }
}

/// The rectangle covering the whole screen, painted with the background.
pub fn screen_clear_segment() -> (segment: BarSegment)
    ensures
        segment == (BarSegment {
            x_start: 0,
            y_start: 0,
            x_end: (screen_width() - 1) as u16,
            y_end: (screen_height() - 1) as u16,
            pixel_count: (screen_width() * screen_height()) as u32,
            fill: BarFill::Background,
        }),
{
    BarSegment {
        x_start: 0,
        y_start: 0,
        x_end: REAL_SCREEN_WIDTH as u16 - 1,
        y_end: REAL_SCREEN_HEIGHT as u16 - 1,
        pixel_count: REAL_SCREEN_WIDTH * REAL_SCREEN_HEIGHT,
        fill: BarFill::Background,
    }
}

/// The bars as last drawn on the screen, one value per band.
pub struct BarGraph {
    most_recent_drawn_bands: AudioBandAmplitudes,
}

impl BarGraph {
    /// The values the bars show.
    pub closed spec fn drawn(self) -> AudioBandAmplitudes {
        self.most_recent_drawn_bands
    }

    #[verifier::type_invariant]
    spec fn inv(self) -> bool {
        all_fit_screen(self.most_recent_drawn_bands)
    }

    /// A graph of empty bars, as on a freshly cleared screen.
    pub fn new() -> (graph: BarGraph)
        ensures
            forall|i: int| 0 <= i < 7 ==> #[trigger] graph.drawn()@[i] == 0,
    {
        BarGraph { most_recent_drawn_bands: [0, 0, 0, 0, 0, 0, 0] }
    }

    /// The values the bars show.
    pub fn most_recent_drawn_bands(&self) -> (bands: AudioBandAmplitudes)
        ensures
            bands == self.drawn(),
            all_fit_screen(bands),
    {
        proof {
            use_type_invariant(self);
        }
        self.most_recent_drawn_bands
    }

    /// Redraws the bars to show `new_bands`: for each band, in order, the
    /// rectangle that turns its bar from the height shown to the new one,
    /// if the heights differ. Afterwards the graph shows `new_bands`.
    pub fn draw_bands(&mut self, new_bands: AudioBandAmplitudes) -> (segments: Vec<Option<BarSegment>>)
        requires
            all_fit_screen(new_bands),
        ensures
            segments.len() == 7,
            forall|i: int| 0 <= i < 7 ==> #[trigger] segments@[i] == spec_bar_segment(
                i,
                new_bands@[i] as int,
                old(self).drawn()@[i] as int,
            ),
            forall|i: int| 0 <= i < 7 ==> redraws_exactly(
                #[trigger] segments@[i],
                i,
                new_bands@[i] as int,
                old(self).drawn()@[i] as int,
            ),
            final(self).drawn() == new_bands,
    {
        proof {
            use_type_invariant(&*self);
        }
        let old_bands = self.most_recent_drawn_bands;
        let mut segments: Vec<Option<BarSegment>> = Vec::new();
        for index in 0..NUM_BANDS as usize
            invariant
                all_fit_screen(new_bands),
                all_fit_screen(old_bands),
                old_bands == old(self).drawn(),
                segments.len() == index,
                forall|i: int| 0 <= i < index ==> #[trigger] segments@[i] == spec_bar_segment(
                    i,
                    new_bands@[i] as int,
                    old_bands@[i] as int,
                ),
                forall|i: int| 0 <= i < index ==> redraws_exactly(
                    #[trigger] segments@[i],
                    i,
                    new_bands@[i] as int,
                    old_bands@[i] as int,
                ),
        {
            assert(fits_screen(new_bands@[index as int]));
            assert(fits_screen(old_bands@[index as int]));
            let segment = bar_segment(index, new_bands[index], old_bands[index]);
            segments.push(segment);
        }
        self.most_recent_drawn_bands = new_bands;
        segments
    }
}

/// The rows, counted from the top, that the bar of `value` covers.
pub open spec fn bar_rows(value: int) -> Set<int> {
    Set::new(|y: int| screen_height() - spec_bar_height(value) <= y < screen_height())
}

/// The rows a rectangle spans.
pub open spec fn segment_rows(segment: BarSegment) -> Set<int> {
    Set::new(|y: int| segment.y_start <= y <= segment.y_end)
}

/// The rows of a bar column that show the bar colour after `segment` is
/// painted over a column whose bar covers `rows`.
pub open spec fn paint_rows(rows: Set<int>, segment: Option<BarSegment>) -> Set<int> {
    match segment {
        None => rows,
        Some(seg) => match seg.fill {
            BarFill::Bar => rows.union(segment_rows(seg)),
            BarFill::Background => rows.difference(segment_rows(seg)),
        },
    }
}

/// `segment` redraws bar `index` from `old_value` to `new_value` and
/// touches nothing else: there is no rectangle when the two bars have the
/// same height; otherwise it spans exactly the bar's columns and exactly
/// the rows that one bar covers and the other does not, it is painted with
/// the bar colour when the bar grows and the background when it shrinks,
/// and its pixel count is its area.
pub open spec fn redraws_exactly(segment: Option<BarSegment>, index: int, new_value: int, old_value: int) -> bool {
    let new_rows = bar_rows(new_value);
    let old_rows = bar_rows(old_value);
    match segment {
        None => spec_bar_height(new_value) == spec_bar_height(old_value),
        Some(seg) => {
            &&& spec_bar_height(new_value) != spec_bar_height(old_value)
            &&& seg.x_start == spec_bar_x_start(index)
            &&& seg.x_end == spec_bar_x_start(index) + spec_bar_width() - 1
            &&& seg.y_start <= seg.y_end
            &&& segment_rows(seg) == new_rows.difference(old_rows).union(old_rows.difference(new_rows))
            &&& (seg.fill is Bar <==> spec_bar_height(new_value) > spec_bar_height(old_value))
            &&& seg.pixel_count == (seg.x_end - seg.x_start + 1) * (seg.y_end - seg.y_start + 1)
        },
    }
}

/// Painting the rectangle that redraws a bar from `old_value` to
/// `new_value` over the bar of `old_value` leaves exactly the bar of
/// `new_value`; the rectangle spans the bar's columns, and its pixel count
/// is its width times its height.
pub proof fn lemma_segment_redraws_bar(index: int, new_value: u16, old_value: u16)
    requires
        0 <= index < NUM_BANDS,
        fits_screen(new_value),
        fits_screen(old_value),
    ensures
        paint_rows(bar_rows(old_value as int), spec_bar_segment(index, new_value as int, old_value as int))
            == bar_rows(new_value as int),
        redraws_exactly(spec_bar_segment(index, new_value as int, old_value as int), index, new_value as int, old_value as int),
        spec_bar_segment(index, new_value as int, old_value as int) matches Some(seg) ==> {
            &&& seg.x_start == spec_bar_x_start(index)
            &&& seg.x_end == spec_bar_x_start(index) + spec_bar_width() - 1
            &&& seg.y_start <= seg.y_end
            &&& seg.pixel_count == (seg.x_end - seg.x_start + 1) * (seg.y_end - seg.y_start + 1)
        },
{
    let new_height = spec_bar_height(new_value as int);
    let old_height = spec_bar_height(old_value as int);
    assert(0 <= new_height) by (nonlinear_arith)
        requires
            new_height == (new_value as int * 200) / 1024,
            new_value >= 0,
    ;
    assert(0 <= old_height) by (nonlinear_arith)
        requires
            old_height == (old_value as int * 200) / 1024,
            old_value >= 0,
    ;
    assert(0 <= index * 39 <= 6 * 39) by (nonlinear_arith)
        requires
            0 <= index < 7,
    ;
    assert(spec_bar_width() == 35);
    assert(new_height <= 200 && old_height <= 200);
    if new_height > old_height {
        assert(35 * (new_height - old_height) <= 7000);
    } else if new_height < old_height {
        assert(35 * (old_height - new_height) <= 7000);
    }
    let painted = paint_rows(bar_rows(old_value as int), spec_bar_segment(index, new_value as int, old_value as int));
    assert(painted =~= bar_rows(new_value as int));
    let new_rows = bar_rows(new_value as int);
    let old_rows = bar_rows(old_value as int);
    if let Some(seg) = spec_bar_segment(index, new_value as int, old_value as int) {
        assert(segment_rows(seg) =~= new_rows.difference(old_rows).union(old_rows.difference(new_rows)));
    }
}

/// A bar redrawn to the value it already shows needs no painting.
pub proof fn lemma_same_value_paints_nothing(index: int, value: int)
    ensures
        spec_bar_segment(index, value, value) is None,
{
}

/// The bars lie side by side inside the screen, each at least one gap
/// apart from the next and from the edges.
pub proof fn lemma_bars_apart(i: int, j: int)
    requires
        0 <= i < j < NUM_BANDS,
    ensures
        BAR_GAP <= spec_bar_x_start(i),
        spec_bar_x_start(i) + spec_bar_width() - 1 + BAR_GAP < spec_bar_x_start(j),
        spec_bar_x_start(j) + spec_bar_width() - 1 + BAR_GAP < screen_width(),
{
    assert(spec_bar_x_start(i) + 39 <= spec_bar_x_start(j)) by (nonlinear_arith)
        requires
            0 <= i < j,
            spec_bar_x_start(i) == 4 + i * 39,
            spec_bar_x_start(j) == 4 + j * 39,
    ;
    assert(j * 39 <= 6 * 39) by (nonlinear_arith)
        requires
            j <= 6,
    ;
    assert(0 <= i * 39) by (nonlinear_arith)
        requires
            0 <= i,
    ;
}

/// A normalized frame can always be drawn: every normalized band tops out
/// at the full screen height.
pub proof fn lemma_normalized_frame_fits_screen(bands: AudioBandAmplitudes, normalized: AudioBandAmplitudes)
    requires
        forall|i: int| 0 <= i < 7 ==> normalized@[i] as int == #[trigger] normalized_band(i, bands@[i] as int),
    ensures
        all_fit_screen(normalized),
{
    assert forall|i: int| 0 <= i < 7 implies #[trigger] fits_screen(normalized@[i]) by {
        assert(normalized@[i] as int == normalized_band(i, bands@[i] as int));
        lemma_normalized_on_scale(i, bands@[i] as int);
        let v = normalized@[i] as int;
        assert((v * 200) / 1024 <= 200) by (nonlinear_arith)
            requires
                0 <= v <= 1024,
        ;
    }
}

} // verus!
