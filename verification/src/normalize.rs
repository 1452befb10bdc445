use vstd::prelude::*;

verus! {

/// The seven audio band amplitudes read from the MSGEQ7, lowest band first.
pub type AudioBandAmplitudes = [u16; 7];

/// Largest response each band gives; readings above are clamped to the top of the scale.
pub const MAX_MSGEQ7_BAND_RESPONSES: AudioBandAmplitudes = [200, 400, 300, 310, 475, 610, 740];

/// Smallest response each band gives; readings below are clamped to zero.
pub const MIN_MSGEQ7_BAND_RESPONSES: AudioBandAmplitudes = [100, 200, 200, 210, 110, 150, 400];

/// Top of the normalized scale.
pub const NORMALIZED_FULL_SCALE: u16 = 1024;

/// Number of bands that normalization rescales: all of them.
pub const NORMALIZED_BAND_COUNT: usize = 7;

/// The response window `[min, max]` of band `i`.
pub open spec fn band_min(i: int) -> int {
    MIN_MSGEQ7_BAND_RESPONSES@[i] as int
}

pub open spec fn band_max(i: int) -> int {
    MAX_MSGEQ7_BAND_RESPONSES@[i] as int
}

/// An amplitude mapped linearly from `[min, max]` onto `[0, 1024]`,
/// rounded down, and clamped outside the window.
pub open spec fn normalized_amplitude(amplitude: int, min: int, max: int) -> int {
    if amplitude > max {
        1024
    } else if amplitude < min {
        0
    } else {
        ((amplitude - min) * 1024) / (max - min)
    }
}

/// What normalization makes of band `i` holding `amplitude`.
pub open spec fn normalized_band(i: int, amplitude: int) -> int {
    normalized_amplitude(amplitude, band_min(i), band_max(i))
}

proof fn lemma_scaled_offset_fits(offset: int, range: int)
    requires
        0 <= offset <= range,
        0 < range,
    ensures
        0 <= (offset * 1024) / range <= 1024,
{
    assert(0 <= (offset * 1024) / range <= 1024) by (nonlinear_arith)
        requires
            0 <= offset <= range,
            0 < range,
    ;
}

/// `n` is what a reading `amplitude` of band `i` becomes on the scale
/// `[0, 1024]`: full scale above the band's window, zero below it, and
/// inside it the largest value whose share of the window's width does not
/// exceed the reading's offset into the window, that is the offset times
/// 1024 divided by the width, rounded down.
pub open spec fn scales_linearly(i: int, amplitude: int, n: int) -> bool {
    let min = band_min(i);
    let max = band_max(i);
    &&& amplitude > max ==> n == NORMALIZED_FULL_SCALE
    &&& amplitude < min ==> n == 0
    &&& min <= amplitude <= max ==> {
        &&& n * (max - min) <= (amplitude - min) * 1024
        &&& (amplitude - min) * 1024 < (n + 1) * (max - min)
    }
}

/// Normalization of band `i` is the linear map of its window onto the
/// scale, rounded down and clamped outside the window.
pub proof fn lemma_normalized_scales_linearly(i: int, amplitude: int)
    requires
        0 <= i < 7,
    ensures
        scales_linearly(i, amplitude, normalized_band(i, amplitude)),
{
    let min = band_min(i);
    let max = band_max(i);
    let range = max - min;
    if min <= amplitude <= max {
        let x = (amplitude - min) * 1024;
        let q = x / range;
        vstd::arithmetic::div_mod::lemma_fundamental_div_mod(x, range);
        vstd::arithmetic::div_mod::lemma_mod_bound(x, range);
        assert(q * range == range * q) by (nonlinear_arith);
        assert((q + 1) * range == q * range + range) by (nonlinear_arith);
    }
}

/// Maps every band onto the range `[0, 1024]`, each by its own response
/// window, clamping readings outside the window.
pub fn normalize_band_response(bands: AudioBandAmplitudes) -> (normalized: AudioBandAmplitudes)
    ensures
        forall|i: int| 0 <= i < 7 ==> normalized@[i] as int == #[trigger] normalized_band(i, bands@[i] as int),
        forall|i: int| 0 <= i < 7 ==> #[trigger] scales_linearly(i, bands@[i] as int, normalized@[i] as int),
{
    let ghost input = bands;
    let mut bands = bands;
    let ghost original = bands;
    for index in 0..NORMALIZED_BAND_COUNT
        invariant
            forall|i: int| 0 <= i < index ==> bands@[i] as int == #[trigger] normalized_band(i, original@[i] as int),
            forall|i: int| index <= i < 7 ==> bands@[i] == original@[i],
    {
        let amplitude = bands[index];
        let max = MAX_MSGEQ7_BAND_RESPONSES[index];
        let min = MIN_MSGEQ7_BAND_RESPONSES[index];

        if amplitude > max {
            bands[index] = NORMALIZED_FULL_SCALE;
        } else if amplitude < min {
            bands[index] = 0;
        } else {
            let range = (max - min) as u32;
            let offset = (amplitude - min) as u32;
            assert(offset << 10 == offset * 1024) by (bit_vector)
                requires
                    offset <= 0xffff,
            ;
            proof {
                lemma_scaled_offset_fits(offset as int, range as int);
            }
            bands[index] = ((offset << 10) / range) as u16;
        }
    }
    proof {
        assert forall|i: int| 0 <= i < 7 implies #[trigger] scales_linearly(i, input@[i] as int, bands@[i] as int) by {
            lemma_normalized_scales_linearly(i, input@[i] as int);
            assert(bands@[i] as int == normalized_band(i, input@[i] as int));
        }
    }
    bands
}

/// Every band's response window is nonempty, and no wider than the scale:
/// its minimum lies below its maximum, at most 1024 apart.
pub proof fn lemma_band_windows_nonempty(i: int)
    requires
        0 <= i < 7,
    ensures
        0 <= band_min(i) < band_max(i),
        band_max(i) - band_min(i) <= NORMALIZED_FULL_SCALE,
{
}

/// A normalized band lies on the scale `[0, 1024]`.
pub proof fn lemma_normalized_on_scale(i: int, amplitude: int)
    requires
        0 <= i < 7,
    ensures
        0 <= normalized_band(i, amplitude) <= NORMALIZED_FULL_SCALE,
{
    if band_min(i) <= amplitude <= band_max(i) {
        lemma_scaled_offset_fits(amplitude - band_min(i), band_max(i) - band_min(i));
    }
}

proof fn lemma_scaled_step(a: int, b: int, range: int)
    requires
        0 <= a < b,
        0 < range <= 1024,
    ensures
        (a * 1024) / range < (b * 1024) / range,
{
    assert((a * 1024) / range < (b * 1024) / range) by (nonlinear_arith)
        requires
            0 <= a < b,
            0 < range <= 1024,
    {
        assert(a * 1024 + range <= b * 1024);
    }
}

/// Normalization keeps the order of readings within a band.
pub proof fn lemma_normalized_monotone(i: int, a: int, b: int)
    requires
        0 <= i < 7,
        a <= b,
    ensures
        normalized_band(i, a) <= normalized_band(i, b),
{
    let min = band_min(i);
    let max = band_max(i);
    let range = max - min;
    lemma_normalized_on_scale(i, a);
    lemma_normalized_on_scale(i, b);
    if min <= a <= max && min <= b <= max {
        assert((a - min) * 1024 <= (b - min) * 1024) by (nonlinear_arith)
            requires
                a <= b,
        ;
        vstd::arithmetic::div_mod::lemma_div_is_ordered((a - min) * 1024, (b - min) * 1024, range);
    }
}

/// Inside a band's window, normalization is strictly increasing: every
/// step of the reading moves the normalized value up, since no window is
/// wider than the scale.
pub proof fn lemma_normalized_strictly_increasing_in_window(i: int, a: int, b: int)
    requires
        0 <= i < 7,
        band_min(i) <= a < b <= band_max(i),
    ensures
        normalized_band(i, a) < normalized_band(i, b),
{
    lemma_band_windows_nonempty(i);
    lemma_scaled_step(a - band_min(i), b - band_min(i), band_max(i) - band_min(i));
}

/// A band reaches the top of the scale exactly when its reading is at
/// least the window's maximum, and the bottom exactly when its reading is
/// at most the window's minimum.
pub proof fn lemma_normalized_scale_ends(i: int, amplitude: int)
    requires
        0 <= i < 7,
    ensures
        normalized_band(i, amplitude) == NORMALIZED_FULL_SCALE <==> amplitude >= band_max(i),
        normalized_band(i, amplitude) == 0 <==> amplitude <= band_min(i),
{
    let min = band_min(i);
    let max = band_max(i);
    let range = max - min;
    lemma_band_windows_nonempty(i);
    assert((range * 1024) / range == 1024) by (nonlinear_arith)
        requires
            range > 0,
    ;
    assert((0int * 1024) / range == 0);
    if min < amplitude && amplitude < max {
        lemma_scaled_step(0, amplitude - min, range);
        lemma_scaled_step(amplitude - min, range, range);
    }
}

} // verus!
