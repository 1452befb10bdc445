use vstd::prelude::*;
use crate::display::BarFill;

verus! {

/// The RGB565 word of a colour: red in the top five bits, green in the
/// middle six, blue in the low five; bits of a channel above its width are
/// dropped.
pub open spec fn spec_rgb565_word(r: u8, g: u8, b: u8) -> int {
    (r as int % 32) * 2048 + (g as int % 64) * 32 + (b as int % 32)
}

/// Calls `embedded_graphics::pixelcolor::Rgb565::new(r, g, b)` and then
/// `IntoStorage::into_storage` on the colour. Trusted: the result is the
/// 5-6-5 packing that `spec_rgb565_word` states (red shifted by 11, green
/// by 5, each channel masked to its width first), as the crate's
/// `rgb_color!` and `RawU16` definitions show.
#[verifier::external_body]
fn rgb565_storage(r: u8, g: u8, b: u8) -> (word: u16)
    ensures
        word == spec_rgb565_word(r, g, b),
{
    embedded_graphics::pixelcolor::IntoStorage::into_storage(embedded_graphics::pixelcolor::Rgb565::new(r, g, b))
}

/// Largest green channel value of an RGB565 colour.
pub const RGB565_MAX_G: u8 = 63;

/// Largest blue (and red) channel value of an RGB565 colour.
pub const RGB565_MAX_B: u8 = 31;

/// The RGB565 word a fill is painted with: cyan (no red, full green and
/// blue) for bars, black for the background.
pub fn fill_color(fill: BarFill) -> (word: u16)
    ensures
        fill is Bar ==> word == spec_rgb565_word(0, RGB565_MAX_G, RGB565_MAX_B),
        fill is Background ==> word == spec_rgb565_word(0, 0, 0),
        fill is Bar ==> word == 0x07ff,
        fill is Background ==> word == 0,
{
    match fill {
        BarFill::Bar => rgb565_storage(0, RGB565_MAX_G, RGB565_MAX_B),
        BarFill::Background => rgb565_storage(0, 0, 0),
    }
}

} // verus!
