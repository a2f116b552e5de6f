//! Colors: the channels of a 24-bit sRGB color, which index a table of linear levels.

use vstd::prelude::*;

verus! {

/// The red, green and blue bytes of a color written as 0xRRGGBB (the top byte is ignored).
pub open spec fn srgb_channels(srgb: u32) -> (int, int, int) {
    ((srgb as int / 0x10000) % 0x100, (srgb as int / 0x100) % 0x100, srgb as int % 0x100)
}

/// The indices of the red, green and blue channels of a color into a table of the 256 byte
/// values.
pub fn get_srgb_channel_indices(srgb: u32) -> (r: [usize; 3])
    ensures
        r@[0] == srgb_channels(srgb).0,
        r@[1] == srgb_channels(srgb).1,
        r@[2] == srgb_channels(srgb).2,
        r@[0] < 256 && r@[1] < 256 && r@[2] < 256,
{
    let red: u32 = (srgb >> 16) & 0xFF;
    let green: u32 = (srgb >> 8) & 0xFF;
    let blue: u32 = srgb & 0xFF;
    assert(red == (srgb / 0x10000) % 0x100) by (bit_vector)
        requires
            red == (srgb >> 16) & 0xFF,
    ;
    assert(green == (srgb / 0x100) % 0x100) by (bit_vector)
        requires
            green == (srgb >> 8) & 0xFF,
    ;
    assert(blue == srgb % 0x100) by (bit_vector)
        requires
            blue == srgb & 0xFF,
    ;
    [red as usize, green as usize, blue as usize]
}

/// The channels are the bytes of the color, red the most significant of the three: red
/// times 0x10000, plus green times 0x100, plus blue, is the color without its top byte.
pub proof fn law_srgb_channels(srgb: u32)
    ensures
        0 <= srgb_channels(srgb).0 < 256 && 0 <= srgb_channels(srgb).1 < 256 && 0
            <= srgb_channels(srgb).2 < 256,
        srgb_channels(srgb).0 * 0x10000 + srgb_channels(srgb).1 * 0x100 + srgb_channels(srgb).2
            == srgb as int % 0x100_0000,
{
    let x = srgb as int;
    assert(x % 0x100_0000 == ((x / 0x10000) % 0x100) * 0x10000 + ((x / 0x100) % 0x100) * 0x100
        + x % 0x100) by (nonlinear_arith)
        requires
            x >= 0,
    ;
}

} // verus!
