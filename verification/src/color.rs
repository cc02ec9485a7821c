use vstd::prelude::*;

verus! {

/// Number of channel units that stand for full intensity.
///
/// Colors use fixed-point channels so that channel arithmetic stays exact:
/// a channel value `c` stands for the intensity `c / 256`. The host converts
/// its floating-point colors to this representation at the boundary.
pub const COLOR_ONE: u32 = 256;

/// An RGBA color with fixed-point channels ([`COLOR_ONE`] units per 1.0).
#[derive(Clone, Copy, Debug, PartialEq, Eq, Structural)]
pub struct Color {
    pub r: u32,
    pub g: u32,
    pub b: u32,
    pub a: u32,
}

/// The byte an intensity channel maps to in an 8-bit texel: the channel
/// value saturated at 255.
pub open spec fn spec_channel_byte(c: u32) -> u8 {
    if c > 255 {
        255u8
    } else {
        c as u8
    }
}

impl Color {
    /// Fully opaque black.
    pub fn black() -> (c: Color)
        ensures
            c == (Color { r: 0, g: 0, b: 0, a: COLOR_ONE as u32 }),
    {
        Color { r: 0, g: 0, b: 0, a: COLOR_ONE }
    }

    /// The engine palette's sky-blue-ish default clear color.
    pub fn sky_blue_ish() -> (c: Color)
        ensures
            c == (Color { r: 0, g: 157, b: 199, a: 256 }),
    {
        Color { r: 0, g: 157, b: 199, a: 256 }
    }
}

/// Saturating conversion of one fixed-point channel to an 8-bit texel byte.
pub fn channel_byte(c: u32) -> (b: u8)
    ensures
        b == spec_channel_byte(c),
{
    if c > 255 {
        255
    } else {
        c as u8
    }
}

} // verus!
