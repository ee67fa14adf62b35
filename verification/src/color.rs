//! RGBA colors and the per-channel blend that colors traced curve points.

use vstd::prelude::*;

verus! {

/// An RGBA color with 8-bit channels.
#[derive(Clone, Copy, PartialEq, Eq, Structural, Debug)]
pub struct Rgba {
    pub r: u8,
    pub g: u8,
    pub b: u8,
    pub a: u8,
}

/// Fully opaque white, the initial value of a curve's pending colors and the
/// color of markers and highlight dots.
pub open spec fn white() -> Rgba {
    Rgba { r: 255, g: 255, b: 255, a: 255 }
}

/// The blend of two colors: each channel is the arithmetic mean of the two
/// inputs, rounded to the nearest value (an odd sum rounds up), and the
/// alpha channel is forced to fully opaque.
pub open spec fn lerp_spec(c1: Rgba, c2: Rgba) -> Rgba {
    Rgba {
        r: (((c1.r + c2.r + 1) / 2) as u8),
        g: (((c1.g + c2.g + 1) / 2) as u8),
        b: (((c1.b + c2.b + 1) / 2) as u8),
        a: 255,
    }
}

impl Rgba {
    /// Builds a color from its four channels.
    pub fn new(r: u8, g: u8, b: u8, a: u8) -> (c: Rgba)
        ensures
            c == (Rgba { r, g, b, a }),
    {
        Rgba { r, g, b, a }
    }

    /// Fully opaque white as an executable value.
    pub fn white() -> (c: Rgba)
        ensures
            c == white(),
    {
        Rgba { r: 255, g: 255, b: 255, a: 255 }
    }
}

/// Blends two colors channel by channel; the result of mixing the hues of a
/// curve's contributing row and column circles.
pub fn lerp(c1: &Rgba, c2: &Rgba) -> (c: Rgba)
    ensures
        c == lerp_spec(*c1, *c2),
{
    Rgba {
        r: ((c1.r as u16 + c2.r as u16 + 1) / 2) as u8,
        g: ((c1.g as u16 + c2.g as u16 + 1) / 2) as u8,
        b: ((c1.b as u16 + c2.b as u16 + 1) / 2) as u8,
        a: 255,
    }
}

/// Law: blending is symmetric — the order of the two colors does not matter.
pub proof fn lemma_lerp_symmetric(c1: Rgba, c2: Rgba)
    ensures
        lerp_spec(c1, c2) == lerp_spec(c2, c1),
{
}

/// Law: blending a fully opaque color with itself gives it back unchanged;
/// each channel's mean is exact because the sum is even, so the rounding
/// never moves it.
pub proof fn lemma_lerp_idempotent(c: Rgba)
    requires
        c.a == 255,
    ensures
        lerp_spec(c, c) == c,
{
}

} // verus!
