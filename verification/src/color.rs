//! RGBA colors and the fixed-point arithmetic the shader composes with.
//!
//! A channel is a `u8`; a mix factor is a `u8` where 255 stands for full
//! strength (the unit of the [0, 1] scale).

use vstd::prelude::*;

verus! {

/// An RGBA color with 8-bit channels.
#[derive(Clone, Copy, Debug, PartialEq, Eq, Structural)]
pub struct Rgba {
    pub r: u8,
    pub g: u8,
    pub b: u8,
    pub a: u8,
}

impl Rgba {
    /// Opaque white, the neutral blend target.
    pub fn white() -> (c: Rgba)
        ensures
            c == (Rgba { r: 255, g: 255, b: 255, a: 255 }),
    {
        Rgba { r: 255, g: 255, b: 255, a: 255 }
    }

    /// An opaque gray of the given level on all three color channels.
    pub fn gray(level: u8) -> (c: Rgba)
        ensures
            c == (Rgba { r: level, g: level, b: level, a: 255 }),
    {
        Rgba { r: level, g: level, b: level, a: 255 }
    }
}

impl Default for Rgba {
    /// The untinted default is opaque white.
    fn default() -> (c: Rgba)
        ensures
            c == (Rgba { r: 255, g: 255, b: 255, a: 255 }),
    {
        Rgba { r: 255, g: 255, b: 255, a: 255 }
    }
}

/// Perceptual luminance of a color, on the same 0..=255 scale as a channel:
/// the Rec. 709 weights 0.2126, 0.7152, 0.0722 in units of 1/10000.
pub open spec fn spec_luminance(c: Rgba) -> int {
    (2126 * c.r + 7152 * c.g + 722 * c.b) / 10000
}

pub proof fn lemma_luminance_range(c: Rgba)
    ensures
        0 <= spec_luminance(c) <= 255,
{
}

/// Luminance of a gray color is its level: the three weights sum to the unit.
pub proof fn lemma_luminance_of_gray(level: u8)
    ensures
        spec_luminance(Rgba { r: level, g: level, b: level, a: 255 }) == level,
{
}

pub fn luminance(c: Rgba) -> (l: u8)
    ensures
        l == spec_luminance(c),
{
    (((2126 * c.r as u32) + (7152 * c.g as u32) + (722 * c.b as u32)) / 10000) as u8
}

/// One channel moved toward a target by a weight `w` out of 255:
/// `w == 0` keeps the channel, `w == 255` lands exactly on the target.
pub open spec fn spec_lerp_channel(c: int, t: int, w: int) -> int {
    (c * (255 - w) + t * w) / 255
}

pub fn lerp_channel(c: u8, t: u8, w: u8) -> (r: u8)
    ensures
        r == spec_lerp_channel(c as int, t as int, w as int),
{
    proof {
        lemma_lerp_channel_range(c as int, t as int, w as int);
    }
    ((c as u32 * (255 - w as u32) + t as u32 * w as u32) / 255) as u8
}

pub proof fn lemma_lerp_channel_range(c: int, t: int, w: int)
    by (nonlinear_arith)
    requires
        0 <= c <= 255,
        0 <= t <= 255,
        0 <= w <= 255,
    ensures
        0 <= spec_lerp_channel(c, t, w) <= 255,
        c * (255 - w) + t * w <= 255 * 255,
{
}

/// A color moved toward a target on all four channels by one weight.
pub open spec fn spec_mix_toward(c: Rgba, t: Rgba, w: int) -> Rgba {
    Rgba {
        r: spec_lerp_channel(c.r as int, t.r as int, w) as u8,
        g: spec_lerp_channel(c.g as int, t.g as int, w) as u8,
        b: spec_lerp_channel(c.b as int, t.b as int, w) as u8,
        a: spec_lerp_channel(c.a as int, t.a as int, w) as u8,
    }
}

pub fn mix_toward(c: Rgba, t: Rgba, w: u8) -> (r: Rgba)
    ensures
        r == spec_mix_toward(c, t, w as int),
{
    Rgba {
        r: lerp_channel(c.r, t.r, w),
        g: lerp_channel(c.g, t.g, w),
        b: lerp_channel(c.b, t.b, w),
        a: lerp_channel(c.a, t.a, w),
    }
}

/// A zero weight leaves the color unchanged.
pub proof fn lemma_mix_toward_zero(c: Rgba, t: Rgba)
    ensures
        spec_mix_toward(c, t, 0) == c,
{
}

/// A full weight lands exactly on the target.
pub proof fn lemma_mix_toward_full(c: Rgba, t: Rgba)
    ensures
        spec_mix_toward(c, t, 255) == t,
{
}

} // verus!
