//! Color Converter: normalizes the frontend's 8-bit color channels into the
//! unit-interval fractions the rendering engine consumes.

use vstd::prelude::*;

verus! {

/// Full opacity on the fixed-point alpha scale: alpha values range over
/// `0 ..= ALPHA_OPAQUE`, measuring opacity in millionths.
pub const ALPHA_OPAQUE: u32 = 1_000_000;

/// A color as the plotting frontend hands it over: three 8-bit channels and
/// a fractional alpha.
#[derive(Clone, Copy, Debug, PartialEq, Eq)]
pub struct Color {
    pub r: u8,
    pub g: u8,
    pub b: u8,
    /// Opacity in millionths: `0` is fully transparent, `ALPHA_OPAQUE` is
    /// fully opaque.
    pub alpha: u32,
}

/// A color in the form the rendering engine consumes: each channel is the
/// exact unit-interval fraction `numerator / 255`, kept exact by storing
/// the numerator; alpha passes through on the same scale as [`Color`].
#[derive(Clone, Copy, Debug, PartialEq, Eq)]
pub struct EngineColor {
    /// Numerator of the red channel over the fixed denominator 255.
    pub red_num: u8,
    /// Numerator of the green channel over the fixed denominator 255.
    pub green_num: u8,
    /// Numerator of the blue channel over the fixed denominator 255.
    pub blue_num: u8,
    /// Opacity in millionths, passed through unchanged from the source.
    pub alpha: u32,
}

/// What conversion yields: every byte channel `c` becomes the exact
/// fraction `c / 255`, and alpha is passed through unchanged.
pub open spec fn convert_spec(c: Color) -> EngineColor {
    EngineColor { red_num: c.r, green_num: c.g, blue_num: c.b, alpha: c.alpha }
}

/// The engine's neutral draw color: opaque white, `255 / 255` on every
/// channel and full alpha.
pub open spec fn opaque_white() -> EngineColor {
    EngineColor { red_num: 255, green_num: 255, blue_num: 255, alpha: ALPHA_OPAQUE }
}

/// Convert a frontend color to the engine's representation: channels become
/// the exact fractions `r / 255`, `g / 255`, `b / 255` and alpha passes
/// through unchanged.
pub fn color_into(c: Color) -> (res: EngineColor)
    ensures
        res == convert_spec(c),
{
    EngineColor { red_num: c.r, green_num: c.g, blue_num: c.b, alpha: c.alpha }
}

/// The engine's neutral draw color as a runtime value.
pub fn opaque_white_color() -> (res: EngineColor)
    ensures
        res == opaque_white(),
{
    EngineColor { red_num: 255, green_num: 255, blue_num: 255, alpha: ALPHA_OPAQUE }
}

} // verus!
