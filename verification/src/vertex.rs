//! GPU vertex data produced by the sprite pipeline.

use vstd::prelude::*;
use crate::math::Vector2;

verus! {

/// An RGBA tint, one byte per channel (255 = full intensity).
#[derive(Clone, Copy, Debug, PartialEq, Eq, Structural)]
pub struct Color {
    pub r: u8,
    pub g: u8,
    pub b: u8,
    pub a: u8,
}

impl Color {
    /// The color with the given channels.
    pub fn new(r: u8, g: u8, b: u8, a: u8) -> (c: Color)
        ensures
            c == (Color { r, g, b, a }),
    {
        Color { r, g, b, a }
    }

    /// Opaque white, the neutral tint.
    pub fn white() -> (c: Color)
        ensures
            c == (Color { r: 255u8, g: 255u8, b: 255u8, a: 255u8 }),
    {
        Color { r: 255, g: 255, b: 255, a: 255 }
    }
}

/// A texture coordinate held as an exact rational: the normalized
/// coordinate is `u_num / u_den` horizontally and `v_num / v_den`
/// vertically. The denominators are the owning texture's dimensions,
/// so sub-rectangles of a shared atlas texture map exactly.
#[derive(Clone, Copy, Debug, PartialEq, Eq, Structural)]
pub struct UvCoord {
    pub u_num: u32,
    pub u_den: u32,
    pub v_num: u32,
    pub v_den: u32,
}

/// One vertex of a sprite quad.
///
/// `pos` is in fixed-point units cubed: one pixel is
/// `FP_ONE * FP_ONE * FP_ONE` units. The vertex transform multiplies a
/// fixed-point corner by a fixed-point scale and a fixed-point
/// rotation without renormalizing, which keeps every step exact; the
/// embedding application divides by that constant when it converts to
/// the GPU's floating-point positions.
#[derive(Clone, Copy, Debug, PartialEq, Eq, Structural)]
pub struct Vertex {
    pub pos: Vector2,
    pub uv: UvCoord,
    pub color: Color,
}

impl Vertex {
    /// A vertex from position, texture coordinate and tint.
    pub fn ptc(pos: Vector2, uv: UvCoord, color: Color) -> (v: Vertex)
        ensures
            v == (Vertex { pos, uv, color }),
    {
        Vertex { pos, uv, color }
    }
}

} // verus!
