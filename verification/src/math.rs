//! Fixed-point vectors and rectangles.
//!
//! All geometry in this crate is carried in exact signed fixed-point
//! integers: a coordinate of `FP_ONE` units stands for one pixel.
//! Products of fixed-point values are kept unnormalized (their unit is
//! a power of `FP_ONE`), so every arithmetic step in the crate is exact
//! and free of rounding. The embedding application converts to the
//! GPU's floating-point formats at the boundary.

use vstd::prelude::*;

verus! {

/// Number of fixed-point units per pixel.
pub const FP_ONE: i64 = 4096;

/// Largest magnitude, in fixed-point units, accepted for a location or
/// pivot coordinate (32768 pixels). Keeps the vertex transform inside
/// `i64` range.
pub const MAX_COORD: i64 = 134217728;

/// Largest magnitude, in fixed-point units, accepted for a scale
/// component (a factor of 256). Keeps the vertex transform inside
/// `i64` range.
pub const MAX_SCALE: i64 = 1048576;

/// Largest texture edge, in texels, accepted by the renderer.
pub const MAX_TEXTURE_DIM: u32 = 32768;

/// A two-component fixed-point vector: `FP_ONE` units per pixel.
#[derive(Clone, Copy, Debug, PartialEq, Eq, Structural)]
pub struct Vector2 {
    pub x: i64,
    pub y: i64,
}

impl Vector2 {
    /// The vector with the given components, in fixed-point units.
    pub fn new(x: i64, y: i64) -> (v: Vector2)
        ensures
            v == (Vector2 { x, y }),
    {
        Vector2 { x, y }
    }

    /// The zero vector.
    pub fn zero() -> (v: Vector2)
        ensures
            v == (Vector2 { x: 0, y: 0 }),
    {
        Vector2 { x: 0, y: 0 }
    }
}

/// Whether both components of `v` lie within `bound` in magnitude.
pub open spec fn vec2_bounded(v: Vector2, bound: int) -> bool {
    &&& -bound <= v.x <= bound
    &&& -bound <= v.y <= bound
}

/// An axis-aligned rectangle in fixed-point pixel coordinates.
#[derive(Clone, Copy, Debug, PartialEq, Eq, Structural)]
pub struct Rect {
    pub location: Vector2,
    pub dimensions: Vector2,
}

/// An axis-aligned rectangle in whole texels, used to select the part
/// of a texture a sprite shows.
#[derive(Clone, Copy, Debug, PartialEq, Eq, Structural)]
pub struct SourceRect {
    pub x: u32,
    pub y: u32,
    pub width: u32,
    pub height: u32,
}

impl SourceRect {
    /// The rectangle with the given texel origin and size.
    pub fn new(x: u32, y: u32, width: u32, height: u32) -> (r: SourceRect)
        ensures
            r == (SourceRect { x, y, width, height }),
    {
        SourceRect { x, y, width, height }
    }
}

/// A plane rotation, given by the fixed-point cosine and sine of its
/// angle (counter-clockwise positive). Computing the two components
/// from an angle in degrees is the embedding application's
/// trigonometry; the transform here is exact in whatever pair it is
/// handed.
#[derive(Clone, Copy, Debug, PartialEq, Eq, Structural)]
pub struct Rotation {
    pub cos: i64,
    pub sin: i64,
}

impl Rotation {
    /// The identity rotation (angle zero).
    pub fn identity() -> (r: Rotation)
        ensures
            r == (Rotation { cos: FP_ONE as i64, sin: 0i64 }),
    {
        Rotation { cos: FP_ONE, sin: 0 }
    }

    /// The rotation with the given fixed-point cosine and sine.
    pub fn new(cos: i64, sin: i64) -> (r: Rotation)
        ensures
            r == (Rotation { cos, sin }),
    {
        Rotation { cos, sin }
    }
}

/// Whether the rotation components lie within the unit range, as the
/// cosine and sine of a real angle do.
pub open spec fn rotation_bounded(r: Rotation) -> bool {
    &&& -FP_ONE <= r.cos <= FP_ONE
    &&& -FP_ONE <= r.sin <= FP_ONE
}

} // verus!
