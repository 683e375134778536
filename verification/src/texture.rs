//! GPU-resident image resources, identified by integer handles.

use vstd::prelude::*;
use crate::math::MAX_TEXTURE_DIM;

verus! {

/// A handle to a GPU-resident image: its dimensions in texels and the
/// identifier the renderer stamped on the underlying GPU image when it
/// was created.
///
/// The pixel data itself lives on the GPU and is immutable once
/// uploaded; any number of sprites may share one texture through
/// different source rectangles. The identifier, not an address, is
/// what batch keys compare, so identity survives moves and clones.
#[derive(Clone, Copy, Debug, PartialEq, Eq, Structural)]
pub struct Texture {
    pub width: u32,
    pub height: u32,
    pub id: u64,
}

/// Whether a texture has usable dimensions: nonempty and within the
/// renderer's size limit.
pub open spec fn texture_wf(t: Texture) -> bool {
    &&& 0 < t.width <= MAX_TEXTURE_DIM
    &&& 0 < t.height <= MAX_TEXTURE_DIM
}

impl Texture {
    /// A texture handle with the given dimensions and identifier.
    pub fn new(width: u32, height: u32, id: u64) -> (t: Texture)
        requires
            0 < width <= MAX_TEXTURE_DIM,
            0 < height <= MAX_TEXTURE_DIM,
        ensures
            t == (Texture { width, height, id }),
            texture_wf(t),
    {
        Texture { width, height, id }
    }

    /// The texture's dimensions in texels.
    pub fn dimensions(&self) -> (d: (u32, u32))
        ensures
            d.0 == self.width,
            d.1 == self.height,
    {
        (self.width, self.height)
    }
}

} // verus!
