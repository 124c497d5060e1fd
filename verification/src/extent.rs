//! Pixel dimensions of a surface, a swapchain, or an image attachment.

use vstd::prelude::*;

verus! {

/// A two-dimensional pixel size, as the surface reports it.
#[derive(Clone, Copy, Debug, PartialEq, Eq, Structural)]
pub struct Extent {
    pub width: u32,
    pub height: u32,
}

impl Extent {
    pub fn new(width: u32, height: u32) -> (r: Extent)
        ensures
            r.width == width,
            r.height == height,
    {
        Extent { width, height }
    }
}

} // verus!
