//! The size of the window's drawing surface.
use vstd::prelude::*;

verus! {

/// A surface size in physical pixels.
#[derive(Clone, Copy, Debug, PartialEq, Eq, Structural)]
pub struct SurfaceSize {
    pub width: u32,
    pub height: u32,
}

impl SurfaceSize {
    /// A surface of `width` by `height` pixels.
    pub fn new(width: u32, height: u32) -> (r: Self)
        ensures
            r.width == width,
            r.height == height,
    {
        SurfaceSize { width, height }
    }
}

} // verus!
