//! Shape constructors; the rectangle type itself lives one module deeper.

pub mod rectangles;

use vstd::prelude::*;

verus! {

/// Builds a rectangle with the given sides.
pub fn new_rect(width: u32, height: u32) -> (r: rectangles::Rect)
    ensures
        r.width == width,
        r.height == height,
{
    rectangles::Rect { width, height }
}

} // verus!
