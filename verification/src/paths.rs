//! Four ways of naming the same items: each builder reaches the rectangle
//! module through a different path form (direct imports, a module alias,
//! an absolute path from the crate root, and a path through the parent).
//! Every builder makes a five-by-five square and drops it.

use crate::shapes;
use crate::shapes::new_rect;
use crate::shapes::rectangles::Rect;
use vstd::prelude::*;

verus! {

/// Builds a square through names imported directly.
pub fn create_rectangle_v1() {
    let _r = Rect { width: 5, height: 5 };
    let _s = new_rect(5, 5);
}

/// Builds a square through an imported module alias.
pub fn create_rectangle_v2() {
    let _r = shapes::rectangles::Rect { width: 5, height: 5 };
    let _s = shapes::new_rect(5, 5);
}

/// Builds a square through an absolute path from the crate root.
pub fn create_rectangle_v3() {
    let _r = crate::shapes::rectangles::Rect { width: 5, height: 5 };
    let _s = crate::shapes::new_rect(5, 5);
}

/// Builds a square through a path relative to the parent module.
pub fn create_rectangle_v4() {
    let _r = super::shapes::rectangles::Rect { width: 5, height: 5 };
    let _s = super::shapes::new_rect(5, 5);
}

} // verus!
