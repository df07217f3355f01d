//! An axis-aligned rectangle with derived area and perimeter.

use vstd::prelude::*;

verus! {

/// A rectangle, stored as its two side lengths.
pub struct Rect {
    pub width: u32,
    pub height: u32,
}

impl Rect {
    /// The area of the rectangle: width times height.
    pub fn get_area(&self) -> (a: u32)
        requires
            self.width * self.height <= u32::MAX,
        ensures
            a == self.width * self.height,
    {
        self.width * self.height
    }

    /// The perimeter of the rectangle: twice the sum of the sides.
    pub fn get_perimeter(&self) -> (p: u32)
        requires
            self.width * 2 + self.height * 2 <= u32::MAX,
        ensures
            p == 2 * (self.width + self.height),
    {
        self.width * 2 + self.height * 2
    }
}

} // verus!
