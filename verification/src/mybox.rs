//! A single-field box that hands back exactly the value it was built with.

use vstd::prelude::*;

verus! {

/// A transparent wrapper around one value.
pub struct MyBox<T>(T);

impl<T> MyBox<T> {
    /// The wrapped value, as the contracts speak of it.
    pub closed spec fn value(self) -> T {
        self.0
    }

    /// Wraps a value.
    pub fn new(x: T) -> (b: MyBox<T>)
        ensures
            b.value() == x,
    {
        MyBox(x)
    }

    /// Hands back a reference to exactly the value the box was built with.
    pub fn deref(&self) -> (r: &T)
        ensures
            *r == self.value(),
    {
        &self.0
    }
}

} // verus!
