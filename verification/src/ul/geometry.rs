//! Integer rectangle geometry, crossing the boundary by value.

use vstd::prelude::*;

verus! {

/// A rectangle with integer coordinates.
#[derive(Debug, Clone, Copy, PartialEq, Eq, Structural)]
pub struct IntRect {
    pub left: i32,
    pub top: i32,
    pub right: i32,
    pub bottom: i32,
}

impl IntRect {
    /// A rectangle with the given coordinates.
    pub fn new(left: i32, top: i32, right: i32, bottom: i32) -> (r: Self)
        ensures
            r == (IntRect { left, top, right, bottom }),
    {
        IntRect { left, top, right, bottom }
    }

    /// The empty rectangle at the origin.
    pub fn empty() -> (r: Self)
        ensures
            r == (IntRect { left: 0i32, top: 0i32, right: 0i32, bottom: 0i32 }),
    {
        IntRect { left: 0, top: 0, right: 0, bottom: 0 }
    }

    /// Whether the rectangle encloses no area.
    pub fn is_empty(&self) -> (r: bool)
        ensures
            r == (self.left >= self.right || self.top >= self.bottom),
    {
        self.left >= self.right || self.top >= self.bottom
    }

    /// The width of the rectangle.
    pub fn width(&self) -> (r: i32)
        requires
            i32::MIN <= self.right - self.left <= i32::MAX,
        ensures
            r == self.right - self.left,
    {
        self.right - self.left
    }

    /// The height of the rectangle.
    pub fn height(&self) -> (r: i32)
        requires
            i32::MIN <= self.bottom - self.top <= i32::MAX,
        ensures
            r == self.bottom - self.top,
    {
        self.bottom - self.top
    }
}

} // verus!
