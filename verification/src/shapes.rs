//! Rectangles and points.

use vstd::prelude::*;

verus! {

/// A rectangle with sides parallel to the axes.
#[derive(Clone, Copy, Debug, PartialEq, Eq, Structural)]
pub struct Rectangle {
    pub width: u32,
    pub height: u32,
}

impl Rectangle {
    /// The area as a mathematical integer.
    pub open spec fn spec_area(&self) -> int {
        self.width * self.height
    }

    /// The area. It has to fit in a `u32`.
    pub fn area(&self) -> (a: u32)
        requires
            self.spec_area() <= u32::MAX,
        ensures
            a == self.spec_area(),
    {
        self.width * self.height
    }
}

impl Default for Rectangle {
    /// The empty rectangle.
    fn default() -> (r: Rectangle)
        ensures
            r.width == 0,
            r.height == 0,
    {
        Rectangle { width: 0, height: 0 }
    }
}

/// A point in the plane, with coordinates of any one type.
#[derive(Debug)]
pub struct Point<T> {
    pub x: T,
    pub y: T,
}

impl<T> Point<T> {
    /// The first coordinate.
    pub fn x(&self) -> (x: &T)
        ensures
            *x == self.x,
    {
        &self.x
    }

    /// The second coordinate.
    pub fn y(&self) -> (y: &T)
        ensures
            *y == self.y,
    {
        &self.y
    }
}

} // verus!
