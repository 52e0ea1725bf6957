//! Vector graphics type primitives

use vstd::prelude::*;

verus! {

/// A Point is a simple object that
/// represents a single location
#[derive(Debug, Copy, Clone, PartialEq, PartialOrd, Eq, Ord, Hash)]
pub struct Point {
    /// The x coordinate
    pub x: isize,
    /// The y coordinate
    pub y: isize,
}

impl Point {
    pub fn new(x: isize, y: isize) -> (p: Self)
        ensures
            p.x == x,
            p.y == y,
    {
        Self { x, y }
    }
}

/// A rectangular area with an origin (Point),
/// as well as a width and height
#[derive(Debug, Clone, PartialEq, Eq, Hash)]
pub struct Rect {
    /// The origin of the rectangle
    pub point: Point,
    /// The width of the rectangle
    pub width: usize,
    /// The height of the rectangle
    pub height: usize,
}

impl Rect {
    pub fn new(point: Point, width: usize, height: usize) -> (r: Self)
        ensures
            r.point == point,
            r.width == width,
            r.height == height,
    {
        Self { point, width, height }
    }
}

} // verus!
