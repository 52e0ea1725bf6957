//! # Render
//!
//! Contains primitives for drawing graphics to the display.
//! A drawing is described by a `Surface`: an ordered list of
//! primitive objects that a windowing backend renders as it
//! sees fit. The core never interprets a surface; it carries
//! it through to the backend unmodified.

use vstd::prelude::*;

pub mod context;
pub mod shape;

pub use context::ImageFormat;
pub use context::ImageType;
pub use shape::Point;
pub use shape::Rect;

verus! {

/// A piece of text anchored at a point
#[derive(Debug, Clone, PartialEq)]
pub struct Font {
    /// Where the text begins
    pub point: Point,
    /// The text to draw
    pub text: String,
}

/// A polyline described by the points along its path
#[derive(Debug, Clone, PartialEq)]
pub struct Line {
    path: Vec<Point>,
}

impl Line {
    pub closed spec fn spec_path(&self) -> Seq<Point> {
        self.path@
    }

    pub fn new(path: Vec<Point>) -> (l: Self)
        ensures
            l.spec_path() == path@,
    {
        Self { path }
    }

    /// The points along the line
    pub fn path(&self) -> (p: &Vec<Point>)
        ensures
            p@ == self.spec_path(),
    {
        &self.path
    }
}

/// A primitive drawing operation
#[derive(Debug, Clone, PartialEq)]
pub enum Primitive {
    /// Draw text
    Text(Font),
    /// Draw a single point
    Point(Point),
    /// Draw a line along a path
    Line(Line),
    /// Draw a rectangle outline
    Rect(Rect),
}

/// An object that can stand on a surface
#[derive(Debug, Clone, PartialEq)]
pub enum Object {
    /// A primitive drawing operation
    Primitive(Primitive),
}

/// An ordered collection of objects to draw
#[derive(Debug, Clone, PartialEq)]
pub struct Surface {
    objects: Vec<Object>,
}

impl Surface {
    pub closed spec fn spec_objects(&self) -> Seq<Object> {
        self.objects@
    }

    pub fn new() -> (s: Self)
        ensures
            s.spec_objects() == Seq::<Object>::empty(),
    {
        Self { objects: Vec::new() }
    }

    /// Add an object on top of the surface
    pub fn push(&mut self, object: Object)
        ensures
            final(self).spec_objects() == old(self).spec_objects().push(object),
    {
        self.objects.push(object);
    }

    /// The objects on the surface, in drawing order
    pub fn objects(&self) -> (o: &Vec<Object>)
        ensures
            o@ == self.spec_objects(),
    {
        &self.objects
    }
}

/// A bitmap image to draw, as raw data with its dimensions
#[derive(Debug, Clone, PartialEq)]
pub struct Image {
    /// The raw pixel data
    pub data: Vec<u8>,
    /// The width of the image in pixels
    pub width: u32,
    /// The height of the image in pixels
    pub height: u32,
}

} // verus!
