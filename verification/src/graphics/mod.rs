//! Graphics rendering api

use vstd::prelude::*;

verus! {

/// Text extent width and height
#[derive(Debug, Copy, Clone, PartialEq)]
pub struct TextExtent(pub usize, pub usize);

impl TextExtent {
    /// Get width of the text
    pub fn width(&self) -> (r: usize)
        ensures
            r == self.0,
    {
        self.0
    }

    /// Get the height of the text
    pub fn height(&self) -> (r: usize)
        ensures
            r == self.1,
    {
        self.1
    }

    /// Get the width and height of the text
    pub fn dimensions(&self) -> (r: (usize, usize))
        ensures
            r == (self.0, self.1),
    {
        (self.0, self.1)
    }
}

} // verus!
