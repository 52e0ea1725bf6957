//! All events relating to the display

use vstd::prelude::*;
use crate::event::Dimension;
use crate::event::Position;

verus! {

/// A map of an area of the window
/// that needs to be redrawn.
#[derive(Debug, Copy, Clone, PartialEq)]
pub struct ExposeMap(pub Position, pub Dimension);

/// Window focus event
#[derive(Debug, Copy, Clone, PartialEq)]
pub enum FocusEvent {
    /// The window gained focus
    Gain,
    /// The window lost focus
    Lose,
}

} // verus!
