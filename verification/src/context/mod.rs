//! The boundary with the platform windowing backend.
//!
//! The core never talks to a display protocol itself: it goes
//! through these capability traits. A backend supplies one window
//! per session and answers commands, status queries and event
//! reads for it. The traits promise nothing about what a backend
//! returns; everything the core guarantees holds for any
//! implementation.

use vstd::prelude::*;

use crate::event::Event;
use crate::message::data::Data;
use crate::message::stat::Stat;
use crate::message::WindowCommand;

verus! {

/// A connection error with the windowing system
#[non_exhaustive]
#[derive(Debug, Clone, PartialEq)]
pub enum ConnectionError {
    /// What the backend reported when it could not be reached
    Custom(String),
}

/// One backend window: the per-session collaborator that carries
/// out window commands and produces events
pub trait WindowContext {
    /// Block until the backend produces an event, if it can
    fn event(&mut self) -> Option<Event>;

    /// A pending event, without blocking
    fn poll(&mut self) -> Option<Event>;

    /// Answer a status query, if the backend can
    fn stat(&mut self, stat: Stat) -> Option<Data>;

    /// Carry out a window command; a fire-and-forget side effect
    fn window(&mut self, command: &WindowCommand);

    /// Flush pending work to the display
    fn update(&mut self);
}

/// The backend system handle that windows are created from
pub trait SystemContext {
    /// The kind of window this backend creates
    type Window: WindowContext;

    /// Create a new backend window
    fn create_window(&mut self) -> Self::Window;
}

} // verus!
