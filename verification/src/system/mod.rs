//! The windowing system handle and the window wrapper a session owns

use vstd::prelude::*;

use crate::context::SystemContext;
use crate::context::WindowContext;
use crate::event::Event;
use crate::message::data::Data;
use crate::message::stat::Stat;
use crate::message::WindowCommand;

verus! {

/// The kind of windowing system
#[non_exhaustive]
#[derive(Debug, Clone, Copy, PartialEq)]
pub enum SystemType {
    Xcb,
}

impl Default for SystemType {
    fn default() -> (r: Self)
        ensures
            r == SystemType::Xcb,
    {
        SystemType::Xcb
    }
}

/// One backend window, owned by exactly one session
pub struct Window<C: WindowContext> {
    context: C,
}

impl<C: WindowContext> Window<C> {
    pub fn new(context: C) -> Self {
        Self { context }
    }

    /// Block for the next event, if the backend produces one
    pub fn event(&mut self) -> Option<Event> {
        self.context.event()
    }

    /// A pending event, without blocking
    pub fn poll(&mut self) -> Option<Event> {
        self.context.poll()
    }

    /// Answer a status query, if the backend can
    pub fn stat(&mut self, stat: Stat) -> Option<Data> {
        self.context.stat(stat)
    }

    /// Carry out a window command
    pub fn window(&mut self, command: &WindowCommand) {
        self.context.window(command);
    }
}

/// The backend system handle used to create new windows
pub struct System<S: SystemContext> {
    connection: S,
}

impl<S: SystemContext> System<S> {
    pub fn new(connection: S) -> Self {
        Self { connection }
    }

    /// Create a new backend window
    pub fn create_window(&mut self) -> Window<S::Window> {
        Window::new(self.connection.create_window())
    }
}

} // verus!
