//! A model display backend, fully in memory.
//!
//! It implements the backend capability traits over the model
//! window of this module: commands act on plain window state,
//! status queries answer from it, and no events are produced.
//! It backs deterministic embeddings and makes the core's
//! behaviour observable without a display server.

use vstd::prelude::*;

pub mod window;

use crate::context::SystemContext;
use crate::context::WindowContext;
use crate::event::Event;
use crate::message::data::Data;
use crate::message::data::WindowData;
use crate::message::stat::Stat;
use crate::message::stat::WindowStat;
use crate::message::WindowCommand;
use crate::system::SystemType;
use window::spec_apply;
use window::Window;

verus! {

/// What a status query answers from the model window state
pub open spec fn spec_stat(w: Window, stat: Stat) -> Option<Data> {
    match stat {
        Stat::Window(WindowStat::Position) => Some(Data::Window(WindowData::Position(w.origin))),
        Stat::Window(WindowStat::Dimension) => Some(
            Data::Window(WindowData::Dimension(w.dimension)),
        ),
        _ => None,
    }
}

impl WindowContext for Window {
    /// The model produces no events
    fn event(&mut self) -> (r: Option<Event>)
        ensures
            *final(self) == *old(self),
            r is None,
    {
        None
    }

    /// The model produces no events
    fn poll(&mut self) -> (r: Option<Event>)
        ensures
            *final(self) == *old(self),
            r is None,
    {
        None
    }

    /// Position and dimension queries answer from the state;
    /// the model tracks nothing else
    fn stat(&mut self, stat: Stat) -> (r: Option<Data>)
        ensures
            *final(self) == *old(self),
            r == spec_stat(*old(self), stat),
    {
        match stat {
            Stat::Window(WindowStat::Position) => Some(
                Data::Window(WindowData::Position(self.origin)),
            ),
            Stat::Window(WindowStat::Dimension) => Some(
                Data::Window(WindowData::Dimension(self.dimension)),
            ),
            _ => None,
        }
    }

    /// Commands act on the window state
    fn window(&mut self, command: &WindowCommand)
        ensures
            *final(self) == spec_apply(*old(self), *command),
    {
        match command {
            WindowCommand::Title(s) => {
                self.title = s.clone();
            },
            WindowCommand::Dimension(d) => {
                self.dimension = *d;
            },
            WindowCommand::Origin(o) => {
                self.origin = *o;
            },
            WindowCommand::MapWindow => {
                self.mapped = true;
            },
            WindowCommand::Unmap => {
                self.mapped = false;
            },
            _ => {
            },
        }
    }

    /// The model has nothing to flush
    fn update(&mut self)
        ensures
            *final(self) == *old(self),
    {
    }
}

/// The model backend system: it hands out fresh model windows
pub struct System {
    /// The kind of windowing system the model stands in for
    pub ty: SystemType,
}

impl System {
    pub fn new(sys: SystemType) -> (s: Self)
        ensures
            s.ty == sys,
    {
        Self { ty: sys }
    }
}

impl SystemContext for System {
    type Window = Window;

    /// Every window starts fresh: untitled, zero-sized, unmapped
    fn create_window(&mut self) -> (w: Window)
        ensures
            w.title@ == Seq::<char>::empty(),
            w.origin == (0u32, 0u32),
            w.dimension == (0u32, 0u32),
            !w.mapped,
    {
        Window::default()
    }
}

} // verus!
