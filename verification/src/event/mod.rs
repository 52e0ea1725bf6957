//! # Events
//! When an event is received an `Event` object is returned.
//! All information about the event, such as the type and
//! relating metadata, is contained within this object.
//!
//! ## Event categories:
//!
//! `DisplayEvent` refers to things such as an exposed area
//! of the display that needs to be updated.
//!
//! `InputEvent` refers to user input that is generated from
//! devices such as a mouse and keyboard.

use vstd::prelude::*;

/// All events relating to the display
pub mod display;

/// All events relating to user input
pub mod input;

pub mod xcb;

verus! {

pub type Coord = i16;

pub type Size = u16;

pub type Position = (Coord, Coord);

pub type Dimension = (Size, Size);

/// A display event
#[non_exhaustive]
#[derive(Debug, Copy, Clone, PartialEq)]
pub enum DisplayEvent {
    /// An area of the window that needs to be updated.
    Expose(display::ExposeMap),
    /// The window gained focus
    FocusIn,
    /// The window lost focus
    FocusOut,
}

/// An input event
#[derive(Debug, Copy, Clone, PartialEq)]
pub enum InputEvent {
    /// A signal for a Key (KeyBoard) event.
    Key(input::KeyEvent),
    /// A signal for a Mouse event.
    Mouse(input::MouseEvent),
}

/// An `Event`
#[non_exhaustive]
#[derive(Debug, Copy, Clone, PartialEq)]
pub enum Event {
    /// An unknown event occurred. May contain an event code
    Unknown(Option<u16>),
    /// An event signalling termination of the current application window.
    Terminate,
    /// A display type event
    Display(DisplayEvent),
    /// An input event from a user
    Input(InputEvent),
}

impl From<DisplayEvent> for Event {
    fn from(e: DisplayEvent) -> (r: Self)
        ensures
            r == Event::Display(e),
    {
        Event::Display(e)
    }
}

impl vstd::std_specs::convert::FromSpecImpl<DisplayEvent> for Event {
    open spec fn obeys_from_spec() -> bool {
        true
    }

    open spec fn from_spec(e: DisplayEvent) -> Event {
        Event::Display(e)
    }
}

impl From<InputEvent> for Event {
    fn from(e: InputEvent) -> (r: Self)
        ensures
            r == Event::Input(e),
    {
        Event::Input(e)
    }
}

impl vstd::std_specs::convert::FromSpecImpl<InputEvent> for Event {
    open spec fn obeys_from_spec() -> bool {
        true
    }

    open spec fn from_spec(e: InputEvent) -> Event {
        Event::Input(e)
    }
}

impl From<input::KeyEvent> for Event {
    fn from(k: input::KeyEvent) -> (r: Self)
        ensures
            r == Event::Input(InputEvent::Key(k)),
    {
        Event::Input(InputEvent::Key(k))
    }
}

impl vstd::std_specs::convert::FromSpecImpl<input::KeyEvent> for Event {
    open spec fn obeys_from_spec() -> bool {
        true
    }

    open spec fn from_spec(k: input::KeyEvent) -> Event {
        Event::Input(InputEvent::Key(k))
    }
}

impl From<input::MouseEvent> for Event {
    fn from(m: input::MouseEvent) -> (r: Self)
        ensures
            r == Event::Input(InputEvent::Mouse(m)),
    {
        Event::Input(InputEvent::Mouse(m))
    }
}

impl vstd::std_specs::convert::FromSpecImpl<input::MouseEvent> for Event {
    open spec fn obeys_from_spec() -> bool {
        true
    }

    open spec fn from_spec(m: input::MouseEvent) -> Event {
        Event::Input(InputEvent::Mouse(m))
    }
}

impl Event {
    /// If the event is a `DisplayEvent`
    pub fn is_display(&self) -> (r: bool)
        ensures
            r == (self is Display),
    {
        if let Event::Display(_) = self {
            true
        } else {
            false
        }
    }

    /// If the event is an `InputEvent`
    pub fn is_input(&self) -> (r: bool)
        ensures
            r == (self is Input),
    {
        if let Event::Input(_) = self {
            true
        } else {
            false
        }
    }

    /// Returns `Some` if a `KeyEvent` otherwise `None`
    pub fn key(&self) -> (r: Option<&input::KeyEvent>)
        ensures
            match *self {
                Event::Input(InputEvent::Key(event)) => r == Some(&event),
                _ => r is None,
            },
    {
        match self {
            Event::Input(InputEvent::Key(event)) => Some(event),
            _ => None,
        }
    }

    /// Returns `Some` if a `MouseEvent` otherwise `None`
    pub fn mouse(&self) -> (r: Option<&input::MouseEvent>)
        ensures
            match *self {
                Event::Input(InputEvent::Mouse(event)) => r == Some(&event),
                _ => r is None,
            },
    {
        match self {
            Event::Input(InputEvent::Mouse(event)) => Some(event),
            _ => None,
        }
    }
}

} // verus!
