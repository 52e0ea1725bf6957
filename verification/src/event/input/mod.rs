//! User input events

use vstd::prelude::*;

pub mod keyboard;

use crate::event::Position;
use keyboard::Mapping;
use keyboard::Modifiers;

pub use keyboard::KeyCode;
pub use keyboard::KeyMap;

verus! {

/// Keyboard input data
#[derive(Debug, Copy, Clone, PartialEq)]
pub struct KeyInput {
    code: KeyCode,
    mods: Option<Modifiers>,
    map: Mapping,
}

impl KeyInput {
    pub(crate) fn new(code: KeyCode, mods: Option<Modifiers>, map: Mapping) -> (k: Self)
        ensures
            k.spec_code() == code,
            k.spec_modifiers() == mods,
            k.spec_mapping() == map,
    {
        Self { code, mods, map }
    }

    pub closed spec fn spec_code(&self) -> KeyCode {
        self.code
    }

    pub closed spec fn spec_modifiers(&self) -> Option<Modifiers> {
        self.mods
    }

    pub closed spec fn spec_mapping(&self) -> Mapping {
        self.map
    }

    /// Return the keycode
    pub fn code(&self) -> (r: KeyCode)
        ensures
            r == self.spec_code(),
    {
        self.code
    }

    pub(crate) fn mapping(&self) -> (r: Mapping)
        ensures
            r == self.spec_mapping(),
    {
        self.map
    }

    /// The key modifiers associated with the input
    pub fn modifiers(&self) -> (r: Option<Modifiers>)
        ensures
            r == self.spec_modifiers(),
    {
        self.mods
    }
}

/// The type of Key event.
#[derive(Debug, Copy, Clone, PartialEq)]
pub enum KeyEvent {
    /// A Key press has occured.
    Press(KeyInput),
    /// A Key release has occured.
    Release(KeyInput),
}

/// The mouse input type
#[derive(Debug, Copy, Clone, PartialEq)]
pub enum MouseInput {
    /// Left Mouse button
    Left,
    /// Right Mouse button
    Right,
    /// Middle Mouse button
    Middle,
    /// Mouse scroll up
    ScrollUp,
    /// Mouse scroll down
    ScrollDown,
    /// An unknown button
    Unknown(Option<u8>),
}

/// Mouse event data
#[derive(Debug, Copy, Clone, PartialEq)]
pub struct MouseData {
    input: MouseInput,
    position: Position,
}

impl MouseData {
    pub(crate) fn new(input: MouseInput, position: Position) -> (m: Self)
        ensures
            m.spec_input() == input,
            m.spec_position() == position,
    {
        Self { input, position }
    }

    pub closed spec fn spec_input(&self) -> MouseInput {
        self.input
    }

    pub closed spec fn spec_position(&self) -> Position {
        self.position
    }

    /// The mouse button that triggered the event
    pub fn input(&self) -> (r: MouseInput)
        ensures
            r == self.spec_input(),
    {
        self.input
    }

    /// The position of the event
    pub fn position(&self) -> (r: Position)
        ensures
            r == self.spec_position(),
    {
        self.position
    }
}

/// The type of mouse event
#[derive(Debug, Copy, Clone, PartialEq)]
pub enum MouseEvent {
    /// A Mouse press has occured.
    Press(MouseData),
    /// A Mouse release has occured.
    Release(MouseData),
    /// A Mouse movement has occured.
    Move(Position),
    /// The Mouse pointer has entered the Window
    Enter(Position),
    /// The Mouse pointer has left the Window
    Leave(Position),
}

} // verus!
