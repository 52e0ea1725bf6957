//! Keyboard input: modifiers, key maps and printable layouts

use vstd::prelude::*;

verus! {

/// Possible keyboard modifiers/modes
#[non_exhaustive]
#[derive(Debug, Copy, Clone, Eq, PartialEq, Hash)]
pub enum Modifier {
    Ctrl,
    Shift,
    Caps,
    Alt,
    NumLock,
    ScrollLock,
}

/// Raw input keycode
pub type KeyCode = u16;

/// The set of modifiers active for one input
#[derive(Debug, Copy, Clone, Eq, PartialEq, Hash)]
pub struct Modifiers {
    pub ctrl: bool,
    pub shift: bool,
    pub caps: bool,
    pub alt: bool,
    pub num_lock: bool,
    pub scroll_lock: bool,
}

impl Modifiers {
    pub open spec fn spec_contains(&self, m: Modifier) -> bool {
        match m {
            Modifier::Ctrl => self.ctrl,
            Modifier::Shift => self.shift,
            Modifier::Caps => self.caps,
            Modifier::Alt => self.alt,
            Modifier::NumLock => self.num_lock,
            Modifier::ScrollLock => self.scroll_lock,
        }
    }

    /// Whether the given modifier is in the set
    pub fn contains(&self, m: Modifier) -> (r: bool)
        ensures
            r == self.spec_contains(m),
    {
        match m {
            Modifier::Ctrl => self.ctrl,
            Modifier::Shift => self.shift,
            Modifier::Caps => self.caps,
            Modifier::Alt => self.alt,
            Modifier::NumLock => self.num_lock,
            Modifier::ScrollLock => self.scroll_lock,
        }
    }
}

/// Selects the keycode translation of the backend that
/// produced the input
#[derive(Debug, Copy, Clone, Eq, PartialEq, Hash)]
pub enum Mapping {
    Xcb,
}

/// A mapping of possible keyboard characters.
#[non_exhaustive]
#[derive(Debug, Copy, Clone, Eq, PartialEq, Hash)]
pub enum KeyMap {
    Escape,
    F1,
    F2,
    F3,
    F4,
    F5,
    F6,
    F7,
    F8,
    F9,
    F10,
    F11,
    F12,
    PrintScreen,
    ScrollLock,
    Pause,
    Digit0,
    Digit1,
    Digit2,
    Digit3,
    Digit4,
    Digit5,
    Digit6,
    Digit7,
    Digit8,
    Digit9,
    Minus,
    Equal,
    Backspace,
    Space,
    Enter,
    ShiftLeft,
    ShiftRight,
    NumLock,
    CapsLock,
    Tab,
    CtrlLeft,
    CtrlRight,
    AltLeft,
    AltRight,
    ContextMenu,
    ArrowUp,
    ArrowDown,
    ArrowLeft,
    ArrowRight,
    Insert,
    Delete,
    Home,
    End,
    PageUp,
    PageDown,
    BracketLeft,
    BracketRight,
    Semicolon,
    Quote,
    Backquote,
    Backslash,
    IntlBackslash,
    Comma,
    Period,
    Slash,
    KeyA,
    KeyB,
    KeyC,
    KeyD,
    KeyE,
    KeyF,
    KeyG,
    KeyH,
    KeyI,
    KeyJ,
    KeyK,
    KeyL,
    KeyM,
    KeyN,
    KeyO,
    KeyP,
    KeyQ,
    KeyR,
    KeyS,
    KeyT,
    KeyU,
    KeyV,
    KeyW,
    KeyX,
    KeyY,
    KeyZ,
    Numpad0,
    Numpad1,
    Numpad2,
    Numpad3,
    Numpad4,
    Numpad5,
    Numpad6,
    Numpad7,
    Numpad8,
    Numpad9,
    NumpadDivide,
    NumpadMultiply,
    NumpadSubtract,
    NumpadAdd,
    NumpadDecimal,
    NumpadEnter,
    AudioVolumeMute,
    AudioVolumeDown,
    AudioVolumeUp,
}

/// Relates an optional printable string to its optional view
pub open spec fn str_opt_is(r: Option<&str>, s: Option<Seq<char>>) -> bool {
    match r {
        Some(x) => s == Some(x@),
        None => s is None,
    }
}

/// Keyboard layout
#[non_exhaustive]
#[derive(Debug, Copy, Clone, Eq, PartialEq, Hash)]
pub enum Layout {
    /// English keyboard layouts
    En(EnLayout),
}

impl Layout {
    pub open spec fn spec_as_str(&self, key: KeyMap, mods: Option<Modifiers>) -> Option<
        Seq<char>,
    > {
        match self {
            Layout::En(a) => a.spec_as_str(key, mods),
        }
    }

    pub(crate) fn as_str(&self, key: KeyMap, mods: Option<Modifiers>) -> (r: Option<&'static str>)
        ensures
            str_opt_is(r, self.spec_as_str(key, mods)),
    {
        match self {
            Layout::En(a) => a.as_str(key, mods),
        }
    }
}

/// English keyboard layouts
#[non_exhaustive]
#[derive(Debug, Copy, Clone, Eq, PartialEq, Hash)]
pub enum EnLayout {
    Uk,
    Us,
}

impl EnLayout {
    pub open spec fn spec_num(&self, key: KeyMap) -> Option<Seq<char>> {
        match key {
            KeyMap::Numpad0 => Some("0"@),
            KeyMap::Numpad1 => Some("1"@),
            KeyMap::Numpad2 => Some("2"@),
            KeyMap::Numpad3 => Some("3"@),
            KeyMap::Numpad4 => Some("4"@),
            KeyMap::Numpad5 => Some("5"@),
            KeyMap::Numpad6 => Some("6"@),
            KeyMap::Numpad7 => Some("7"@),
            KeyMap::Numpad8 => Some("8"@),
            KeyMap::Numpad9 => Some("9"@),
            KeyMap::NumpadDivide => Some("/"@),
            KeyMap::NumpadMultiply => Some("*"@),
            KeyMap::NumpadSubtract => Some("-"@),
            KeyMap::NumpadAdd => Some("+"@),
            KeyMap::NumpadDecimal => Some("."@),
            _ => None,
        }
    }

    pub(crate) fn num(&self, key: KeyMap) -> (r: Option<&'static str>)
        ensures
            str_opt_is(r, self.spec_num(key)),
    {
        match key {
            KeyMap::Numpad0 => Some("0"),
            KeyMap::Numpad1 => Some("1"),
            KeyMap::Numpad2 => Some("2"),
            KeyMap::Numpad3 => Some("3"),
            KeyMap::Numpad4 => Some("4"),
            KeyMap::Numpad5 => Some("5"),
            KeyMap::Numpad6 => Some("6"),
            KeyMap::Numpad7 => Some("7"),
            KeyMap::Numpad8 => Some("8"),
            KeyMap::Numpad9 => Some("9"),
            KeyMap::NumpadDivide => Some("/"),
            KeyMap::NumpadMultiply => Some("*"),
            KeyMap::NumpadSubtract => Some("-"),
            KeyMap::NumpadAdd => Some("+"),
            KeyMap::NumpadDecimal => Some("."),
            _ => None,
        }
    }

    pub open spec fn spec_special(&self, key: KeyMap) -> Option<Seq<char>> {
        match key {
            KeyMap::Minus => Some("-"@),
            KeyMap::Equal => Some("="@),
            KeyMap::BracketLeft => Some("["@),
            KeyMap::BracketRight => Some("]"@),
            KeyMap::Semicolon => Some(";"@),
            KeyMap::Quote => Some("'"@),
            KeyMap::Backquote => Some("`"@),
            KeyMap::Backslash => match self {
                EnLayout::Uk => Some("#"@),
                EnLayout::Us => Some("\\"@),
            },
            KeyMap::IntlBackslash => match self {
                EnLayout::Uk => Some("\\"@),
                EnLayout::Us => Some("<"@),
            },
            KeyMap::Comma => Some(","@),
            KeyMap::Period => Some("."@),
            KeyMap::Slash => Some("/"@),
            _ => None,
        }
    }

    pub(crate) fn special(&self, key: KeyMap) -> (r: Option<&'static str>)
        ensures
            str_opt_is(r, self.spec_special(key)),
    {
        match key {
            KeyMap::Minus => Some("-"),
            KeyMap::Equal => Some("="),
            KeyMap::BracketLeft => Some("["),
            KeyMap::BracketRight => Some("]"),
            KeyMap::Semicolon => Some(";"),
            KeyMap::Quote => Some("'"),
            KeyMap::Backquote => Some("`"),
            KeyMap::Backslash => match self {
                EnLayout::Uk => Some("#"),
                EnLayout::Us => Some("\\"),
            },
            KeyMap::IntlBackslash => match self {
                EnLayout::Uk => Some("\\"),
                EnLayout::Us => Some("<"),
            },
            KeyMap::Comma => Some(","),
            KeyMap::Period => Some("."),
            KeyMap::Slash => Some("/"),
            _ => None,
        }
    }

    pub open spec fn spec_caps(&self, key: KeyMap) -> Option<Seq<char>> {
        match key {
            KeyMap::Digit0 => Some("0"@),
            KeyMap::Digit1 => Some("1"@),
            KeyMap::Digit2 => Some("2"@),
            KeyMap::Digit3 => Some("3"@),
            KeyMap::Digit4 => Some("4"@),
            KeyMap::Digit5 => Some("5"@),
            KeyMap::Digit6 => Some("6"@),
            KeyMap::Digit7 => Some("7"@),
            KeyMap::Digit8 => Some("8"@),
            KeyMap::Digit9 => Some("9"@),
            KeyMap::KeyA => Some("A"@),
            KeyMap::KeyB => Some("B"@),
            KeyMap::KeyC => Some("C"@),
            KeyMap::KeyD => Some("D"@),
            KeyMap::KeyE => Some("E"@),
            KeyMap::KeyF => Some("F"@),
            KeyMap::KeyG => Some("G"@),
            KeyMap::KeyH => Some("H"@),
            KeyMap::KeyI => Some("I"@),
            KeyMap::KeyJ => Some("J"@),
            KeyMap::KeyK => Some("K"@),
            KeyMap::KeyL => Some("L"@),
            KeyMap::KeyM => Some("M"@),
            KeyMap::KeyN => Some("N"@),
            KeyMap::KeyO => Some("O"@),
            KeyMap::KeyP => Some("P"@),
            KeyMap::KeyQ => Some("Q"@),
            KeyMap::KeyR => Some("R"@),
            KeyMap::KeyS => Some("S"@),
            KeyMap::KeyT => Some("T"@),
            KeyMap::KeyU => Some("U"@),
            KeyMap::KeyV => Some("V"@),
            KeyMap::KeyW => Some("W"@),
            KeyMap::KeyX => Some("X"@),
            KeyMap::KeyY => Some("Y"@),
            KeyMap::KeyZ => Some("Z"@),
            _ => self.spec_special(key),
        }
    }

    pub(crate) fn caps(&self, key: KeyMap) -> (r: Option<&'static str>)
        ensures
            str_opt_is(r, self.spec_caps(key)),
    {
        match key {
            KeyMap::Digit0 => Some("0"),
            KeyMap::Digit1 => Some("1"),
            KeyMap::Digit2 => Some("2"),
            KeyMap::Digit3 => Some("3"),
            KeyMap::Digit4 => Some("4"),
            KeyMap::Digit5 => Some("5"),
            KeyMap::Digit6 => Some("6"),
            KeyMap::Digit7 => Some("7"),
            KeyMap::Digit8 => Some("8"),
            KeyMap::Digit9 => Some("9"),
            KeyMap::KeyA => Some("A"),
            KeyMap::KeyB => Some("B"),
            KeyMap::KeyC => Some("C"),
            KeyMap::KeyD => Some("D"),
            KeyMap::KeyE => Some("E"),
            KeyMap::KeyF => Some("F"),
            KeyMap::KeyG => Some("G"),
            KeyMap::KeyH => Some("H"),
            KeyMap::KeyI => Some("I"),
            KeyMap::KeyJ => Some("J"),
            KeyMap::KeyK => Some("K"),
            KeyMap::KeyL => Some("L"),
            KeyMap::KeyM => Some("M"),
            KeyMap::KeyN => Some("N"),
            KeyMap::KeyO => Some("O"),
            KeyMap::KeyP => Some("P"),
            KeyMap::KeyQ => Some("Q"),
            KeyMap::KeyR => Some("R"),
            KeyMap::KeyS => Some("S"),
            KeyMap::KeyT => Some("T"),
            KeyMap::KeyU => Some("U"),
            KeyMap::KeyV => Some("V"),
            KeyMap::KeyW => Some("W"),
            KeyMap::KeyX => Some("X"),
            KeyMap::KeyY => Some("Y"),
            KeyMap::KeyZ => Some("Z"),
            _ => self.special(key),
        }
    }

    pub open spec fn spec_shift(&self, key: KeyMap) -> Option<Seq<char>> {
        match key {
            KeyMap::Digit0 => Some(")"@),
            KeyMap::Digit1 => Some("!"@),
            KeyMap::Digit2 => match self {
                EnLayout::Uk => Some("\""@),
                EnLayout::Us => Some("@"@),
            },
            KeyMap::Digit3 => match self {
                EnLayout::Uk => Some("\u{a3}"@),
                EnLayout::Us => Some("#"@),
            },
            KeyMap::Digit4 => Some("$"@),
            KeyMap::Digit5 => Some("%"@),
            KeyMap::Digit6 => Some("^"@),
            KeyMap::Digit7 => Some("&"@),
            KeyMap::Digit8 => Some("*"@),
            KeyMap::Digit9 => Some("("@),
            KeyMap::Minus => Some("_"@),
            KeyMap::Equal => Some("+"@),
            KeyMap::BracketLeft => Some("{"@),
            KeyMap::BracketRight => Some("}"@),
            KeyMap::Semicolon => Some(":"@),
            KeyMap::Quote => match self {
                EnLayout::Uk => Some("@"@),
                EnLayout::Us => Some("\""@),
            },
            KeyMap::Backquote => match self {
                EnLayout::Uk => Some("|"@),
                EnLayout::Us => Some("~"@),
            },
            KeyMap::Backslash => match self {
                EnLayout::Uk => Some("~"@),
                EnLayout::Us => Some("|"@),
            },
            KeyMap::IntlBackslash => match self {
                EnLayout::Uk => Some("|"@),
                EnLayout::Us => Some(">"@),
            },
            KeyMap::Comma => Some("<"@),
            KeyMap::Period => Some(">"@),
            KeyMap::Slash => Some("?"@),
            _ => None,
        }
    }

    pub(crate) fn shift(&self, key: KeyMap) -> (r: Option<&'static str>)
        ensures
            str_opt_is(r, self.spec_shift(key)),
    {
        match key {
            KeyMap::Digit0 => Some(")"),
            KeyMap::Digit1 => Some("!"),
            KeyMap::Digit2 => match self {
                EnLayout::Uk => Some("\""),
                EnLayout::Us => Some("@"),
            },
            KeyMap::Digit3 => match self {
                EnLayout::Uk => Some("\u{a3}"),
                EnLayout::Us => Some("#"),
            },
            KeyMap::Digit4 => Some("$"),
            KeyMap::Digit5 => Some("%"),
            KeyMap::Digit6 => Some("^"),
            KeyMap::Digit7 => Some("&"),
            KeyMap::Digit8 => Some("*"),
            KeyMap::Digit9 => Some("("),
            KeyMap::Minus => Some("_"),
            KeyMap::Equal => Some("+"),
            KeyMap::BracketLeft => Some("{"),
            KeyMap::BracketRight => Some("}"),
            KeyMap::Semicolon => Some(":"),
            KeyMap::Quote => match self {
                EnLayout::Uk => Some("@"),
                EnLayout::Us => Some("\""),
            },
            KeyMap::Backquote => match self {
                EnLayout::Uk => Some("|"),
                EnLayout::Us => Some("~"),
            },
            KeyMap::Backslash => match self {
                EnLayout::Uk => Some("~"),
                EnLayout::Us => Some("|"),
            },
            KeyMap::IntlBackslash => match self {
                EnLayout::Uk => Some("|"),
                EnLayout::Us => Some(">"),
            },
            KeyMap::Comma => Some("<"),
            KeyMap::Period => Some(">"),
            KeyMap::Slash => Some("?"),
            _ => None,
        }
    }

    pub open spec fn spec_none(&self, key: KeyMap) -> Option<Seq<char>> {
        match key {
            KeyMap::Digit0 => Some("0"@),
            KeyMap::Digit1 => Some("1"@),
            KeyMap::Digit2 => Some("2"@),
            KeyMap::Digit3 => Some("3"@),
            KeyMap::Digit4 => Some("4"@),
            KeyMap::Digit5 => Some("5"@),
            KeyMap::Digit6 => Some("6"@),
            KeyMap::Digit7 => Some("7"@),
            KeyMap::Digit8 => Some("8"@),
            KeyMap::Digit9 => Some("9"@),
            KeyMap::KeyA => Some("a"@),
            KeyMap::KeyB => Some("b"@),
            KeyMap::KeyC => Some("c"@),
            KeyMap::KeyD => Some("d"@),
            KeyMap::KeyE => Some("e"@),
            KeyMap::KeyF => Some("f"@),
            KeyMap::KeyG => Some("g"@),
            KeyMap::KeyH => Some("h"@),
            KeyMap::KeyI => Some("i"@),
            KeyMap::KeyJ => Some("j"@),
            KeyMap::KeyK => Some("k"@),
            KeyMap::KeyL => Some("l"@),
            KeyMap::KeyM => Some("m"@),
            KeyMap::KeyN => Some("n"@),
            KeyMap::KeyO => Some("o"@),
            KeyMap::KeyP => Some("p"@),
            KeyMap::KeyQ => Some("q"@),
            KeyMap::KeyR => Some("r"@),
            KeyMap::KeyS => Some("s"@),
            KeyMap::KeyT => Some("t"@),
            KeyMap::KeyU => Some("u"@),
            KeyMap::KeyV => Some("v"@),
            KeyMap::KeyW => Some("w"@),
            KeyMap::KeyX => Some("x"@),
            KeyMap::KeyY => Some("y"@),
            KeyMap::KeyZ => Some("z"@),
            _ => self.spec_special(key),
        }
    }

    pub(crate) fn none(&self, key: KeyMap) -> (r: Option<&'static str>)
        ensures
            str_opt_is(r, self.spec_none(key)),
    {
        match key {
            KeyMap::Digit0 => Some("0"),
            KeyMap::Digit1 => Some("1"),
            KeyMap::Digit2 => Some("2"),
            KeyMap::Digit3 => Some("3"),
            KeyMap::Digit4 => Some("4"),
            KeyMap::Digit5 => Some("5"),
            KeyMap::Digit6 => Some("6"),
            KeyMap::Digit7 => Some("7"),
            KeyMap::Digit8 => Some("8"),
            KeyMap::Digit9 => Some("9"),
            KeyMap::KeyA => Some("a"),
            KeyMap::KeyB => Some("b"),
            KeyMap::KeyC => Some("c"),
            KeyMap::KeyD => Some("d"),
            KeyMap::KeyE => Some("e"),
            KeyMap::KeyF => Some("f"),
            KeyMap::KeyG => Some("g"),
            KeyMap::KeyH => Some("h"),
            KeyMap::KeyI => Some("i"),
            KeyMap::KeyJ => Some("j"),
            KeyMap::KeyK => Some("k"),
            KeyMap::KeyL => Some("l"),
            KeyMap::KeyM => Some("m"),
            KeyMap::KeyN => Some("n"),
            KeyMap::KeyO => Some("o"),
            KeyMap::KeyP => Some("p"),
            KeyMap::KeyQ => Some("q"),
            KeyMap::KeyR => Some("r"),
            KeyMap::KeyS => Some("s"),
            KeyMap::KeyT => Some("t"),
            KeyMap::KeyU => Some("u"),
            KeyMap::KeyV => Some("v"),
            KeyMap::KeyW => Some("w"),
            KeyMap::KeyX => Some("x"),
            KeyMap::KeyY => Some("y"),
            KeyMap::KeyZ => Some("z"),
            _ => self.special(key),
        }
    }

    /// The printable string for a key under the given modifiers:
    /// shift and caps pick the table, num lock adds the numpad keys.
    pub open spec fn spec_as_str(&self, key: KeyMap, mods: Option<Modifiers>) -> Option<
        Seq<char>,
    > {
        match mods {
            Some(m) => {
                if m.caps {
                    if m.shift {
                        let s = if self.spec_shift(key) is Some {
                            self.spec_shift(key)
                        } else {
                            self.spec_none(key)
                        };
                        if m.num_lock {
                            if s is Some {
                                s
                            } else {
                                self.spec_num(key)
                            }
                        } else {
                            s
                        }
                    } else {
                        if m.num_lock {
                            if self.spec_caps(key) is Some {
                                self.spec_caps(key)
                            } else {
                                self.spec_num(key)
                            }
                        } else {
                            self.spec_caps(key)
                        }
                    }
                } else if m.shift {
                    let s = if self.spec_shift(key) is Some {
                        self.spec_shift(key)
                    } else {
                        self.spec_caps(key)
                    };
                    if m.num_lock {
                        if s is Some {
                            s
                        } else {
                            self.spec_num(key)
                        }
                    } else {
                        s
                    }
                } else {
                    if m.num_lock {
                        if self.spec_none(key) is Some {
                            self.spec_none(key)
                        } else {
                            self.spec_num(key)
                        }
                    } else {
                        self.spec_none(key)
                    }
                }
            },
            None => self.spec_none(key),
        }
    }

    pub(crate) fn as_str(&self, key: KeyMap, mods: Option<Modifiers>) -> (r: Option<
        &'static str,
    >)
        ensures
            str_opt_is(r, self.spec_as_str(key, mods)),
    {
        if let Some(m) = mods {
            if m.caps {
                if m.shift {
                    let s = match self.shift(key) {
                        Some(s) => Some(s),
                        None => self.none(key),
                    };
                    if m.num_lock {
                        match s {
                            Some(s) => Some(s),
                            None => self.num(key),
                        }
                    } else {
                        s
                    }
                } else {
                    if m.num_lock {
                        match self.caps(key) {
                            Some(s) => Some(s),
                            None => self.num(key),
                        }
                    } else {
                        self.caps(key)
                    }
                }
            } else if m.shift {
                let s = match self.shift(key) {
                    Some(s) => Some(s),
                    None => self.caps(key),
                };
                if m.num_lock {
                    match s {
                        Some(s) => Some(s),
                        None => self.num(key),
                    }
                } else {
                    s
                }
            } else {
                if m.num_lock {
                    match self.none(key) {
                        Some(s) => Some(s),
                        None => self.num(key),
                    }
                } else {
                    self.none(key)
                }
            }
        } else {
            self.none(key)
        }
    }
}

impl super::KeyInput {
    /// The key map the raw keycode translates to
    pub open spec fn spec_map(&self) -> Option<KeyMap> {
        match self.spec_mapping() {
            Mapping::Xcb => crate::event::xcb::spec_keymap(self.spec_code()),
        }
    }

    /// Map the keycode to a keyboard character map
    pub fn map(&self) -> (r: Option<KeyMap>)
        ensures
            r == self.spec_map(),
    {
        match self.mapping() {
            Mapping::Xcb => crate::event::xcb::keymap(self.code()),
        }
    }

    pub open spec fn spec_as_str_using(&self, layout: &Layout) -> Option<Seq<char>> {
        match self.spec_map() {
            Some(key) => layout.spec_as_str(key, self.spec_modifiers()),
            None => None,
        }
    }

    /// Converts printable characters into a `&str` using the keyboard
    /// layout `Layout`
    pub fn as_str_using(&self, layout: &Layout) -> (r: Option<&'static str>)
        ensures
            str_opt_is(r, self.spec_as_str_using(layout)),
    {
        match self.map() {
            Some(key) => layout.as_str(key, self.modifiers()),
            None => None,
        }
    }
}

} // verus!
