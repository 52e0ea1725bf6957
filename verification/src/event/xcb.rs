//! Decoding of XCB protocol events into `Event` values.
//!
//! The wire event is modelled by `XcbEvent`, which holds as plain
//! values the fields the decoder reads out of the protocol's
//! generic event union. The embedding glue fills one in from the
//! raw event and every decision after that point is made here.

use vstd::prelude::*;

use super::display::ExposeMap;
use super::input::keyboard;
use super::input::keyboard::KeyMap;
use super::input::keyboard::Mapping;
use super::input::KeyEvent;
use super::input::KeyInput;
use super::input::MouseData;
use super::input::MouseEvent;
use super::input::MouseInput;
use super::DisplayEvent;
use super::Event;
use super::InputEvent;
use super::Position;

verus! {

pub const KEY_PRESS: u8 = 2;

pub const KEY_RELEASE: u8 = 3;

pub const BUTTON_PRESS: u8 = 4;

pub const BUTTON_RELEASE: u8 = 5;

pub const MOTION_NOTIFY: u8 = 6;

pub const ENTER_NOTIFY: u8 = 7;

pub const LEAVE_NOTIFY: u8 = 8;

pub const FOCUS_IN: u8 = 9;

pub const FOCUS_OUT: u8 = 10;

pub const EXPOSE: u8 = 12;

pub const CLIENT_MESSAGE: u8 = 33;

/// The fields of an XCB event, as plain values. The protocol
/// sends one untyped record whose meaning depends on the
/// response code, so one flat record stands for them all:
/// each event kind reads only its own fields.
#[derive(Debug, Copy, Clone, PartialEq)]
pub struct XcbEvent {
    /// The raw response type, the sent-by-another-client bit included
    pub response: u8,
    /// The keycode of a key event, or the button of a button event
    pub detail: u8,
    /// The modifier state of a key or button event
    pub state: u16,
    /// The x coordinate of the event
    pub x: i16,
    /// The y coordinate of the event
    pub y: i16,
    /// The width of an exposed area
    pub width: u16,
    /// The height of an exposed area
    pub height: u16,
    /// The data format of a client message
    pub format: u8,
    /// The first data word of a client message
    pub data: u32,
}

pub open spec fn spec_event_type(e: &XcbEvent) -> u8 {
    e.response & 0x7f
}

/// The response code with the sent-by-another-client bit masked off
pub fn event_type(e: &XcbEvent) -> (r: u8)
    ensures
        r == spec_event_type(e),
{
    e.response & 0x7f
}

/// The redraw area of an expose event
pub fn expose(e: &XcbEvent) -> (r: ExposeMap)
    ensures
        r == ExposeMap((e.x, e.y), (e.width, e.height)),
{
    ExposeMap((e.x, e.y), (e.width, e.height))
}

pub open spec fn spec_modifier(state: u16) -> Option<keyboard::Modifiers> {
    if 1 <= state && state <= 0x1f {
        Some(
            keyboard::Modifiers {
                shift: state & 0x01 != 0,
                caps: state & 0x02 != 0,
                ctrl: state & 0x04 != 0,
                alt: state & 0x08 != 0,
                num_lock: state & 0x10 != 0,
                scroll_lock: false,
            },
        )
    } else {
        None
    }
}

/// The modifier set encoded in a key or button state mask:
/// shift, lock, control, mod1 and mod2, one bit each
pub(crate) fn modifier(state: u16) -> (r: Option<keyboard::Modifiers>)
    ensures
        r == spec_modifier(state),
{
    if 1 <= state && state <= 0x1f {
        Some(
            keyboard::Modifiers {
                shift: state & 0x01 != 0,
                caps: state & 0x02 != 0,
                ctrl: state & 0x04 != 0,
                alt: state & 0x08 != 0,
                num_lock: state & 0x10 != 0,
                scroll_lock: false,
            },
        )
    } else {
        None
    }
}

pub open spec fn spec_keymap(code: u16) -> Option<KeyMap> {
    match code {
        0x09 => Some(KeyMap::Escape),
        0x0a => Some(KeyMap::Digit1),
        0x0b => Some(KeyMap::Digit2),
        0x0c => Some(KeyMap::Digit3),
        0x0d => Some(KeyMap::Digit4),
        0x0e => Some(KeyMap::Digit5),
        0x0f => Some(KeyMap::Digit6),
        0x10 => Some(KeyMap::Digit7),
        0x11 => Some(KeyMap::Digit8),
        0x12 => Some(KeyMap::Digit9),
        0x13 => Some(KeyMap::Digit0),
        0x14 => Some(KeyMap::Minus),
        0x15 => Some(KeyMap::Equal),
        0x16 => Some(KeyMap::Backspace),
        0x17 => Some(KeyMap::Tab),
        0x18 => Some(KeyMap::KeyQ),
        0x19 => Some(KeyMap::KeyW),
        0x1a => Some(KeyMap::KeyE),
        0x1b => Some(KeyMap::KeyR),
        0x1c => Some(KeyMap::KeyT),
        0x1d => Some(KeyMap::KeyY),
        0x1e => Some(KeyMap::KeyU),
        0x1f => Some(KeyMap::KeyI),
        0x20 => Some(KeyMap::KeyO),
        0x21 => Some(KeyMap::KeyP),
        0x22 => Some(KeyMap::BracketLeft),
        0x23 => Some(KeyMap::BracketRight),
        0x24 => Some(KeyMap::Enter),
        0x25 => Some(KeyMap::CtrlLeft),
        0x26 => Some(KeyMap::KeyA),
        0x27 => Some(KeyMap::KeyS),
        0x28 => Some(KeyMap::KeyD),
        0x29 => Some(KeyMap::KeyF),
        0x2a => Some(KeyMap::KeyG),
        0x2b => Some(KeyMap::KeyH),
        0x2c => Some(KeyMap::KeyJ),
        0x2d => Some(KeyMap::KeyK),
        0x2e => Some(KeyMap::KeyL),
        0x2f => Some(KeyMap::Semicolon),
        0x30 => Some(KeyMap::Quote),
        0x31 => Some(KeyMap::Backquote),
        0x32 => Some(KeyMap::ShiftLeft),
        0x33 => Some(KeyMap::Backslash),
        0x34 => Some(KeyMap::KeyZ),
        0x35 => Some(KeyMap::KeyX),
        0x36 => Some(KeyMap::KeyC),
        0x37 => Some(KeyMap::KeyV),
        0x38 => Some(KeyMap::KeyB),
        0x39 => Some(KeyMap::KeyN),
        0x3a => Some(KeyMap::KeyM),
        0x3b => Some(KeyMap::Comma),
        0x3c => Some(KeyMap::Period),
        0x3d => Some(KeyMap::Slash),
        0x3e => Some(KeyMap::ShiftRight),
        0x3f => Some(KeyMap::NumpadMultiply),
        0x40 => Some(KeyMap::AltLeft),
        0x41 => Some(KeyMap::Space),
        0x42 => Some(KeyMap::CapsLock),
        0x43 => Some(KeyMap::F1),
        0x44 => Some(KeyMap::F2),
        0x45 => Some(KeyMap::F3),
        0x46 => Some(KeyMap::F4),
        0x47 => Some(KeyMap::F5),
        0x48 => Some(KeyMap::F6),
        0x49 => Some(KeyMap::F7),
        0x4a => Some(KeyMap::F8),
        0x4b => Some(KeyMap::F9),
        0x4c => Some(KeyMap::F10),
        0x4f => Some(KeyMap::Numpad7),
        0x50 => Some(KeyMap::Numpad8),
        0x51 => Some(KeyMap::Numpad9),
        0x52 => Some(KeyMap::NumpadSubtract),
        0x53 => Some(KeyMap::Numpad4),
        0x54 => Some(KeyMap::Numpad5),
        0x55 => Some(KeyMap::Numpad6),
        0x56 => Some(KeyMap::NumpadAdd),
        0x57 => Some(KeyMap::Numpad1),
        0x58 => Some(KeyMap::Numpad2),
        0x59 => Some(KeyMap::Numpad3),
        0x5a => Some(KeyMap::Numpad0),
        0x5b => Some(KeyMap::NumpadDecimal),
        0x5e => Some(KeyMap::IntlBackslash),
        0x5f => Some(KeyMap::F11),
        0x60 => Some(KeyMap::F12),
        0x69 => Some(KeyMap::CtrlRight),
        0x6a => Some(KeyMap::NumpadDivide),
        0x6b => Some(KeyMap::PrintScreen),
        0x6c => Some(KeyMap::AltRight),
        0x6e => Some(KeyMap::Home),
        0x6f => Some(KeyMap::ArrowUp),
        0x71 => Some(KeyMap::ArrowLeft),
        0x72 => Some(KeyMap::ArrowRight),
        0x73 => Some(KeyMap::End),
        0x74 => Some(KeyMap::ArrowDown),
        0x75 => Some(KeyMap::PageDown),
        0x76 => Some(KeyMap::Insert),
        0x77 => Some(KeyMap::Delete),
        0x79 => Some(KeyMap::AudioVolumeMute),
        0x7a => Some(KeyMap::AudioVolumeDown),
        0x7b => Some(KeyMap::AudioVolumeUp),
        0x7f => Some(KeyMap::Pause),
        0x87 => Some(KeyMap::ContextMenu),
        _ => None,
    }
}

/// The key map for an XCB keycode
pub(crate) fn keymap(code: u16) -> (r: Option<KeyMap>)
    ensures
        r == spec_keymap(code),
{
    match code {
        0x09 => Some(KeyMap::Escape),
        0x0a => Some(KeyMap::Digit1),
        0x0b => Some(KeyMap::Digit2),
        0x0c => Some(KeyMap::Digit3),
        0x0d => Some(KeyMap::Digit4),
        0x0e => Some(KeyMap::Digit5),
        0x0f => Some(KeyMap::Digit6),
        0x10 => Some(KeyMap::Digit7),
        0x11 => Some(KeyMap::Digit8),
        0x12 => Some(KeyMap::Digit9),
        0x13 => Some(KeyMap::Digit0),
        0x14 => Some(KeyMap::Minus),
        0x15 => Some(KeyMap::Equal),
        0x16 => Some(KeyMap::Backspace),
        0x17 => Some(KeyMap::Tab),
        0x18 => Some(KeyMap::KeyQ),
        0x19 => Some(KeyMap::KeyW),
        0x1a => Some(KeyMap::KeyE),
        0x1b => Some(KeyMap::KeyR),
        0x1c => Some(KeyMap::KeyT),
        0x1d => Some(KeyMap::KeyY),
        0x1e => Some(KeyMap::KeyU),
        0x1f => Some(KeyMap::KeyI),
        0x20 => Some(KeyMap::KeyO),
        0x21 => Some(KeyMap::KeyP),
        0x22 => Some(KeyMap::BracketLeft),
        0x23 => Some(KeyMap::BracketRight),
        0x24 => Some(KeyMap::Enter),
        0x25 => Some(KeyMap::CtrlLeft),
        0x26 => Some(KeyMap::KeyA),
        0x27 => Some(KeyMap::KeyS),
        0x28 => Some(KeyMap::KeyD),
        0x29 => Some(KeyMap::KeyF),
        0x2a => Some(KeyMap::KeyG),
        0x2b => Some(KeyMap::KeyH),
        0x2c => Some(KeyMap::KeyJ),
        0x2d => Some(KeyMap::KeyK),
        0x2e => Some(KeyMap::KeyL),
        0x2f => Some(KeyMap::Semicolon),
        0x30 => Some(KeyMap::Quote),
        0x31 => Some(KeyMap::Backquote),
        0x32 => Some(KeyMap::ShiftLeft),
        0x33 => Some(KeyMap::Backslash),
        0x34 => Some(KeyMap::KeyZ),
        0x35 => Some(KeyMap::KeyX),
        0x36 => Some(KeyMap::KeyC),
        0x37 => Some(KeyMap::KeyV),
        0x38 => Some(KeyMap::KeyB),
        0x39 => Some(KeyMap::KeyN),
        0x3a => Some(KeyMap::KeyM),
        0x3b => Some(KeyMap::Comma),
        0x3c => Some(KeyMap::Period),
        0x3d => Some(KeyMap::Slash),
        0x3e => Some(KeyMap::ShiftRight),
        0x3f => Some(KeyMap::NumpadMultiply),
        0x40 => Some(KeyMap::AltLeft),
        0x41 => Some(KeyMap::Space),
        0x42 => Some(KeyMap::CapsLock),
        0x43 => Some(KeyMap::F1),
        0x44 => Some(KeyMap::F2),
        0x45 => Some(KeyMap::F3),
        0x46 => Some(KeyMap::F4),
        0x47 => Some(KeyMap::F5),
        0x48 => Some(KeyMap::F6),
        0x49 => Some(KeyMap::F7),
        0x4a => Some(KeyMap::F8),
        0x4b => Some(KeyMap::F9),
        0x4c => Some(KeyMap::F10),
        0x4f => Some(KeyMap::Numpad7),
        0x50 => Some(KeyMap::Numpad8),
        0x51 => Some(KeyMap::Numpad9),
        0x52 => Some(KeyMap::NumpadSubtract),
        0x53 => Some(KeyMap::Numpad4),
        0x54 => Some(KeyMap::Numpad5),
        0x55 => Some(KeyMap::Numpad6),
        0x56 => Some(KeyMap::NumpadAdd),
        0x57 => Some(KeyMap::Numpad1),
        0x58 => Some(KeyMap::Numpad2),
        0x59 => Some(KeyMap::Numpad3),
        0x5a => Some(KeyMap::Numpad0),
        0x5b => Some(KeyMap::NumpadDecimal),
        0x5e => Some(KeyMap::IntlBackslash),
        0x5f => Some(KeyMap::F11),
        0x60 => Some(KeyMap::F12),
        0x69 => Some(KeyMap::CtrlRight),
        0x6a => Some(KeyMap::NumpadDivide),
        0x6b => Some(KeyMap::PrintScreen),
        0x6c => Some(KeyMap::AltRight),
        0x6e => Some(KeyMap::Home),
        0x6f => Some(KeyMap::ArrowUp),
        0x71 => Some(KeyMap::ArrowLeft),
        0x72 => Some(KeyMap::ArrowRight),
        0x73 => Some(KeyMap::End),
        0x74 => Some(KeyMap::ArrowDown),
        0x75 => Some(KeyMap::PageDown),
        0x76 => Some(KeyMap::Insert),
        0x77 => Some(KeyMap::Delete),
        0x79 => Some(KeyMap::AudioVolumeMute),
        0x7a => Some(KeyMap::AudioVolumeDown),
        0x7b => Some(KeyMap::AudioVolumeUp),
        0x7f => Some(KeyMap::Pause),
        0x87 => Some(KeyMap::ContextMenu),
        _ => None,
    }
}

/// The keyboard input carried by a key press event
pub fn key_press(e: &XcbEvent) -> (r: KeyInput)
    ensures
        r.spec_code() == e.detail as u16,
        r.spec_modifiers() == spec_modifier(e.state),
        r.spec_mapping() == Mapping::Xcb,
{
    let mods = modifier(e.state);
    KeyInput::new(e.detail as u16, mods, Mapping::Xcb)
}

/// The keyboard input carried by a key release event
pub fn key_release(e: &XcbEvent) -> (r: KeyInput)
    ensures
        r.spec_code() == e.detail as u16,
        r.spec_modifiers() == spec_modifier(e.state),
        r.spec_mapping() == Mapping::Xcb,
{
    let mods = modifier(e.state);
    KeyInput::new(e.detail as u16, mods, Mapping::Xcb)
}

pub open spec fn spec_button(code: u8) -> MouseInput {
    match code {
        1u8 => MouseInput::Left,
        2u8 => MouseInput::Middle,
        3u8 => MouseInput::Right,
        4u8 => MouseInput::ScrollUp,
        5u8 => MouseInput::ScrollDown,
        _ => MouseInput::Unknown(Some(code)),
    }
}

/// The mouse button a button code stands for
pub(crate) fn button(code: u8) -> (r: MouseInput)
    ensures
        r == spec_button(code),
{
    match code {
        1u8 => MouseInput::Left,
        2u8 => MouseInput::Middle,
        3u8 => MouseInput::Right,
        4u8 => MouseInput::ScrollUp,
        5u8 => MouseInput::ScrollDown,
        _ => MouseInput::Unknown(Some(code)),
    }
}

/// The position and button of a button press event
pub fn button_press(e: &XcbEvent) -> (r: (Position, MouseInput))
    ensures
        r.0 == (e.x, e.y),
        r.1 == spec_button(e.detail),
{
    ((e.x, e.y), button(e.detail))
}

/// The position and button of a button release event
pub fn button_release(e: &XcbEvent) -> (r: (Position, MouseInput))
    ensures
        r.0 == (e.x, e.y),
        r.1 == spec_button(e.detail),
{
    ((e.x, e.y), button(e.detail))
}

/// The position of a pointer motion event
pub fn mouse_move(e: &XcbEvent) -> (r: Position)
    ensures
        r == (e.x, e.y),
{
    (e.x, e.y)
}

/// The position of a pointer enter event
pub fn mouse_enter(e: &XcbEvent) -> (r: Position)
    ensures
        r == (e.x, e.y),
{
    (e.x, e.y)
}

/// The position of a pointer leave event
pub fn mouse_leave(e: &XcbEvent) -> (r: Position)
    ensures
        r == (e.x, e.y),
{
    (e.x, e.y)
}

/// Turns what the backend connection handed back into an `Event`.
///
/// A missing event on a broken connection is reported as a
/// terminate event, so that a lost display reads as a shutdown
/// to the caller's control loop rather than hanging it.
pub fn window_event_map(event: Option<&XcbEvent>, connection_error: bool, delete: Option<u32>) -> (r:
    Option<Event>)
    ensures
        ({
            match event {
                None => r == if connection_error {
                    Some(Event::Terminate)
                } else {
                    None::<Event>
                },
                Some(e) => {
                    let t = spec_event_type(e);
                    &&& t == EXPOSE ==> r == Some(
                        Event::Display(DisplayEvent::Expose(ExposeMap((e.x, e.y), (e.width, e.height)))),
                    )
                    &&& t == KEY_PRESS ==> (match r {
                        Some(Event::Input(InputEvent::Key(KeyEvent::Press(k)))) => {
                            &&& k.spec_code() == e.detail as u16
                            &&& k.spec_modifiers() == spec_modifier(e.state)
                            &&& k.spec_mapping() == Mapping::Xcb
                        },
                        _ => false,
                    })
                    &&& t == KEY_RELEASE ==> (match r {
                        Some(Event::Input(InputEvent::Key(KeyEvent::Release(k)))) => {
                            &&& k.spec_code() == e.detail as u16
                            &&& k.spec_modifiers() == spec_modifier(e.state)
                            &&& k.spec_mapping() == Mapping::Xcb
                        },
                        _ => false,
                    })
                    &&& t == BUTTON_PRESS ==> (match r {
                        Some(Event::Input(InputEvent::Mouse(MouseEvent::Press(m)))) => {
                            &&& m.spec_input() == spec_button(e.detail)
                            &&& m.spec_position() == (e.x, e.y)
                        },
                        _ => false,
                    })
                    &&& t == BUTTON_RELEASE ==> (match r {
                        Some(Event::Input(InputEvent::Mouse(MouseEvent::Release(m)))) => {
                            &&& m.spec_input() == spec_button(e.detail)
                            &&& m.spec_position() == (e.x, e.y)
                        },
                        _ => false,
                    })
                    &&& t == MOTION_NOTIFY ==> r == Some(
                        Event::Input(InputEvent::Mouse(MouseEvent::Move((e.x, e.y)))),
                    )
                    &&& t == ENTER_NOTIFY ==> r == Some(
                        Event::Input(InputEvent::Mouse(MouseEvent::Enter((e.x, e.y)))),
                    )
                    &&& t == LEAVE_NOTIFY ==> r == Some(
                        Event::Input(InputEvent::Mouse(MouseEvent::Leave((e.x, e.y)))),
                    )
                    &&& t == FOCUS_IN ==> r == Some(Event::Display(DisplayEvent::FocusIn))
                    &&& t == FOCUS_OUT ==> r == Some(Event::Display(DisplayEvent::FocusOut))
                    &&& t == CLIENT_MESSAGE ==> r == if e.format == 32 && delete == Some(e.data) {
                        Some(Event::Terminate)
                    } else {
                        Some(Event::Unknown(Some(t as u16)))
                    }
                    &&& (t != EXPOSE && t != KEY_PRESS && t != KEY_RELEASE && t != BUTTON_PRESS
                        && t != BUTTON_RELEASE && t != MOTION_NOTIFY && t != ENTER_NOTIFY && t
                        != LEAVE_NOTIFY && t != FOCUS_IN && t != FOCUS_OUT && t != CLIENT_MESSAGE)
                        ==> r == Some(Event::Unknown(Some(t as u16)))
                },
            }
        }),
{
    match event {
        None => {
            if connection_error {
                Some(Event::Terminate)
            } else {
                None
            }
        },
        Some(e) => {
            let response = event_type(e);
            let decoded: Event = if response == EXPOSE {
                Event::Display(DisplayEvent::Expose(expose(e)))
            } else if response == KEY_PRESS {
                Event::Input(InputEvent::Key(KeyEvent::Press(key_press(e))))
            } else if response == KEY_RELEASE {
                Event::Input(InputEvent::Key(KeyEvent::Release(key_release(e))))
            } else if response == BUTTON_PRESS {
                let (pos, input) = button_press(e);
                Event::Input(InputEvent::Mouse(MouseEvent::Press(MouseData::new(input, pos))))
            } else if response == BUTTON_RELEASE {
                let (pos, input) = button_release(e);
                Event::Input(InputEvent::Mouse(MouseEvent::Release(MouseData::new(input, pos))))
            } else if response == MOTION_NOTIFY {
                Event::Input(InputEvent::Mouse(MouseEvent::Move(mouse_move(e))))
            } else if response == ENTER_NOTIFY {
                Event::Input(InputEvent::Mouse(MouseEvent::Enter(mouse_enter(e))))
            } else if response == LEAVE_NOTIFY {
                Event::Input(InputEvent::Mouse(MouseEvent::Leave(mouse_leave(e))))
            } else if response == FOCUS_IN {
                Event::Display(DisplayEvent::FocusIn)
            } else if response == FOCUS_OUT {
                Event::Display(DisplayEvent::FocusOut)
            } else if response == CLIENT_MESSAGE {
                let is_delete = match delete {
                    Some(d) => e.format == 32 && d == e.data,
                    None => false,
                };
                if is_delete {
                    Event::Terminate
                } else {
                    Event::Unknown(Some(response as u16))
                }
            } else {
                Event::Unknown(Some(response as u16))
            };
            Some(decoded)
        },
    }
}

} // verus!
