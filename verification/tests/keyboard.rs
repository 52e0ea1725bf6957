use ren::event::display::ExposeMap;
use ren::event::input::keyboard::EnLayout;
use ren::event::input::keyboard::KeyMap;
use ren::event::input::keyboard::Layout;
use ren::event::input::MouseInput;
use ren::event::xcb::button_press;
use ren::event::xcb::event_type;
use ren::event::xcb::expose;
use ren::event::xcb::key_press;
use ren::event::xcb::window_event_map;
use ren::event::xcb::XcbEvent;
use ren::DisplayEvent;
use ren::Event;
use ren::InputEvent;
use ren::KeyEvent;
use ren::MouseEvent;

fn raw(response: u8) -> XcbEvent {
    XcbEvent {
        response,
        detail: 0,
        state: 0,
        x: 0,
        y: 0,
        width: 0,
        height: 0,
        format: 0,
        data: 0,
    }
}

#[test]
fn keycode_maps_to_keymap() {
    let event = XcbEvent { detail: 0x26, ..raw(2) };
    let input = key_press(&event);
    assert_eq!(input.code(), 0x26);
    assert_eq!(input.map(), Some(KeyMap::KeyA));

    let unknown = XcbEvent { detail: 0x00, ..raw(2) };
    assert_eq!(key_press(&unknown).map(), None);
}

#[test]
fn plain_key_prints_lowercase() {
    let event = XcbEvent { detail: 0x26, state: 0, ..raw(2) };
    let input = key_press(&event);
    assert_eq!(input.modifiers(), None);
    assert_eq!(input.as_str_using(&Layout::En(EnLayout::Us)), Some("a"));
}

#[test]
fn shifted_key_prints_uppercase() {
    let event = XcbEvent { detail: 0x26, state: 0x01, ..raw(2) };
    let input = key_press(&event);
    let mods = input.modifiers().unwrap();
    assert!(mods.shift);
    assert!(!mods.ctrl);
    assert_eq!(input.as_str_using(&Layout::En(EnLayout::Us)), Some("A"));
}

#[test]
fn layouts_differ_on_shifted_digits() {
    // Shift with digit three: hash mark in the US layout, pound
    // sign in the UK layout.
    let event = XcbEvent { detail: 0x0c, state: 0x01, ..raw(2) };
    let input = key_press(&event);
    assert_eq!(input.as_str_using(&Layout::En(EnLayout::Us)), Some("#"));
    assert_eq!(input.as_str_using(&Layout::En(EnLayout::Uk)), Some("\u{a3}"));
}

#[test]
fn caps_lock_prints_uppercase_letters_and_plain_digits() {
    let letter = XcbEvent { detail: 0x26, state: 0x02, ..raw(2) };
    let input = key_press(&letter);
    assert_eq!(input.as_str_using(&Layout::En(EnLayout::Us)), Some("A"));

    let digit = XcbEvent { detail: 0x0a, state: 0x02, ..raw(2) };
    let input = key_press(&digit);
    assert_eq!(input.as_str_using(&Layout::En(EnLayout::Us)), Some("1"));
}

#[test]
fn numpad_needs_num_lock() {
    let event = XcbEvent { detail: 0x57, state: 0x10, ..raw(2) };
    let input = key_press(&event);
    let mods = input.modifiers().unwrap();
    assert!(mods.num_lock);
    assert_eq!(input.as_str_using(&Layout::En(EnLayout::Us)), Some("1"));

    let without = XcbEvent { detail: 0x57, state: 0, ..raw(2) };
    let input = key_press(&without);
    assert_eq!(input.as_str_using(&Layout::En(EnLayout::Us)), None);
}

#[test]
fn event_type_masks_the_sent_bit() {
    let event = raw(0x80 | 12);
    assert_eq!(event_type(&event), 12);
}

#[test]
fn expose_event_carries_its_area() {
    let event = XcbEvent { x: 3, y: 4, width: 100, height: 50, ..raw(12) };
    assert_eq!(expose(&event), ExposeMap((3, 4), (100, 50)));
    assert_eq!(
        window_event_map(Some(&event), false, None),
        Some(Event::Display(DisplayEvent::Expose(ExposeMap((3, 4), (100, 50)))))
    );
}

#[test]
fn buttons_decode_to_mouse_input() {
    let event = XcbEvent { detail: 1, x: 10, y: 20, ..raw(4) };
    assert_eq!(button_press(&event), ((10, 20), MouseInput::Left));

    let event = XcbEvent { detail: 9, ..raw(4) };
    assert_eq!(button_press(&event).1, MouseInput::Unknown(Some(9)));

    let decoded = window_event_map(Some(&XcbEvent { detail: 2, x: 5, y: 6, ..raw(5) }), false, None);
    match decoded {
        Some(Event::Input(InputEvent::Mouse(MouseEvent::Release(data)))) => {
            assert_eq!(data.input(), MouseInput::Middle);
            assert_eq!(data.position(), (5, 6));
        },
        other => panic!("expected a mouse release, got {:?}", other),
    }
}

#[test]
fn key_events_decode_with_modifiers() {
    let decoded = window_event_map(Some(&XcbEvent { detail: 0x26, state: 0x05, ..raw(2) }), false, None);
    match decoded {
        Some(Event::Input(InputEvent::Key(KeyEvent::Press(input)))) => {
            let mods = input.modifiers().unwrap();
            assert!(mods.ctrl);
            assert!(mods.shift);
            assert!(!mods.alt);
        },
        other => panic!("expected a key press, got {:?}", other),
    }
}

#[test]
fn lost_connection_reads_as_terminate() {
    assert_eq!(window_event_map(None, true, None), Some(Event::Terminate));
    assert_eq!(window_event_map(None, false, None), None);
}

#[test]
fn delete_client_message_reads_as_terminate() {
    let event = XcbEvent { format: 32, data: 77, ..raw(33) };
    assert_eq!(window_event_map(Some(&event), false, Some(77)), Some(Event::Terminate));
    assert_eq!(
        window_event_map(Some(&event), false, Some(78)),
        Some(Event::Unknown(Some(33)))
    );
}

#[test]
fn unknown_codes_decode_to_unknown() {
    let event = raw(90);
    assert_eq!(window_event_map(Some(&event), false, None), Some(Event::Unknown(Some(90))));
}

#[test]
fn focus_events_decode() {
    assert_eq!(
        window_event_map(Some(&raw(9)), false, None),
        Some(Event::Display(DisplayEvent::FocusIn))
    );
    assert_eq!(
        window_event_map(Some(&raw(10)), false, None),
        Some(Event::Display(DisplayEvent::FocusOut))
    );
}

#[test]
fn event_kind_predicates() {
    let display = Event::Display(DisplayEvent::FocusIn);
    assert!(display.is_display());
    assert!(!display.is_input());
    assert_eq!(display.key(), None);
    assert_eq!(display.mouse(), None);

    let mouse = window_event_map(Some(&XcbEvent { x: 1, y: 2, ..raw(6) }), false, None).unwrap();
    assert!(mouse.is_input());
    assert_eq!(mouse.mouse(), Some(&MouseEvent::Move((1, 2))));
}
