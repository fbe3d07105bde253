use echoinput::input::{GlobalInputEvent, InputEvent, InputNormalizer};
use echoinput::keystrokes::{DisplayKey, Modifiers};
use echoinput::rdev::{
    brightness_is_on, convert, convert_event, handle_numpad_fallback, is_wayland, led_name_matches, trimmed,
    Button, Event, EventType, Key, KeyboardState, X11_BUTTON_PRESS, X11_BUTTON_RELEASE, X11_KEY_PRESS,
    X11_KEY_RELEASE, X11_MOTION_NOTIFY,
};

fn press(key: Key, name: Option<&str>) -> Event {
    Event { name: name.map(|s| s.to_string()), event_type: EventType::KeyPress(key) }
}

fn release(key: Key) -> Event {
    Event { name: None, event_type: EventType::KeyRelease(key) }
}

#[test]
fn modifier_press_reports_change() {
    let mut n = InputNormalizer::default();
    match n.handle_event(press(Key::ControlLeft, None)) {
        Some(InputEvent::ModifiersChanged(m)) => {
            assert_eq!(m, Modifiers { control: true, ..Modifiers::default() })
        },
        other => panic!("unexpected {other:?}"),
    }
    assert!(n.modifiers().control);
}

#[test]
fn key_press_carries_held_modifiers_and_text() {
    let mut n = InputNormalizer::new();
    n.handle_event(press(Key::ShiftLeft, None));
    match n.handle_event(press(Key::KeyA, Some("A"))) {
        Some(InputEvent::Keystroke(k)) => {
            assert_eq!(k.key, DisplayKey::Char('A'));
            assert!(k.modifiers.shift);
            assert_eq!(k.text.as_deref(), Some("A"));
        },
        other => panic!("unexpected {other:?}"),
    }
}

#[test]
fn unprintable_text_is_dropped() {
    let mut n = InputNormalizer::new();
    match n.handle_event(press(Key::Backspace, Some("\u{8}"))) {
        Some(InputEvent::Keystroke(k)) => assert_eq!(k.text, None),
        other => panic!("unexpected {other:?}"),
    }
    match n.handle_event(press(Key::Space, Some(" "))) {
        Some(InputEvent::Keystroke(k)) => assert_eq!(k.text, None),
        other => panic!("unexpected {other:?}"),
    }
}

#[test]
fn both_control_keys_must_be_released() {
    let mut n = InputNormalizer::new();
    n.handle_event(press(Key::ControlLeft, None));
    assert!(n.handle_event(press(Key::ControlRight, None)).is_none());
    assert!(n.handle_event(release(Key::ControlLeft)).is_none());
    assert!(n.modifiers().control);
    match n.handle_event(release(Key::ControlRight)) {
        Some(InputEvent::ModifiersChanged(m)) => assert_eq!(m, Modifiers::default()),
        other => panic!("unexpected {other:?}"),
    }
}

#[test]
fn press_then_release_restores() {
    let mut n = InputNormalizer::new();
    n.handle_event(press(Key::AltGr, None));
    assert!(n.modifiers().alt);
    n.handle_event(release(Key::AltGr));
    assert_eq!(n.modifiers(), Modifiers::default());
}

#[test]
fn repeated_modifier_press_reports_nothing() {
    let mut n = InputNormalizer::new();
    n.handle_event(press(Key::MetaLeft, None));
    assert!(n.handle_event(press(Key::MetaLeft, None)).is_none());
    assert!(n.modifiers().meta);
}

#[test]
fn other_events_are_dropped() {
    let mut n = InputNormalizer::new();
    assert!(n.handle_event(release(Key::KeyA)).is_none());
    let e = Event { name: None, event_type: EventType::ButtonPress(Button::Left) };
    assert!(n.handle_event(e).is_none());
    let e = Event { name: None, event_type: EventType::Wheel { delta_x: 0, delta_y: 1 } };
    assert!(n.handle_event(e).is_none());
    let e = Event { name: None, event_type: EventType::MouseMove };
    assert!(n.handle_event(e).is_none());
}

#[test]
fn reset_forgets_held_keys() {
    let mut n = InputNormalizer::new();
    n.handle_event(press(Key::ShiftRight, None));
    n.reset_modifiers();
    assert_eq!(n.modifiers(), Modifiers::default());
    match n.handle_event(press(Key::ShiftRight, None)) {
        Some(InputEvent::ModifiersChanged(m)) => assert!(m.shift),
        other => panic!("unexpected {other:?}"),
    }
}

#[test]
fn printable_names() {
    assert_eq!(press(Key::KeyA, Some("a")).into_printable_name().as_deref(), Some("a"));
    assert_eq!(press(Key::KeyA, Some("é")).into_printable_name().as_deref(), Some("é"));
    assert_eq!(press(Key::KeyA, Some("a b")).into_printable_name(), None);
    assert_eq!(press(Key::KeyA, Some("\u{7f}")).into_printable_name(), None);
    assert_eq!(press(Key::KeyA, Some("\u{a0}")).into_printable_name(), None);
    assert_eq!(press(Key::KeyA, None).into_printable_name(), None);
    assert_eq!(press(Key::KeyA, Some("")).into_printable_name().as_deref(), Some(""));
}

#[test]
fn modifier_keys() {
    assert!(Key::ControlLeft.is_modifier());
    assert!(Key::AltGr.is_modifier());
    assert!(Key::MetaRight.is_modifier());
    assert!(!Key::KeyA.is_modifier());
    assert!(!Key::CapsLock.is_modifier());
}

#[test]
fn numpad_fallback() {
    let mut e = EventType::KeyPress(Key::Kp1);
    handle_numpad_fallback(&mut e);
    assert_eq!(e, EventType::KeyPress(Key::End));
    let mut e = EventType::KeyRelease(Key::KpDelete);
    handle_numpad_fallback(&mut e);
    assert_eq!(e, EventType::KeyRelease(Key::Delete));
    let mut e = EventType::KeyPress(Key::Kp5);
    handle_numpad_fallback(&mut e);
    assert_eq!(e, EventType::KeyPress(Key::Kp5));
    let mut e = EventType::ButtonPress(Button::Left);
    handle_numpad_fallback(&mut e);
    assert_eq!(e, EventType::ButtonPress(Button::Left));
}

#[test]
fn wayland_detection() {
    assert!(is_wayland(Some("wayland-0".into()), None));
    assert!(is_wayland(Some("".into()), Some("3".into())));
    assert!(!is_wayland(Some("".into()), Some("".into())));
    assert!(!is_wayland(None, None));
    assert!(is_wayland(None, Some("3".into())));
}

#[test]
fn global_listener_failure_is_kept() {
    let e = GlobalInputEvent::ListenerFailed("no display".to_string());
    assert!(matches!(e, GlobalInputEvent::ListenerFailed(ref s) if s == "no display"));
}

#[test]
fn trimming_whitespace() {
    assert_eq!(trimmed("  1\n"), "1");
    assert_eq!(trimmed("\u{3000}a b\t"), "a b");
    assert_eq!(trimmed("   "), "");
    assert_eq!(trimmed(""), "");
}

#[test]
fn led_names_and_brightness() {
    assert!(led_name_matches("input3::capslock", "::capslock"));
    assert!(!led_name_matches("input3::numlock", "::capslock"));
    assert!(!led_name_matches("lock", "::capslock"));
    assert!(brightness_is_on("1\n"));
    assert!(brightness_is_on(" +255 "));
    assert!(!brightness_is_on("0\n"));
    assert!(!brightness_is_on("-1"));
    assert!(!brightness_is_on(""));
    assert!(!brightness_is_on("2147483648"));
    assert!(brightness_is_on("2147483647"));
}

#[test]
fn x11_event_conversion() {
    assert_eq!(convert_event(38, X11_KEY_PRESS, Key::KeyA), Some(EventType::KeyPress(Key::KeyA)));
    assert_eq!(convert_event(38, X11_KEY_RELEASE, Key::KeyA), Some(EventType::KeyRelease(Key::KeyA)));
    assert_eq!(convert_event(1, X11_BUTTON_PRESS, Key::KeyA), Some(EventType::ButtonPress(Button::Left)));
    assert_eq!(convert_event(3, X11_BUTTON_RELEASE, Key::KeyA), Some(EventType::ButtonRelease(Button::Right)));
    assert_eq!(
        convert_event(5, X11_BUTTON_PRESS, Key::KeyA),
        Some(EventType::Wheel { delta_x: 0, delta_y: -1 })
    );
    assert_eq!(
        convert_event(6, X11_BUTTON_PRESS, Key::KeyA),
        Some(EventType::Wheel { delta_x: -1, delta_y: 0 })
    );
    assert_eq!(convert_event(4, X11_BUTTON_RELEASE, Key::KeyA), None);
    assert_eq!(convert_event(9, X11_BUTTON_PRESS, Key::KeyA), Some(EventType::ButtonPress(Button::Unknown(9))));
    assert_eq!(convert_event(0, X11_MOTION_NOTIFY, Key::KeyA), Some(EventType::MouseMove));
    assert_eq!(convert_event(0, 33, Key::KeyA), None);
}

/// A layout that types the lower-case letter of every key press it sees.
struct LowerCaseLayout {
    presses: usize,
}

impl KeyboardState for LowerCaseLayout {
    fn add(&mut self, event_type: &EventType) -> Option<String> {
        match event_type {
            EventType::KeyPress(Key::KeyA) => {
                self.presses += 1;
                Some("a".to_string())
            },
            _ => None,
        }
    }

    fn reset(&mut self) {
        self.presses = 0;
    }
}

#[test]
fn x11_record_conversion_with_keyboard() {
    let mut keyboard = Some(LowerCaseLayout { presses: 0 });
    let event = convert(&mut keyboard, 38, X11_KEY_PRESS, Key::KeyA).unwrap();
    assert_eq!(event.event_type, EventType::KeyPress(Key::KeyA));
    assert_eq!(event.name.as_deref(), Some("a"));
    assert_eq!(keyboard.as_ref().unwrap().presses, 1);

    let event = convert(&mut keyboard, 1, X11_BUTTON_PRESS, Key::KeyA).unwrap();
    assert_eq!(event.event_type, EventType::ButtonPress(Button::Left));
    assert_eq!(event.name, None);

    // Only the low byte of the detail names the button.
    let event = convert(&mut keyboard, 0x103, X11_BUTTON_RELEASE, Key::KeyA).unwrap();
    assert_eq!(event.event_type, EventType::ButtonRelease(Button::Right));

    assert!(convert(&mut keyboard, 4, X11_BUTTON_RELEASE, Key::KeyA).is_none());

    let mut none: Option<LowerCaseLayout> = None;
    assert!(convert(&mut none, 38, X11_KEY_PRESS, Key::KeyA).is_none());
}
