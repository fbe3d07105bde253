use echoinput::rdev::{Button, EventType, Key, KeyboardState};
use echoinput::wayland::{convert, convert_type, named_event, LibinputEvent, BTN_LEFT, BTN_MIDDLE, BTN_RIGHT};

/// A layout with Num Lock off: keypad keys type nothing, letters type themselves.
struct NumLockOff;

impl KeyboardState for NumLockOff {
    fn add(&mut self, event_type: &EventType) -> Option<String> {
        match event_type {
            EventType::KeyPress(Key::KeyQ) => Some("q".to_string()),
            _ => None,
        }
    }

    fn reset(&mut self) {}
}

fn scroll(horizontal: Option<i64>, vertical: Option<i64>) -> LibinputEvent {
    LibinputEvent::PointerScrollWheel { horizontal_v120: horizontal, vertical_v120: vertical }
}

#[test]
fn keyboard_events() {
    assert_eq!(
        convert_type(LibinputEvent::Keyboard { key: Key::KeyQ, pressed: true }),
        Some(EventType::KeyPress(Key::KeyQ))
    );
    assert_eq!(
        convert_type(LibinputEvent::Keyboard { key: Key::KeyQ, pressed: false }),
        Some(EventType::KeyRelease(Key::KeyQ))
    );
}

#[test]
fn pointer_buttons() {
    assert_eq!(
        convert_type(LibinputEvent::PointerButton { button: BTN_LEFT, pressed: true }),
        Some(EventType::ButtonPress(Button::Left))
    );
    assert_eq!(
        convert_type(LibinputEvent::PointerButton { button: BTN_RIGHT, pressed: false }),
        Some(EventType::ButtonRelease(Button::Right))
    );
    assert_eq!(
        convert_type(LibinputEvent::PointerButton { button: BTN_MIDDLE, pressed: true }),
        Some(EventType::ButtonPress(Button::Middle))
    );
    assert_eq!(convert_type(LibinputEvent::PointerButton { button: 275, pressed: true }), None);
}

#[test]
fn motion_and_other_events() {
    assert_eq!(convert_type(LibinputEvent::PointerMotion), Some(EventType::MouseMove));
    assert_eq!(convert_type(LibinputEvent::Other), None);
}

#[test]
fn wheel_notches_count_up_and_right_as_positive() {
    // libinput counts down as positive: the vertical sign turns.
    assert_eq!(
        convert_type(scroll(None, Some(120))),
        Some(EventType::Wheel { delta_x: 0, delta_y: -1 })
    );
    // Right is positive on both sides: the horizontal sign stays.
    assert_eq!(
        convert_type(scroll(Some(120), None)),
        Some(EventType::Wheel { delta_x: 1, delta_y: 0 })
    );
    assert_eq!(
        convert_type(scroll(Some(-240), None)),
        Some(EventType::Wheel { delta_x: -2, delta_y: 0 })
    );
    // Parts of a notch count for nothing, in either direction.
    assert_eq!(
        convert_type(scroll(Some(119), Some(-359))),
        Some(EventType::Wheel { delta_x: 0, delta_y: 2 })
    );
    assert_eq!(
        convert_type(scroll(Some(i64::MIN), Some(i64::MAX))),
        Some(EventType::Wheel { delta_x: -76861433640456465, delta_y: -76861433640456465 })
    );
}

#[test]
fn named_event_keeps_name_or_falls_back() {
    let e = named_event(EventType::KeyPress(Key::Kp1), None);
    assert_eq!(e.event_type, EventType::KeyPress(Key::End));
    assert_eq!(e.name, None);
    let e = named_event(EventType::KeyRelease(Key::Kp1), Some("1".to_string()));
    assert_eq!(e.event_type, EventType::KeyRelease(Key::Kp1));
    assert_eq!(e.name.as_deref(), Some("1"));
    let e = named_event(EventType::ButtonPress(Button::Left), None);
    assert_eq!(e.event_type, EventType::ButtonPress(Button::Left));
}

#[test]
fn keypad_key_without_text_becomes_navigation_key() {
    let mut keyboard = NumLockOff;
    let event =
        convert(&mut keyboard, LibinputEvent::Keyboard { key: Key::Kp8, pressed: true }).unwrap();
    assert_eq!(event.event_type, EventType::KeyPress(Key::UpArrow));
    assert_eq!(event.name, None);

    let event =
        convert(&mut keyboard, LibinputEvent::Keyboard { key: Key::KeyQ, pressed: true }).unwrap();
    assert_eq!(event.event_type, EventType::KeyPress(Key::KeyQ));
    assert_eq!(event.name.as_deref(), Some("q"));

    assert!(convert(&mut keyboard, LibinputEvent::Other).is_none());
}
