//! Events of the Wayland input backend: libinput events read from the input
//! devices, turned into input events.

use vstd::prelude::*;

use crate::rdev::{numpad_fallback, Button, Event, EventType, Key, KeyboardState};

verus! {

/// Linux input code of the left mouse button.
pub const BTN_LEFT: u32 = 272;

/// Linux input code of the right mouse button.
pub const BTN_RIGHT: u32 = 273;

/// Linux input code of the middle mouse button.
pub const BTN_MIDDLE: u32 = 274;

/// Scroll units of one wheel notch.
pub const V120_PER_NOTCH: i64 = 120;

/// A libinput event, as far as the conversion reads it.
#[derive(Debug, Clone, Copy, PartialEq, Eq, Structural)]
pub enum LibinputEvent {
    /// A keyboard key went down or up; `key` is the key that its keycode names.
    Keyboard { key: Key, pressed: bool },
    /// A pointer button went down or up; `button` is its Linux input code.
    PointerButton { button: u32, pressed: bool },
    /// The pointer moved, relatively or to an absolute position.
    PointerMotion,
    /// The scroll wheel turned: the scroll on each axis that has one, in v120 units
    /// (`V120_PER_NOTCH` for one notch), positive for down and right.
    PointerScrollWheel { horizontal_v120: Option<i64>, vertical_v120: Option<i64> },
    /// Any other event (touch, gestures, devices coming and going).
    Other,
}

/// The whole notches in a scroll of `v120` units, in its own direction: a part
/// of a notch counts for nothing.
pub open spec fn scroll_notches(v120: i64) -> int {
    if v120 >= 0 {
        v120 as int / V120_PER_NOTCH as int
    } else {
        -((-v120) / (V120_PER_NOTCH as int))
    }
}

/// Horizontal scroll: libinput and input events both count right as positive.
pub open spec fn horizontal_delta(v120: Option<i64>) -> int {
    match v120 {
        Some(v) => scroll_notches(v),
        None => 0,
    }
}

/// Vertical scroll: libinput counts down as positive, input events count up as
/// positive, so the sign turns.
pub open spec fn vertical_delta(v120: Option<i64>) -> int {
    match v120 {
        Some(v) => -scroll_notches(v),
        None => 0,
    }
}

/// The mouse button of a Linux input button code, for the left, right and middle button.
pub open spec fn pointer_button(code: u32) -> Option<Button> {
    if code == BTN_LEFT {
        Some(Button::Left)
    } else if code == BTN_RIGHT {
        Some(Button::Right)
    } else if code == BTN_MIDDLE {
        Some(Button::Middle)
    } else {
        None
    }
}

/// The input event that a libinput event stands for: key presses and releases,
/// presses and releases of the three main buttons, motion and wheel scrolls.
pub open spec fn libinput_event_type(e: LibinputEvent) -> Option<EventType> {
    match e {
        LibinputEvent::Keyboard { key, pressed } => if pressed {
            Some(EventType::KeyPress(key))
        } else {
            Some(EventType::KeyRelease(key))
        },
        LibinputEvent::PointerButton { button, pressed } => match pointer_button(button) {
            Some(b) => if pressed {
                Some(EventType::ButtonPress(b))
            } else {
                Some(EventType::ButtonRelease(b))
            },
            None => None,
        },
        LibinputEvent::PointerMotion => Some(EventType::MouseMove),
        LibinputEvent::PointerScrollWheel { horizontal_v120, vertical_v120 } => Some(
            EventType::Wheel {
                delta_x: horizontal_delta(horizontal_v120) as i64,
                delta_y: vertical_delta(vertical_v120) as i64,
            },
        ),
        LibinputEvent::Other => None,
    }
}

/// The whole notches of a scroll of `v120` units, in its own direction.
fn notches(v120: i64) -> (r: i64)
    ensures
        r == scroll_notches(v120),
{
    if v120 >= 0 {
        v120 / V120_PER_NOTCH
    } else {
        // -(v120 + 1) cannot overflow, unlike -v120.
        let magnitude: u64 = (-(v120 + 1)) as u64 + 1;
        assert(magnitude == -v120);
        -((magnitude / 120) as i64)
    }
}

/// The horizontal scroll of a wheel event.
fn horizontal(v120: Option<i64>) -> (r: i64)
    ensures
        r == horizontal_delta(v120),
{
    match v120 {
        Some(v) => notches(v),
        None => 0,
    }
}

/// The vertical scroll of a wheel event.
fn vertical(v120: Option<i64>) -> (r: i64)
    ensures
        r == vertical_delta(v120),
{
    match v120 {
        Some(v) => -notches(v),
        None => 0,
    }
}

/// The input event that a libinput event stands for, if any.
pub fn convert_type(libevent: LibinputEvent) -> (r: Option<EventType>)
    ensures
        r == libinput_event_type(libevent),
{
    match libevent {
        LibinputEvent::Keyboard { key, pressed } => {
            if pressed {
                Some(EventType::KeyPress(key))
            } else {
                Some(EventType::KeyRelease(key))
            }
        },
        LibinputEvent::PointerButton { button, pressed } => {
            let b = if button == BTN_LEFT {
                Button::Left
            } else if button == BTN_RIGHT {
                Button::Right
            } else if button == BTN_MIDDLE {
                Button::Middle
            } else {
                return None;
            };
            if pressed {
                Some(EventType::ButtonPress(b))
            } else {
                Some(EventType::ButtonRelease(b))
            }
        },
        LibinputEvent::PointerMotion => Some(EventType::MouseMove),
        LibinputEvent::PointerScrollWheel { horizontal_v120, vertical_v120 } => {
            let delta_x = horizontal(horizontal_v120);
            let delta_y = vertical(vertical_v120);
            Some(EventType::Wheel { delta_x, delta_y })
        },
        LibinputEvent::Other => None,
    }
}

/// The event of type `event_type` with the text `name` that the keyboard resolved
/// for it. A key that types no text is taken as its navigation key when it is a
/// keypad key (Num Lock is off then).
pub fn named_event(event_type: EventType, name: Option<String>) -> (r: Event)
    ensures
        r.name == name,
        r.event_type == if name is None {
            numpad_fallback(event_type)
        } else {
            event_type
        },
{
    let mut event_type = event_type;
    if name.is_none() {
        crate::rdev::handle_numpad_fallback(&mut event_type);
    }
    Event { name, event_type }
}

/// Turns a libinput event into an input event with the text that `keyboard`
/// resolves for it (see `named_event`).
pub fn convert<K: KeyboardState>(keyboard: &mut K, libevent: LibinputEvent) -> (r: Option<Event>)
    ensures
        match libinput_event_type(libevent) {
            None => r is None,
            Some(t) => r is Some && (r->0.name is Some ==> r->0.event_type == t) && (
            r->0.name is None ==> r->0.event_type == numpad_fallback(t)),
        },
{
    let event_type = match convert_type(libevent) {
        Some(t) => t,
        None => {
            return None;
        },
    };
    let name = keyboard.add(&event_type);
    Some(named_event(event_type, name))
}

} // verus!
