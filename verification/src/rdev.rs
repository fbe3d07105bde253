//! Input device vocabulary: physical keys, mouse buttons and raw input events.

use vstd::prelude::*;

use crate::text::{parse_at_most, parse_at_most_u64};

verus! {

/// Errors that occur when trying to capture OS events.
#[derive(Debug, Clone, Copy, PartialEq, Eq, Structural)]
#[non_exhaustive]
pub enum ListenError {
    /// MacOS
    EventTapError,
    /// MacOS
    LoopSourceError,
    /// Linux
    MissingDisplayError,
    /// Linux
    KeyboardError,
    /// Linux
    RecordContextEnablingError,
    /// Linux
    RecordContextError,
    /// Linux
    XRecordExtensionError,
    /// Windows
    KeyHookError(u32),
    /// Windows
    MouseHookError(u32),
}

/// Key names based on their physical location on the device (QWERTY layout).
/// Option (macOS) and Alt are both `Alt`; Windows, Super and Command are `Meta*`.
#[derive(Debug, Copy, Clone, PartialEq, Eq, Structural, Hash, PartialOrd, Ord)]
pub enum Key {
    /// Alt key on Linux and Windows (option key on macOS)
    Alt,
    AltGr,
    Backspace,
    CapsLock,
    ControlLeft,
    ControlRight,
    Delete,
    DownArrow,
    End,
    Escape,
    F1,
    F10,
    F11,
    F12,
    F13,
    F14,
    F15,
    F16,
    F17,
    F18,
    F19,
    F20,
    F21,
    F22,
    F23,
    F24,
    F2,
    F3,
    F4,
    F5,
    F6,
    F7,
    F8,
    F9,
    Home,
    LeftArrow,
    /// also known as "windows", "super", and "command"
    MetaLeft,
    /// also known as "windows", "super", and "command"
    MetaRight,
    PageDown,
    PageUp,
    Return,
    RightArrow,
    ShiftLeft,
    ShiftRight,
    Space,
    Tab,
    UpArrow,
    PrintScreen,
    ScrollLock,
    Pause,
    NumLock,
    BackQuote,
    Num1,
    Num2,
    Num3,
    Num4,
    Num5,
    Num6,
    Num7,
    Num8,
    Num9,
    Num0,
    Minus,
    Equal,
    KeyQ,
    KeyW,
    KeyE,
    KeyR,
    KeyT,
    KeyY,
    KeyU,
    KeyI,
    KeyO,
    KeyP,
    LeftBracket,
    RightBracket,
    KeyA,
    KeyS,
    KeyD,
    KeyF,
    KeyG,
    KeyH,
    KeyJ,
    KeyK,
    KeyL,
    SemiColon,
    Quote,
    BackSlash,
    IntlBackslash,
    KeyZ,
    KeyX,
    KeyC,
    KeyV,
    KeyB,
    KeyN,
    KeyM,
    Comma,
    Dot,
    Slash,
    Insert,
    KpReturn,
    KpMinus,
    KpPlus,
    KpMultiply,
    KpDivide,
    Kp0,
    Kp1,
    Kp2,
    Kp3,
    Kp4,
    Kp5,
    Kp6,
    Kp7,
    Kp8,
    Kp9,
    KpDelete,
    Function,
    VolumeUp,
    VolumeDown,
    VolumeMute,
    BrightnessUp,
    BrightnessDown,
    PreviousTrack,
    PlayPause,
    PlayCd,
    NextTrack,
    Unknown(u32),
}

/// The eight modifier keys: both Controls, Alt, AltGr, both Shifts and both Metas.
pub open spec fn is_modifier_key(key: Key) -> bool {
    match key {
        Key::ControlLeft | Key::ControlRight | Key::Alt | Key::AltGr | Key::ShiftLeft
        | Key::ShiftRight | Key::MetaLeft | Key::MetaRight => true,
        _ => false,
    }
}

impl Key {
    /// Whether this key is a modifier key.
    pub fn is_modifier(&self) -> (r: bool)
        ensures
            r == is_modifier_key(*self),
    {
        matches!(
            self,
            Key::ControlLeft | Key::ControlRight | Key::Alt | Key::AltGr | Key::ShiftLeft
                | Key::ShiftRight | Key::MetaLeft | Key::MetaRight
        )
    }
}

/// Standard mouse buttons; other buttons are `Unknown` with a device-specific number.
#[derive(Debug, Copy, Clone, PartialEq, Eq, Structural, Hash)]
pub enum Button {
    Left,
    Right,
    Middle,
    Unknown(u8),
}

/// The kinds of input events. Pointer coordinates of a motion are not kept here:
/// nothing in this library reads them.
#[derive(Debug, Copy, Clone, PartialEq, Eq, Structural)]
pub enum EventType {
    /// The key corresponds to a standard QWERTY layout.
    KeyPress(Key),
    KeyRelease(Key),
    /// Mouse Button
    ButtonPress(Button),
    ButtonRelease(Button),
    /// Pointer motion.
    MouseMove,
    /// `delta_y` is vertical and `delta_x` horizontal scroll; positive values are
    /// up or right, negative values down or left.
    Wheel { delta_x: i64, delta_y: i64 },
}

/// One raw input event: its kind and, for keys, the layout-resolved text it produces.
#[derive(Debug, Clone)]
pub struct Event {
    pub name: Option<String>,
    pub event_type: EventType,
}

/// Unicode control characters (general category Cc).
pub open spec fn is_control_char(c: char) -> bool {
    (c as u32) <= 0x1f || (0x7f <= (c as u32) && (c as u32) <= 0x9f)
}

/// Unicode characters with the White_Space property.
pub open spec fn is_whitespace_char(c: char) -> bool {
    let v = c as u32;
    ||| (0x09 <= v && v <= 0x0d)
    ||| v == 0x20
    ||| v == 0x85
    ||| v == 0xa0
    ||| v == 0x1680
    ||| (0x2000 <= v && v <= 0x200a)
    ||| v == 0x2028
    ||| v == 0x2029
    ||| v == 0x202f
    ||| v == 0x205f
    ||| v == 0x3000
}

/// A character that prints visibly: neither a control character nor whitespace.
pub open spec fn is_printable_char(c: char) -> bool {
    !is_control_char(c) && !is_whitespace_char(c)
}

/// Every character of `s` prints visibly.
pub open spec fn is_printable_text(s: Seq<char>) -> bool {
    forall|i: int| 0 <= i < s.len() ==> is_printable_char(#[trigger] s[i])
}

/// Whether `c` prints visibly, as `!c.is_control() && !c.is_whitespace()`.
pub fn is_printable(c: char) -> (r: bool)
    ensures
        r == is_printable_char(c),
{
    let v = c as u32;
    let control = v <= 0x1f || (0x7f <= v && v <= 0x9f);
    let whitespace = (0x09 <= v && v <= 0x0d) || v == 0x20 || v == 0x85 || v == 0xa0 || v
        == 0x1680 || (0x2000 <= v && v <= 0x200a) || v == 0x2028 || v == 0x2029 || v == 0x202f
        || v == 0x205f || v == 0x3000;
    !control && !whitespace
}

impl Event {
    /// The event's text, kept only when it is present and every character of it
    /// prints visibly.
    pub fn into_printable_name(self) -> (r: Option<String>)
        ensures
            r is Some <==> (self.name is Some && is_printable_text(self.name->0@)),
            r is Some ==> r->0 == self.name->0,
    {
        match self.name {
            None => None,
            Some(name) => {
                let n = name.as_str().unicode_len();
                let mut i: usize = 0;
                while i < n
                    invariant
                        n == name@.len(),
                        self.name == Some(name),
                        i <= n,
                        forall|j: int| 0 <= j < i ==> is_printable_char(#[trigger] name@[j]),
                    decreases n - i,
                {
                    let c = name.as_str().get_char(i);
                    if !is_printable(c) {
                        assert(!is_printable_char(name@[i as int]));
                        return None;
                    }
                    i = i + 1;
                }
                Some(name)
            },
        }
    }
}

/// A keyboard layout that turns key events into the text they type.
pub trait KeyboardState {
    fn add(&mut self, event_type: &EventType) -> Option<String>;

    fn reset(&mut self);
}

/// The navigation key that a keypad key stands for when Num Lock is off.
pub open spec fn numpad_navigation_key(key: Key) -> Key {
    match key {
        Key::Kp0 => Key::Insert,
        Key::Kp1 => Key::End,
        Key::Kp2 => Key::DownArrow,
        Key::Kp3 => Key::PageDown,
        Key::Kp4 => Key::LeftArrow,
        Key::Kp6 => Key::RightArrow,
        Key::Kp7 => Key::Home,
        Key::Kp8 => Key::UpArrow,
        Key::Kp9 => Key::PageUp,
        Key::KpDelete => Key::Delete,
        k => k,
    }
}

/// A key press or release of a keypad key as the navigation key that it stands for
/// when Num Lock is off; other keys and other events as they are.
pub open spec fn numpad_fallback(t: EventType) -> EventType {
    match t {
        EventType::KeyPress(k) => EventType::KeyPress(numpad_navigation_key(k)),
        EventType::KeyRelease(k) => EventType::KeyRelease(numpad_navigation_key(k)),
        _ => t,
    }
}

/// Replaces a keypad key in a key press or release by the navigation key that it
/// stands for when Num Lock is off; other keys and other events are left alone.
pub fn handle_numpad_fallback(event_type: &mut EventType)
    ensures
        *final(event_type) == numpad_fallback(*old(event_type)),
{
    let key = match *event_type {
        EventType::KeyPress(k) => k,
        EventType::KeyRelease(k) => k,
        _ => {
            return ;
        },
    };
    let nav_key = match key {
        Key::Kp0 => Key::Insert,
        Key::Kp1 => Key::End,
        Key::Kp2 => Key::DownArrow,
        Key::Kp3 => Key::PageDown,
        Key::Kp4 => Key::LeftArrow,
        Key::Kp6 => Key::RightArrow,
        Key::Kp7 => Key::Home,
        Key::Kp8 => Key::UpArrow,
        Key::Kp9 => Key::PageUp,
        Key::KpDelete => Key::Delete,
        k => k,
    };
    *event_type = match *event_type {
        EventType::KeyPress(_) => EventType::KeyPress(nav_key),
        _ => EventType::KeyRelease(nav_key),
    };
}

/// A set environment variable with a non-empty value.
pub open spec fn is_set_nonempty(var: Option<Seq<char>>) -> bool {
    var is Some && var->0.len() > 0
}

/// The view of an optional string.
pub open spec fn opt_text(s: Option<String>) -> Option<Seq<char>> {
    match s {
        Some(t) => Some(t@),
        None => None,
    }
}

/// Whether the session is a Wayland session, given the values of the
/// `WAYLAND_DISPLAY` and `WAYLAND_SOCKET` environment variables: either is set
/// to a non-empty value.
pub fn is_wayland(wayland_display: Option<String>, wayland_socket: Option<String>) -> (r: bool)
    ensures
        r == (is_set_nonempty(opt_text(wayland_display)) || is_set_nonempty(
            opt_text(wayland_socket),
        )),
{
    let display_set = match &wayland_display {
        Some(v) => !v.as_str().is_empty(),
        None => false,
    };
    if display_set {
        return true;
    }
    match &wayland_socket {
        Some(v) => !v.as_str().is_empty(),
        None => false,
    }
}

/// `s` without its leading whitespace.
pub open spec fn trim_start(s: Seq<char>) -> Seq<char>
    decreases s.len(),
{
    if s.len() > 0 && is_whitespace_char(s[0]) {
        trim_start(s.drop_first())
    } else {
        s
    }
}

/// `s` without its trailing whitespace.
pub open spec fn trim_end(s: Seq<char>) -> Seq<char>
    decreases s.len(),
{
    if s.len() > 0 && is_whitespace_char(s.last()) {
        trim_end(s.drop_last())
    } else {
        s
    }
}

/// `s` without leading and trailing whitespace, as `str::trim` gives it.
pub open spec fn trim(s: Seq<char>) -> Seq<char> {
    trim_end(trim_start(s))
}

/// Whether `c` is whitespace, as `char::is_whitespace`.
fn is_whitespace(c: char) -> (r: bool)
    ensures
        r == is_whitespace_char(c),
{
    let v = c as u32;
    (0x09 <= v && v <= 0x0d) || v == 0x20 || v == 0x85 || v == 0xa0 || v == 0x1680 || (0x2000
        <= v && v <= 0x200a) || v == 0x2028 || v == 0x2029 || v == 0x202f || v == 0x205f || v
        == 0x3000
}

/// The text of `s` without leading and trailing whitespace.
pub fn trimmed(s: &str) -> (r: &str)
    ensures
        r@ == trim(s@),
{
    let n = s.unicode_len();
    let mut start: usize = 0;
    assert(s@.subrange(0, n as int) =~= s@);
    while start < n && is_whitespace(s.get_char(start))
        invariant
            n == s@.len(),
            start <= n,
            trim_start(s@.subrange(start as int, n as int)) == trim_start(s@),
        decreases n - start,
    {
        assert(s@.subrange(start as int, n as int).drop_first() =~= s@.subrange(
            start as int + 1,
            n as int,
        ));
        start = start + 1;
    }
    let ghost front = s@.subrange(start as int, n as int);
    assert(trim_start(front) == front);
    let mut end: usize = n;
    assert(front.subrange(0, (end - start) as int) =~= front);
    while end > start && is_whitespace(s.get_char(end - 1))
        invariant
            n == s@.len(),
            start <= end <= n,
            front == s@.subrange(start as int, n as int),
            trim_end(s@.subrange(start as int, end as int)) == trim_end(front),
        decreases end,
    {
        assert(s@.subrange(start as int, end as int).drop_last() =~= s@.subrange(
            start as int,
            end as int - 1,
        ));
        end = end - 1;
    }
    s.substring_char(start, end)
}

/// Whether a directory entry named `entry_name` is the LED called `name`: the
/// entry's name ends with `name`.
pub fn led_name_matches(entry_name: &str, name: &str) -> (r: bool)
    ensures
        r == (name@.len() <= entry_name@.len() && entry_name@.subrange(
            entry_name@.len() - name@.len(),
            entry_name@.len() as int,
        ) == name@),
{
    let n = entry_name.unicode_len();
    let m = name.unicode_len();
    if m > n {
        return false;
    }
    let off = n - m;
    let mut i: usize = 0;
    while i < m
        invariant
            n == entry_name@.len(),
            m == name@.len(),
            off == n - m,
            i <= m,
            forall|j: int| 0 <= j < i ==> entry_name@[off + j] == name@[j],
        decreases m - i,
    {
        if entry_name.get_char(off + i) != name.get_char(i) {
            assert(entry_name@.subrange(off as int, n as int)[i as int] != name@[i as int]);
            return false;
        }
        i = i + 1;
    }
    assert(entry_name@.subrange(off as int, n as int) =~= name@);
    true
}

/// Whether the content of an LED brightness file says the LED is on: after
/// trimming whitespace it is an integer greater than zero that fits in 32 bits
/// (an integer with a minus sign is never greater than zero).
pub fn brightness_is_on(content: &str) -> (r: bool)
    ensures
        r == (parse_at_most(trim(content@), i32::MAX as nat) matches Some(v) && v > 0),
{
    let t = trimmed(content);
    match parse_at_most_u64(t, i32::MAX as u64) {
        Some(v) => v > 0,
        None => false,
    }
}

/// X11 event type codes.
pub const X11_KEY_PRESS: i32 = 2;
pub const X11_KEY_RELEASE: i32 = 3;
pub const X11_BUTTON_PRESS: i32 = 4;
pub const X11_BUTTON_RELEASE: i32 = 5;
pub const X11_MOTION_NOTIFY: i32 = 6;

/// The event that an X11 record of type `type_` with detail `code` stands for.
/// `key` is the key that the keycode `code` names. Buttons 1 to 3 are left, middle
/// and right; buttons 4 to 7 are the scroll wheel (up, down, left, right), whose
/// releases are not events.
pub open spec fn x11_event(code: u8, type_: i32, key: Key) -> Option<EventType> {
    if type_ == X11_KEY_PRESS {
        Some(EventType::KeyPress(key))
    } else if type_ == X11_KEY_RELEASE {
        Some(EventType::KeyRelease(key))
    } else if type_ == X11_BUTTON_PRESS {
        if code == 1 {
            Some(EventType::ButtonPress(Button::Left))
        } else if code == 2 {
            Some(EventType::ButtonPress(Button::Middle))
        } else if code == 3 {
            Some(EventType::ButtonPress(Button::Right))
        } else if code == 4 {
            Some(EventType::Wheel { delta_x: 0, delta_y: 1 })
        } else if code == 5 {
            Some(EventType::Wheel { delta_x: 0, delta_y: -1i64 })
        } else if code == 6 {
            Some(EventType::Wheel { delta_x: -1i64, delta_y: 0 })
        } else if code == 7 {
            Some(EventType::Wheel { delta_x: 1, delta_y: 0 })
        } else {
            Some(EventType::ButtonPress(Button::Unknown(code)))
        }
    } else if type_ == X11_BUTTON_RELEASE {
        if code == 1 {
            Some(EventType::ButtonRelease(Button::Left))
        } else if code == 2 {
            Some(EventType::ButtonRelease(Button::Middle))
        } else if code == 3 {
            Some(EventType::ButtonRelease(Button::Right))
        } else if code == 4 || code == 5 {
            None
        } else {
            Some(EventType::ButtonRelease(Button::Unknown(code)))
        }
    } else if type_ == X11_MOTION_NOTIFY {
        Some(EventType::MouseMove)
    } else {
        None
    }
}

/// Converts an X11 record into an event; `key` is the key that the keycode
/// `code` names.
pub fn convert_event(code: u8, type_: i32, key: Key) -> (r: Option<EventType>)
    ensures
        r == x11_event(code, type_, key),
{
    if type_ == X11_KEY_PRESS {
        Some(EventType::KeyPress(key))
    } else if type_ == X11_KEY_RELEASE {
        Some(EventType::KeyRelease(key))
    } else if type_ == X11_BUTTON_PRESS {
        match code {
            1 => Some(EventType::ButtonPress(Button::Left)),
            2 => Some(EventType::ButtonPress(Button::Middle)),
            3 => Some(EventType::ButtonPress(Button::Right)),
            4 => Some(EventType::Wheel { delta_y: 1, delta_x: 0 }),
            5 => Some(EventType::Wheel { delta_y: -1, delta_x: 0 }),
            6 => Some(EventType::Wheel { delta_y: 0, delta_x: -1 }),
            7 => Some(EventType::Wheel { delta_y: 0, delta_x: 1 }),
            code => Some(EventType::ButtonPress(Button::Unknown(code))),
        }
    } else if type_ == X11_BUTTON_RELEASE {
        match code {
            1 => Some(EventType::ButtonRelease(Button::Left)),
            2 => Some(EventType::ButtonRelease(Button::Middle)),
            3 => Some(EventType::ButtonRelease(Button::Right)),
            4 | 5 => None,
            _ => Some(EventType::ButtonRelease(Button::Unknown(code))),
        }
    } else if type_ == X11_MOTION_NOTIFY {
        Some(EventType::MouseMove)
    } else {
        None
    }
}

/// Converts an X11 record into an event whose text `keyboard` resolves; `key` is
/// the key that the keycode names. There is no event when the record stands for
/// none (see `x11_event`, read with the low byte of `code`) or when there is no
/// keyboard.
pub fn convert<K: KeyboardState>(keyboard: &mut Option<K>, code: u32, type_: i32, key: Key) -> (r:
    Option<Event>)
    ensures
        match x11_event(code as u8, type_, key) {
            None => r is None,
            Some(t) => if (*old(keyboard)) is Some {
                r is Some && r->0.event_type == t
            } else {
                r is None
            },
        },
{
    let event_type = match convert_event(code as u8, type_, key) {
        Some(t) => t,
        None => {
            return None;
        },
    };
    match keyboard {
        Some(kb) => {
            let name = kb.add(&event_type);
            Some(Event { name, event_type })
        },
        None => None,
    }
}

} // verus!
