//! Keystroke grouping: how key presses become rows of bubbles that expire.
//!
//! Time is given to the state machine as a millisecond timestamp of a monotonic clock.

use std::collections::VecDeque;

use vstd::prelude::*;

use crate::display::{
    display_rows, history_row, labels_of_parts, repeat_marker_text, rows_view, DisplayRow,
    DisplayRowView,
};
use crate::icons::Glyph;
use crate::rdev::Key;
use crate::text::{decimal, decimal_string};

verus! {

/// Milliseconds without a keystroke after which the active typing row is finalized.
pub const INACTIVITY_TIMEOUT_MS: u64 = 1000;

/// Milliseconds after its last update at which a finalized row expires.
pub const BUBBLE_TTL_MS: u64 = 5000;

/// Characters of active text at which typing starts a new row.
pub const MAX_ACTIVE_TEXT_LEN: usize = 24;

/// Which modifier keys are held.
#[derive(Debug, Clone, Copy, PartialEq, Eq, Structural)]
pub struct Modifiers {
    pub control: bool,
    pub alt: bool,
    pub shift: bool,
    pub meta: bool,
}

impl Default for Modifiers {
    fn default() -> (r: Self)
        ensures
            r == (Modifiers { control: false, alt: false, shift: false, meta: false }),
    {
        Modifiers { control: false, alt: false, shift: false, meta: false }
    }
}

/// No modifier key is held.
pub open spec fn no_modifiers() -> Modifiers {
    Modifiers { control: false, alt: false, shift: false, meta: false }
}

/// Some modifier is held.
pub open spec fn any_modifier(m: Modifiers) -> bool {
    m.control || m.alt || m.shift || m.meta
}

/// A command-style modifier (Control, Alt or Meta) is held.
pub open spec fn shortcut_modifier(m: Modifiers) -> bool {
    m.control || m.alt || m.meta
}

impl Modifiers {
    /// Whether any modifier is held.
    pub fn any(&self) -> (r: bool)
        ensures
            r == any_modifier(*self),
    {
        self.control || self.alt || self.shift || self.meta
    }

    /// Returns true if any shortcut-like modifier is active.
    pub fn enables_shortcut(&self) -> (r: bool)
        ensures
            r == shortcut_modifier(*self),
    {
        self.control || self.alt || self.meta
    }
}

/// What a key shows as.
#[derive(Debug, Clone, Copy, PartialEq, Eq, Structural)]
pub enum DisplayKey {
    Char(char),
    Backspace,
    Delete,
    Escape,
    Enter,
    Tab,
    Space,
    ArrowUp,
    ArrowDown,
    ArrowLeft,
    ArrowRight,
    Home,
    End,
    PageUp,
    PageDown,
    Insert,
    CapsLock,
    PrintScreen,
    ScrollLock,
    Pause,
    NumLock,
    Function,
    VolumeUp,
    VolumeDown,
    VolumeMute,
    BrightnessUp,
    BrightnessDown,
    PreviousTrack,
    PlayPause,
    PlayCd,
    NextTrack,
    F(u8),
    Unknown,
}

/// Space, Enter and Tab end a typed word.
pub open spec fn is_delimiter_key(key: DisplayKey) -> bool {
    key is Space || key is Enter || key is Tab
}

/// Every key that is not a character.
pub open spec fn is_special_key(key: DisplayKey) -> bool {
    !(key is Char)
}

impl DisplayKey {
    fn is_delimiter(&self) -> (r: bool)
        ensures
            r == is_delimiter_key(*self),
    {
        matches!(self, DisplayKey::Space | DisplayKey::Enter | DisplayKey::Tab)
    }

    fn is_special(&self) -> (r: bool)
        ensures
            r == is_special_key(*self),
    {
        !matches!(self, DisplayKey::Char(_))
    }
}

/// How each physical key shows: letters as upper-case characters, digits and
/// symbols as their unshifted character, keypad keys as the key they duplicate,
/// and modifier or unidentified keys as `Unknown`.
pub open spec fn display_key_of(key: Key) -> DisplayKey {
    match key {
        Key::Backspace => DisplayKey::Backspace,
        Key::CapsLock => DisplayKey::CapsLock,
        Key::Delete => DisplayKey::Delete,
        Key::DownArrow => DisplayKey::ArrowDown,
        Key::End => DisplayKey::End,
        Key::Escape => DisplayKey::Escape,
        Key::F1 => DisplayKey::F(1),
        Key::F2 => DisplayKey::F(2),
        Key::F3 => DisplayKey::F(3),
        Key::F4 => DisplayKey::F(4),
        Key::F5 => DisplayKey::F(5),
        Key::F6 => DisplayKey::F(6),
        Key::F7 => DisplayKey::F(7),
        Key::F8 => DisplayKey::F(8),
        Key::F9 => DisplayKey::F(9),
        Key::F10 => DisplayKey::F(10),
        Key::F11 => DisplayKey::F(11),
        Key::F12 => DisplayKey::F(12),
        Key::F13 => DisplayKey::F(13),
        Key::F14 => DisplayKey::F(14),
        Key::F15 => DisplayKey::F(15),
        Key::F16 => DisplayKey::F(16),
        Key::F17 => DisplayKey::F(17),
        Key::F18 => DisplayKey::F(18),
        Key::F19 => DisplayKey::F(19),
        Key::F20 => DisplayKey::F(20),
        Key::F21 => DisplayKey::F(21),
        Key::F22 => DisplayKey::F(22),
        Key::F23 => DisplayKey::F(23),
        Key::F24 => DisplayKey::F(24),
        Key::Home => DisplayKey::Home,
        Key::LeftArrow => DisplayKey::ArrowLeft,
        Key::PageDown => DisplayKey::PageDown,
        Key::PageUp => DisplayKey::PageUp,
        Key::Return | Key::KpReturn => DisplayKey::Enter,
        Key::RightArrow => DisplayKey::ArrowRight,
        Key::Space => DisplayKey::Space,
        Key::Tab => DisplayKey::Tab,
        Key::UpArrow => DisplayKey::ArrowUp,
        Key::PrintScreen => DisplayKey::PrintScreen,
        Key::ScrollLock => DisplayKey::ScrollLock,
        Key::Pause => DisplayKey::Pause,
        Key::NumLock => DisplayKey::NumLock,
        Key::BackQuote => DisplayKey::Char('`'),
        Key::Num1 | Key::Kp1 => DisplayKey::Char('1'),
        Key::Num2 | Key::Kp2 => DisplayKey::Char('2'),
        Key::Num3 | Key::Kp3 => DisplayKey::Char('3'),
        Key::Num4 | Key::Kp4 => DisplayKey::Char('4'),
        Key::Num5 | Key::Kp5 => DisplayKey::Char('5'),
        Key::Num6 | Key::Kp6 => DisplayKey::Char('6'),
        Key::Num7 | Key::Kp7 => DisplayKey::Char('7'),
        Key::Num8 | Key::Kp8 => DisplayKey::Char('8'),
        Key::Num9 | Key::Kp9 => DisplayKey::Char('9'),
        Key::Num0 | Key::Kp0 => DisplayKey::Char('0'),
        Key::Minus | Key::KpMinus => DisplayKey::Char('-'),
        Key::Equal => DisplayKey::Char('='),
        Key::KeyQ => DisplayKey::Char('Q'),
        Key::KeyW => DisplayKey::Char('W'),
        Key::KeyE => DisplayKey::Char('E'),
        Key::KeyR => DisplayKey::Char('R'),
        Key::KeyT => DisplayKey::Char('T'),
        Key::KeyY => DisplayKey::Char('Y'),
        Key::KeyU => DisplayKey::Char('U'),
        Key::KeyI => DisplayKey::Char('I'),
        Key::KeyO => DisplayKey::Char('O'),
        Key::KeyP => DisplayKey::Char('P'),
        Key::LeftBracket => DisplayKey::Char('['),
        Key::RightBracket => DisplayKey::Char(']'),
        Key::KeyA => DisplayKey::Char('A'),
        Key::KeyS => DisplayKey::Char('S'),
        Key::KeyD => DisplayKey::Char('D'),
        Key::KeyF => DisplayKey::Char('F'),
        Key::KeyG => DisplayKey::Char('G'),
        Key::KeyH => DisplayKey::Char('H'),
        Key::KeyJ => DisplayKey::Char('J'),
        Key::KeyK => DisplayKey::Char('K'),
        Key::KeyL => DisplayKey::Char('L'),
        Key::SemiColon => DisplayKey::Char(';'),
        Key::Quote => DisplayKey::Char('\''),
        Key::BackSlash | Key::IntlBackslash => DisplayKey::Char('\\'),
        Key::KeyZ => DisplayKey::Char('Z'),
        Key::KeyX => DisplayKey::Char('X'),
        Key::KeyC => DisplayKey::Char('C'),
        Key::KeyV => DisplayKey::Char('V'),
        Key::KeyB => DisplayKey::Char('B'),
        Key::KeyN => DisplayKey::Char('N'),
        Key::KeyM => DisplayKey::Char('M'),
        Key::Comma => DisplayKey::Char(','),
        Key::Dot | Key::KpDelete => DisplayKey::Char('.'),
        Key::Slash | Key::KpDivide => DisplayKey::Char('/'),
        Key::Insert => DisplayKey::Insert,
        Key::KpPlus => DisplayKey::Char('+'),
        Key::KpMultiply => DisplayKey::Char('*'),
        Key::Function => DisplayKey::Function,
        Key::VolumeUp => DisplayKey::VolumeUp,
        Key::VolumeDown => DisplayKey::VolumeDown,
        Key::VolumeMute => DisplayKey::VolumeMute,
        Key::BrightnessUp => DisplayKey::BrightnessUp,
        Key::BrightnessDown => DisplayKey::BrightnessDown,
        Key::PreviousTrack => DisplayKey::PreviousTrack,
        Key::PlayPause => DisplayKey::PlayPause,
        Key::PlayCd => DisplayKey::PlayCd,
        Key::NextTrack => DisplayKey::NextTrack,
        Key::Alt | Key::AltGr | Key::ControlLeft | Key::ControlRight | Key::MetaLeft
        | Key::MetaRight | Key::ShiftLeft | Key::ShiftRight | Key::Unknown(_) => DisplayKey::Unknown,
    }
}

impl From<Key> for DisplayKey {
    fn from(key: Key) -> (r: Self) {
        match key {
            Key::Backspace => DisplayKey::Backspace,
            Key::CapsLock => DisplayKey::CapsLock,
            Key::Delete => DisplayKey::Delete,
            Key::DownArrow => DisplayKey::ArrowDown,
            Key::End => DisplayKey::End,
            Key::Escape => DisplayKey::Escape,
            Key::F1 => DisplayKey::F(1),
            Key::F2 => DisplayKey::F(2),
            Key::F3 => DisplayKey::F(3),
            Key::F4 => DisplayKey::F(4),
            Key::F5 => DisplayKey::F(5),
            Key::F6 => DisplayKey::F(6),
            Key::F7 => DisplayKey::F(7),
            Key::F8 => DisplayKey::F(8),
            Key::F9 => DisplayKey::F(9),
            Key::F10 => DisplayKey::F(10),
            Key::F11 => DisplayKey::F(11),
            Key::F12 => DisplayKey::F(12),
            Key::F13 => DisplayKey::F(13),
            Key::F14 => DisplayKey::F(14),
            Key::F15 => DisplayKey::F(15),
            Key::F16 => DisplayKey::F(16),
            Key::F17 => DisplayKey::F(17),
            Key::F18 => DisplayKey::F(18),
            Key::F19 => DisplayKey::F(19),
            Key::F20 => DisplayKey::F(20),
            Key::F21 => DisplayKey::F(21),
            Key::F22 => DisplayKey::F(22),
            Key::F23 => DisplayKey::F(23),
            Key::F24 => DisplayKey::F(24),
            Key::Home => DisplayKey::Home,
            Key::LeftArrow => DisplayKey::ArrowLeft,
            Key::PageDown => DisplayKey::PageDown,
            Key::PageUp => DisplayKey::PageUp,
            Key::Return | Key::KpReturn => DisplayKey::Enter,
            Key::RightArrow => DisplayKey::ArrowRight,
            Key::Space => DisplayKey::Space,
            Key::Tab => DisplayKey::Tab,
            Key::UpArrow => DisplayKey::ArrowUp,
            Key::PrintScreen => DisplayKey::PrintScreen,
            Key::ScrollLock => DisplayKey::ScrollLock,
            Key::Pause => DisplayKey::Pause,
            Key::NumLock => DisplayKey::NumLock,
            Key::BackQuote => DisplayKey::Char('`'),
            Key::Num1 | Key::Kp1 => DisplayKey::Char('1'),
            Key::Num2 | Key::Kp2 => DisplayKey::Char('2'),
            Key::Num3 | Key::Kp3 => DisplayKey::Char('3'),
            Key::Num4 | Key::Kp4 => DisplayKey::Char('4'),
            Key::Num5 | Key::Kp5 => DisplayKey::Char('5'),
            Key::Num6 | Key::Kp6 => DisplayKey::Char('6'),
            Key::Num7 | Key::Kp7 => DisplayKey::Char('7'),
            Key::Num8 | Key::Kp8 => DisplayKey::Char('8'),
            Key::Num9 | Key::Kp9 => DisplayKey::Char('9'),
            Key::Num0 | Key::Kp0 => DisplayKey::Char('0'),
            Key::Minus | Key::KpMinus => DisplayKey::Char('-'),
            Key::Equal => DisplayKey::Char('='),
            Key::KeyQ => DisplayKey::Char('Q'),
            Key::KeyW => DisplayKey::Char('W'),
            Key::KeyE => DisplayKey::Char('E'),
            Key::KeyR => DisplayKey::Char('R'),
            Key::KeyT => DisplayKey::Char('T'),
            Key::KeyY => DisplayKey::Char('Y'),
            Key::KeyU => DisplayKey::Char('U'),
            Key::KeyI => DisplayKey::Char('I'),
            Key::KeyO => DisplayKey::Char('O'),
            Key::KeyP => DisplayKey::Char('P'),
            Key::LeftBracket => DisplayKey::Char('['),
            Key::RightBracket => DisplayKey::Char(']'),
            Key::KeyA => DisplayKey::Char('A'),
            Key::KeyS => DisplayKey::Char('S'),
            Key::KeyD => DisplayKey::Char('D'),
            Key::KeyF => DisplayKey::Char('F'),
            Key::KeyG => DisplayKey::Char('G'),
            Key::KeyH => DisplayKey::Char('H'),
            Key::KeyJ => DisplayKey::Char('J'),
            Key::KeyK => DisplayKey::Char('K'),
            Key::KeyL => DisplayKey::Char('L'),
            Key::SemiColon => DisplayKey::Char(';'),
            Key::Quote => DisplayKey::Char('\''),
            Key::BackSlash | Key::IntlBackslash => DisplayKey::Char('\\'),
            Key::KeyZ => DisplayKey::Char('Z'),
            Key::KeyX => DisplayKey::Char('X'),
            Key::KeyC => DisplayKey::Char('C'),
            Key::KeyV => DisplayKey::Char('V'),
            Key::KeyB => DisplayKey::Char('B'),
            Key::KeyN => DisplayKey::Char('N'),
            Key::KeyM => DisplayKey::Char('M'),
            Key::Comma => DisplayKey::Char(','),
            Key::Dot | Key::KpDelete => DisplayKey::Char('.'),
            Key::Slash | Key::KpDivide => DisplayKey::Char('/'),
            Key::Insert => DisplayKey::Insert,
            Key::KpPlus => DisplayKey::Char('+'),
            Key::KpMultiply => DisplayKey::Char('*'),
            Key::Function => DisplayKey::Function,
            Key::VolumeUp => DisplayKey::VolumeUp,
            Key::VolumeDown => DisplayKey::VolumeDown,
            Key::VolumeMute => DisplayKey::VolumeMute,
            Key::BrightnessUp => DisplayKey::BrightnessUp,
            Key::BrightnessDown => DisplayKey::BrightnessDown,
            Key::PreviousTrack => DisplayKey::PreviousTrack,
            Key::PlayPause => DisplayKey::PlayPause,
            Key::PlayCd => DisplayKey::PlayCd,
            Key::NextTrack => DisplayKey::NextTrack,
            Key::Alt | Key::AltGr | Key::ControlLeft | Key::ControlRight | Key::MetaLeft
            | Key::MetaRight | Key::ShiftLeft | Key::ShiftRight | Key::Unknown(_) => DisplayKey::Unknown,
        }
    }
}

impl vstd::std_specs::convert::FromSpecImpl<Key> for DisplayKey {
    open spec fn obeys_from_spec() -> bool {
        true
    }

    open spec fn from_spec(key: Key) -> DisplayKey {
        display_key_of(key)
    }
}

/// A visual label rendered for a keystroke.
#[derive(Debug)]
pub enum KeyLabel {
    Text(String),
    Char(char),
    Icon(Glyph),
}

/// The content of a label.
pub enum KeyLabelView {
    Text(Seq<char>),
    Char(char),
    Icon(Glyph),
}

impl View for KeyLabel {
    type V = KeyLabelView;

    open spec fn view(&self) -> KeyLabelView {
        match self {
            KeyLabel::Text(t) => KeyLabelView::Text(t@),
            KeyLabel::Char(c) => KeyLabelView::Char(*c),
            KeyLabel::Icon(g) => KeyLabelView::Icon(*g),
        }
    }
}

/// The label each key is drawn with.
pub open spec fn label_of(key: DisplayKey) -> KeyLabelView {
    match key {
        DisplayKey::Char(ch) => KeyLabelView::Char(ch),
        DisplayKey::Backspace => KeyLabelView::Icon(Glyph::Delete),
        DisplayKey::Delete => KeyLabelView::Icon(Glyph::DeleteRev),
        DisplayKey::Escape => KeyLabelView::Icon(Glyph::CircleArrowOutUpLeft),
        DisplayKey::Enter => KeyLabelView::Icon(Glyph::CornerDownLeft),
        DisplayKey::Tab => KeyLabelView::Icon(Glyph::ArrowRightToLine),
        DisplayKey::Space => KeyLabelView::Icon(Glyph::SpaceNarrow),
        DisplayKey::ArrowUp => KeyLabelView::Icon(Glyph::ArrowUp),
        DisplayKey::ArrowDown => KeyLabelView::Icon(Glyph::ArrowDown),
        DisplayKey::ArrowLeft => KeyLabelView::Icon(Glyph::ArrowLeft),
        DisplayKey::ArrowRight => KeyLabelView::Icon(Glyph::ArrowRight),
        DisplayKey::Home => KeyLabelView::Icon(Glyph::ArrowUpLeft),
        DisplayKey::End => KeyLabelView::Icon(Glyph::ArrowDownRight),
        DisplayKey::PageUp => KeyLabelView::Icon(Glyph::ArrowUpToLine),
        DisplayKey::PageDown => KeyLabelView::Icon(Glyph::ArrowDownToLine),
        DisplayKey::Insert => KeyLabelView::Icon(Glyph::Insert),
        DisplayKey::CapsLock => KeyLabelView::Icon(Glyph::ArrowBigUpDash),
        DisplayKey::PrintScreen => KeyLabelView::Text(seq!['P', 'r', 't', 'S', 'c']),
        DisplayKey::ScrollLock => KeyLabelView::Text(seq!['S', 'c', 'r', 'L', 'k']),
        DisplayKey::Pause => KeyLabelView::Icon(Glyph::Pause),
        DisplayKey::NumLock => KeyLabelView::Text(seq!['N', 'u', 'm', 'L', 'k']),
        DisplayKey::Function => KeyLabelView::Text(seq!['F', 'n']),
        DisplayKey::VolumeUp => KeyLabelView::Icon(Glyph::Volume2),
        DisplayKey::VolumeDown => KeyLabelView::Icon(Glyph::Volume1),
        DisplayKey::VolumeMute => KeyLabelView::Icon(Glyph::VolumeOff),
        DisplayKey::BrightnessUp => KeyLabelView::Icon(Glyph::Sun),
        DisplayKey::BrightnessDown => KeyLabelView::Icon(Glyph::SunDim),
        DisplayKey::PreviousTrack => KeyLabelView::Icon(Glyph::SkipBack),
        DisplayKey::PlayPause => KeyLabelView::Icon(Glyph::PlayPause),
        DisplayKey::PlayCd => KeyLabelView::Icon(Glyph::Disc3),
        DisplayKey::NextTrack => KeyLabelView::Icon(Glyph::SkipForward),
        DisplayKey::F(x) => KeyLabelView::Text(seq!['F'] + decimal(x as nat)),
        DisplayKey::Unknown => KeyLabelView::Text(
            seq!['U', 'n', 'k', 'n', 'o', 'w', 'n'],
        ),
    }
}

impl KeyLabel {
    /// The label that a key is drawn with.
    pub fn from_key(key: DisplayKey) -> (r: KeyLabel)
        ensures
            r@ == label_of(key),
    {
        match key {
            DisplayKey::Char(ch) => KeyLabel::Char(ch),
            DisplayKey::Backspace => KeyLabel::Icon(Glyph::Delete),
            DisplayKey::Delete => KeyLabel::Icon(Glyph::DeleteRev),
            DisplayKey::Escape => KeyLabel::Icon(Glyph::CircleArrowOutUpLeft),
            DisplayKey::Enter => KeyLabel::Icon(Glyph::CornerDownLeft),
            DisplayKey::Tab => KeyLabel::Icon(Glyph::ArrowRightToLine),
            DisplayKey::Space => KeyLabel::Icon(Glyph::SpaceNarrow),
            DisplayKey::ArrowUp => KeyLabel::Icon(Glyph::ArrowUp),
            DisplayKey::ArrowDown => KeyLabel::Icon(Glyph::ArrowDown),
            DisplayKey::ArrowLeft => KeyLabel::Icon(Glyph::ArrowLeft),
            DisplayKey::ArrowRight => KeyLabel::Icon(Glyph::ArrowRight),
            DisplayKey::Home => KeyLabel::Icon(Glyph::ArrowUpLeft),
            DisplayKey::End => KeyLabel::Icon(Glyph::ArrowDownRight),
            DisplayKey::PageUp => KeyLabel::Icon(Glyph::ArrowUpToLine),
            DisplayKey::PageDown => KeyLabel::Icon(Glyph::ArrowDownToLine),
            DisplayKey::Insert => KeyLabel::Icon(Glyph::Insert),
            DisplayKey::CapsLock => KeyLabel::Icon(Glyph::ArrowBigUpDash),
            DisplayKey::PrintScreen => {
                proof {
                    reveal_strlit("PrtSc");
                }
                let text = String::from_str("PrtSc");
                assert(text@ =~= seq!['P', 'r', 't', 'S', 'c']);
                KeyLabel::Text(text)
            },
            DisplayKey::ScrollLock => {
                proof {
                    reveal_strlit("ScrLk");
                }
                let text = String::from_str("ScrLk");
                assert(text@ =~= seq!['S', 'c', 'r', 'L', 'k']);
                KeyLabel::Text(text)
            },
            DisplayKey::Pause => KeyLabel::Icon(Glyph::Pause),
            DisplayKey::NumLock => {
                proof {
                    reveal_strlit("NumLk");
                }
                let text = String::from_str("NumLk");
                assert(text@ =~= seq!['N', 'u', 'm', 'L', 'k']);
                KeyLabel::Text(text)
            },
            DisplayKey::Function => {
                proof {
                    reveal_strlit("Fn");
                }
                let text = String::from_str("Fn");
                assert(text@ =~= seq!['F', 'n']);
                KeyLabel::Text(text)
            },
            DisplayKey::VolumeUp => KeyLabel::Icon(Glyph::Volume2),
            DisplayKey::VolumeDown => KeyLabel::Icon(Glyph::Volume1),
            DisplayKey::VolumeMute => KeyLabel::Icon(Glyph::VolumeOff),
            DisplayKey::BrightnessUp => KeyLabel::Icon(Glyph::Sun),
            DisplayKey::BrightnessDown => KeyLabel::Icon(Glyph::SunDim),
            DisplayKey::PreviousTrack => KeyLabel::Icon(Glyph::SkipBack),
            DisplayKey::PlayPause => KeyLabel::Icon(Glyph::PlayPause),
            DisplayKey::PlayCd => KeyLabel::Icon(Glyph::Disc3),
            DisplayKey::NextTrack => KeyLabel::Icon(Glyph::SkipForward),
            DisplayKey::F(x) => {
                proof {
                    reveal_strlit("F");
                }
                let mut text = String::from_str("F");
                let digits = decimal_string(x as u64);
                text.append(digits.as_str());
                assert(text@ =~= seq!['F'] + decimal(x as nat));
                KeyLabel::Text(text)
            },
            DisplayKey::Unknown => {
                proof {
                    reveal_strlit("Unknown");
                }
                let text = String::from_str("Unknown");
                assert(text@ =~= seq!['U', 'n', 'k', 'n', 'o', 'w', 'n']);
                KeyLabel::Text(text)
            },
        }
    }
}

/// One key press with the modifiers held at the time.
#[derive(Debug)]
pub struct Keystroke {
    pub key: DisplayKey,
    pub modifiers: Modifiers,
    /// Display text for normal typing.
    ///
    /// This is layout-resolved and could be `None` for non-printable keys, in
    /// which case [`Keystroke::key`] should be used as the fallback.
    pub text: Option<String>,
}

/// The content of a keystroke.
pub struct KeystrokeView {
    pub key: DisplayKey,
    pub modifiers: Modifiers,
    pub text: Option<Seq<char>>,
}

impl View for Keystroke {
    type V = KeystrokeView;

    open spec fn view(&self) -> KeystrokeView {
        KeystrokeView {
            key: self.key,
            modifiers: self.modifiers,
            text: match self.text {
                Some(t) => Some(t@),
                None => None,
            },
        }
    }
}

/// The glyph labels of the held modifiers, in the order Control, Alt, Shift, Meta.
pub open spec fn modifier_labels(m: Modifiers) -> Seq<KeyLabelView> {
    (if m.control { seq![KeyLabelView::Icon(Glyph::ChevronUp)] } else { seq![] }) + (if m.alt {
        seq![KeyLabelView::Icon(Glyph::Option)]
    } else {
        seq![]
    }) + (if m.shift { seq![KeyLabelView::Icon(Glyph::ArrowBigUp)] } else { seq![] }) + (if m.meta {
        seq![KeyLabelView::Icon(Glyph::Command)]
    } else {
        seq![]
    })
}

/// The views of a sequence of labels.
pub open spec fn labels_view(labels: Seq<KeyLabel>) -> Seq<KeyLabelView> {
    labels.map_values(|l: KeyLabel| l@)
}

impl Keystroke {
    /// The labels a keystroke is drawn with: one per held modifier, then the key.
    pub fn labels(&self) -> (r: Vec<KeyLabel>)
        ensures
            labels_view(r@) == modifier_labels(self.modifiers) + seq![label_of(self.key)],
    {
        let mut parts: Vec<KeyLabel> = Vec::new();
        let ghost m = self.modifiers;
        if self.modifiers.control {
            parts.push(KeyLabel::Icon(Glyph::ChevronUp));
        }
        assert(labels_view(parts@) =~= (if m.control {
            seq![KeyLabelView::Icon(Glyph::ChevronUp)]
        } else {
            seq![]
        }));
        let ghost p1 = labels_view(parts@);
        if self.modifiers.alt {
            parts.push(KeyLabel::Icon(Glyph::Option));
        }
        assert(labels_view(parts@) =~= p1 + (if m.alt {
            seq![KeyLabelView::Icon(Glyph::Option)]
        } else {
            seq![]
        }));
        let ghost p2 = labels_view(parts@);
        if self.modifiers.shift {
            parts.push(KeyLabel::Icon(Glyph::ArrowBigUp));
        }
        assert(labels_view(parts@) =~= p2 + (if m.shift {
            seq![KeyLabelView::Icon(Glyph::ArrowBigUp)]
        } else {
            seq![]
        }));
        let ghost p3 = labels_view(parts@);
        if self.modifiers.meta {
            parts.push(KeyLabel::Icon(Glyph::Command));
        }
        assert(labels_view(parts@) =~= p3 + (if m.meta {
            seq![KeyLabelView::Icon(Glyph::Command)]
        } else {
            seq![]
        }));
        let ghost p4 = labels_view(parts@);
        assert(p4 == modifier_labels(m));
        parts.push(KeyLabel::from_key(self.key));
        assert(labels_view(parts@) =~= p4 + seq![label_of(self.key)]);
        parts
    }
}


/// A piece of content inside a finalized keystroke row.
#[derive(Debug)]
pub enum BubblePart {
    Text(String),
    Key(Keystroke),
}

/// The content of a bubble part.
pub enum BubblePartView {
    Text(Seq<char>),
    Key(KeystrokeView),
}

impl View for BubblePart {
    type V = BubblePartView;

    open spec fn view(&self) -> BubblePartView {
        match self {
            BubblePart::Text(t) => BubblePartView::Text(t@),
            BubblePart::Key(k) => BubblePartView::Key(k@),
        }
    }
}

/// The visual category for a finalized keystroke row.
#[derive(Debug, Clone, Copy, PartialEq, Eq, Structural)]
pub enum BubbleKind {
    Typing,
    Shortcut,
    Special,
}

/// One finalized row in the visible keystroke history.
#[derive(Debug)]
pub struct KeyBubble {
    pub parts: Vec<BubblePart>,
    pub kind: BubbleKind,
    pub count: usize,
    /// When the row was created or last repeated, in milliseconds.
    pub last_updated_at: u64,
}

/// The content of a history row.
pub struct KeyBubbleView {
    pub parts: Seq<BubblePartView>,
    pub kind: BubbleKind,
    pub count: usize,
    /// When the row was created or last repeated, in milliseconds.
    pub last_updated_at: u64,
}

/// The views of a sequence of bubble parts.
pub open spec fn parts_view(parts: Seq<BubblePart>) -> Seq<BubblePartView> {
    parts.map_values(|p: BubblePart| p@)
}

/// The views of a sequence of rows.
pub open spec fn bubbles_view(bubbles: Seq<KeyBubble>) -> Seq<KeyBubbleView> {
    bubbles.map_values(|b: KeyBubble| b@)
}

impl View for KeyBubble {
    type V = KeyBubbleView;

    open spec fn view(&self) -> KeyBubbleView {
        KeyBubbleView {
            parts: parts_view(self.parts@),
            kind: self.kind,
            count: self.count,
            last_updated_at: self.last_updated_at,
        }
    }
}

impl KeyBubble {
    /// When this row was created or last repeated.
    pub fn last_updated_at(&self) -> (r: u64)
        ensures
            r == self@.last_updated_at,
    {
        self.last_updated_at
    }

    /// How this row is shown on the overlay: its labels and its repeat marker.
    pub fn display_row(&self) -> (r: DisplayRow)
        ensures
            r@ == history_row(self@),
    {
        let labels = labels_of_parts(&self.parts);
        let repeat = repeat_marker_text(self.count);
        DisplayRow { kind: self.kind, labels, repeat }
    }
}

/// Every part is a key (no typed text).
pub open spec fn all_keys(parts: Seq<BubblePartView>) -> bool {
    forall|i: int| 0 <= i < parts.len() ==> #[trigger] parts[i] is Key
}

/// A new row of `parts` and `kind` repeats the row `prev`: both are key-only,
/// of the same kind and with the same parts.
pub open spec fn repeats(prev: KeyBubbleView, parts: Seq<BubblePartView>, kind: BubbleKind) -> bool {
    all_keys(parts) && prev.kind == kind && prev.parts == parts
}

/// The newest `limit` rows of `history`.
pub open spec fn trim_history(history: Seq<KeyBubbleView>, limit: usize) -> Seq<KeyBubbleView> {
    if history.len() > limit {
        history.skip(history.len() - limit)
    } else {
        history
    }
}

/// A row last updated at `t` has expired at `now`.
pub open spec fn is_expired(t: u64, now: u64) -> bool {
    now - t >= BUBBLE_TTL_MS
}

/// `history` without its leading run of expired rows.
pub open spec fn prune_history(history: Seq<KeyBubbleView>, now: u64) -> Seq<KeyBubbleView>
    decreases history.len(),
{
    if history.len() > 0 && is_expired(history[0].last_updated_at, now) {
        prune_history(history.drop_first(), now)
    } else {
        history
    }
}

/// The keystroke display: the text being typed and the finalized rows.
#[derive(Debug)]
pub struct KeystrokeState {
    pub active: String,
    pub history: VecDeque<KeyBubble>,
    /// The most rows on show, the typing row included.
    pub history_limit: usize,
    /// When the typing row last got a keystroke, while it is open.
    pub last_key_at: Option<u64>,
}

/// The content of the keystroke display.
pub struct KeystrokeStateView {
    pub active: Seq<char>,
    pub history: Seq<KeyBubbleView>,
    pub history_limit: usize,
    pub last_key_at: Option<u64>,
}

impl View for KeystrokeState {
    type V = KeystrokeStateView;

    open spec fn view(&self) -> KeystrokeStateView {
        KeystrokeStateView {
            active: self.active@,
            history: bubbles_view(self.history@),
            history_limit: self.history_limit,
            last_key_at: self.last_key_at,
        }
    }
}

impl KeystrokeStateView {
    /// The rows on show: the finalized rows, and the typing row while it holds text.
    pub open spec fn visible_rows(self) -> int {
        self.history.len() + if self.active.len() > 0 {
            1int
        } else {
            0int
        }
    }

    /// How many finalized rows fit: the history limit counts the typing row, so
    /// while the typing row holds text one row less is left for the others.
    pub open spec fn history_room(self) -> usize {
        if self.active.len() > 0 && self.history_limit > 0 {
            (self.history_limit - 1) as usize
        } else {
            self.history_limit
        }
    }

    /// Drops the oldest finalized rows beyond the room left for them.
    pub open spec fn fit_history(self) -> KeystrokeStateView {
        KeystrokeStateView { history: trim_history(self.history, self.history_room()), ..self }
    }

    /// The newest row can be repeated once more without its count overflowing.
    pub open spec fn count_has_room(self) -> bool {
        self.history.len() > 0 ==> self.history.last().count < usize::MAX
    }

    /// Adds a row: a key-only row that repeats the newest row increments its count
    /// and refreshes its time; any other row is appended with count 1, and the
    /// oldest rows beyond the room that the history limit leaves are dropped.
    pub open spec fn push_history(
        self,
        parts: Seq<BubblePartView>,
        kind: BubbleKind,
        now: u64,
    ) -> KeystrokeStateView {
        let h = self.history;
        if h.len() > 0 && repeats(h.last(), parts, kind) {
            let last = h.last();
            KeystrokeStateView {
                history: h.update(
                    h.len() - 1,
                    KeyBubbleView {
                        parts: last.parts,
                        kind: last.kind,
                        count: (last.count + 1) as usize,
                        last_updated_at: now,
                    },
                ),
                ..self
            }
        } else {
            KeystrokeStateView {
                history: trim_history(
                    h.push(KeyBubbleView { parts, kind, count: 1, last_updated_at: now }),
                    self.history_room(),
                ),
                ..self
            }
        }
    }

    /// Moves non-empty active text to a new typing row and ends the typing row.
    pub open spec fn finalize_active(self, now: u64) -> KeystrokeStateView {
        let s = if self.active.len() > 0 {
            KeystrokeStateView { active: Seq::empty(), ..self }.push_history(
                seq![BubblePartView::Text(self.active)],
                BubbleKind::Typing,
                now,
            )
        } else {
            self
        };
        KeystrokeStateView { last_key_at: None, ..s }
    }

    /// The typing row has seen no keystroke for the inactivity timeout.
    pub open spec fn is_inactive(self, now: u64) -> bool {
        self.last_key_at is Some && now - self.last_key_at->0 >= INACTIVITY_TIMEOUT_MS
    }

    /// Finalizes the typing row after a pause.
    pub open spec fn finalize_if_inactive(self, now: u64) -> KeystrokeStateView {
        if self.is_inactive(now) {
            self.finalize_active(now)
        } else {
            self
        }
    }

    /// Types `chars` one by one; a full active row is finalized before a character
    /// is added to it.
    pub open spec fn type_text(self, chars: Seq<char>, now: u64) -> KeystrokeStateView
        decreases chars.len(),
    {
        if chars.len() == 0 {
            self
        } else {
            let s = if self.active.len() >= MAX_ACTIVE_TEXT_LEN {
                self.finalize_active(now)
            } else {
                self
            };
            KeystrokeStateView { active: s.active.push(chars[0]), ..s }.fit_history().type_text(
                chars.drop_first(),
                now,
            )
        }
    }

    /// The effect of one keystroke at `now`.
    pub open spec fn handle_keystroke(self, k: KeystrokeView, now: u64) -> KeystrokeStateView {
        let s = KeystrokeStateView { last_key_at: Some(now), ..self.finalize_if_inactive(now) };
        if is_delimiter_key(k.key) {
            if any_modifier(k.modifiers) {
                let kind = if shortcut_modifier(k.modifiers) {
                    BubbleKind::Shortcut
                } else {
                    BubbleKind::Special
                };
                s.finalize_active(now).push_history(seq![BubblePartView::Key(k)], kind, now)
            } else {
                let parts = if s.active.len() > 0 {
                    seq![BubblePartView::Text(s.active), BubblePartView::Key(k)]
                } else {
                    seq![BubblePartView::Key(k)]
                };
                let t = KeystrokeStateView { active: Seq::empty(), ..s }.push_history(
                    parts,
                    BubbleKind::Typing,
                    now,
                );
                KeystrokeStateView { last_key_at: None, ..t }
            }
        } else if shortcut_modifier(k.modifiers) {
            s.finalize_active(now).push_history(
                seq![BubblePartView::Key(k)],
                BubbleKind::Shortcut,
                now,
            )
        } else if k.key is Backspace && s.active.len() > 0 {
            KeystrokeStateView { active: s.active.drop_last(), ..s }
        } else if k.text is Some {
            let t = s.type_text(k.text->0, now);
            if t.active.len() > 0 {
                KeystrokeStateView { last_key_at: Some(now), ..t }
            } else {
                t
            }
        } else if is_special_key(k.key) {
            s.finalize_active(now).push_history(
                seq![BubblePartView::Key(k)],
                BubbleKind::Special,
                now,
            )
        } else {
            s
        }
    }

    /// Drops the leading expired rows.
    pub open spec fn prune_expired(self, now: u64) -> KeystrokeStateView {
        KeystrokeStateView { history: prune_history(self.history, now), ..self }
    }

    /// Sets the history limit and drops the oldest rows that no longer fit.
    pub open spec fn set_history_limit(self, limit: usize) -> KeystrokeStateView {
        KeystrokeStateView { history_limit: limit, ..self }.fit_history()
    }
}

/// The newest of the kept rows after appending `b` is `b`.
proof fn lemma_trim_keeps_newest(h: Seq<KeyBubbleView>, b: KeyBubbleView, limit: usize)
    ensures
        trim_history(h.push(b), limit).len() > 0 ==> trim_history(h.push(b), limit).last() == b,
        trim_history(h.push(b), limit).len() <= h.len() + 1,
{
}

/// Finalizing the typing row leaves room to count the newest row.
pub(crate) proof fn lemma_finalize_keeps_room(s: KeystrokeStateView, now: u64)
    requires
        s.count_has_room(),
    ensures
        s.finalize_active(now).count_has_room(),
        s.finalize_if_inactive(now).count_has_room(),
{
    if s.active.len() > 0 {
        let parts = seq![BubblePartView::Text(s.active)];
        assert(!all_keys(parts)) by {
            assert(!(parts[0] is Key));
        }
        lemma_trim_keeps_newest(
            s.history,
            KeyBubbleView { parts, kind: BubbleKind::Typing, count: 1, last_updated_at: now },
            KeystrokeStateView { active: Seq::empty(), ..s }.history_room(),
        );
    }
}

/// Two keystrokes with the same content.
fn keystroke_eq(a: &Keystroke, b: &Keystroke) -> (r: bool)
    ensures
        r == (a@ == b@),
{
    if a.key != b.key || a.modifiers != b.modifiers {
        return false;
    }
    match (&a.text, &b.text) {
        (Some(x), Some(y)) => *x == *y,
        (None, None) => true,
        _ => false,
    }
}

/// Two bubble parts with the same content.
fn part_eq(a: &BubblePart, b: &BubblePart) -> (r: bool)
    ensures
        r == (a@ == b@),
{
    match (a, b) {
        (BubblePart::Text(x), BubblePart::Text(y)) => *x == *y,
        (BubblePart::Key(x), BubblePart::Key(y)) => keystroke_eq(x, y),
        _ => false,
    }
}

/// Two sequences of bubble parts with the same content.
fn parts_eq(a: &Vec<BubblePart>, b: &Vec<BubblePart>) -> (r: bool)
    ensures
        r == (parts_view(a@) == parts_view(b@)),
{
    let n = a.len();
    if n != b.len() {
        assert(parts_view(a@).len() != parts_view(b@).len());
        return false;
    }
    let mut i: usize = 0;
    while i < n
        invariant
            n == a@.len(),
            n == b@.len(),
            i <= n,
            forall|j: int| 0 <= j < i ==> a@[j]@ == b@[j]@,
        decreases n - i,
    {
        if !part_eq(&a[i], &b[i]) {
            assert(parts_view(a@)[i as int] != parts_view(b@)[i as int]);
            return false;
        }
        i = i + 1;
    }
    assert(parts_view(a@) =~= parts_view(b@));
    true
}

/// Whether every part is a key.
fn all_key_parts(parts: &Vec<BubblePart>) -> (r: bool)
    ensures
        r == all_keys(parts_view(parts@)),
{
    let n = parts.len();
    let mut i: usize = 0;
    while i < n
        invariant
            n == parts@.len(),
            i <= n,
            forall|j: int| 0 <= j < i ==> parts@[j] is Key,
        decreases n - i,
    {
        if let BubblePart::Text(_) = &parts[i] {
            assert(!(parts_view(parts@)[i as int] is Key));
            return false;
        }
        i = i + 1;
    }
    assert forall|j: int| 0 <= j < parts_view(parts@).len() implies #[trigger] parts_view(
        parts@,
    )[j] is Key by {
        assert(parts@[j] is Key);
    }
    true
}

impl KeystrokeState {
    /// An empty display that shows at most `history_limit` rows, the typing row
    /// included.
    pub fn new(history_limit: usize) -> (r: Self)
        ensures
            r@ == (KeystrokeStateView {
                active: Seq::empty(),
                history: Seq::empty(),
                history_limit,
                last_key_at: None,
            }),
    {
        let r = KeystrokeState {
            active: String::new(),
            history: VecDeque::new(),
            history_limit,
            last_key_at: None,
        };
        assert(r@.history =~= Seq::<KeyBubbleView>::empty());
        r
    }

    /// Whether the newest row can be counted once more without overflowing.
    pub fn can_count_repeat(&self) -> (r: bool)
        ensures
            r == self@.count_has_room(),
    {
        let n = self.history.len();
        n == 0 || self.history[n - 1].count < usize::MAX
    }

    /// The rows the overlay shows: one for each history row, oldest first, with its
    /// labels and repeat marker, then the typing row when it holds text.
    pub fn display_rows(&self) -> (r: Vec<DisplayRow>)
        ensures
            rows_view(r@) == display_rows(self@),
    {
        let ghost hv = self@.history;
        let ghost shown = hv.map_values(|b: KeyBubbleView| history_row(b));
        let mut rows: Vec<DisplayRow> = Vec::new();
        let n = self.history.len();
        let mut i: usize = 0;
        while i < n
            invariant
                n == self.history@.len(),
                hv == self@.history,
                hv.len() == n,
                shown == hv.map_values(|b: KeyBubbleView| history_row(b)),
                i <= n,
                rows_view(rows@) == shown.take(i as int),
            decreases n - i,
        {
            let ghost before = rows@;
            let row = self.history[i].display_row();
            proof {
                assert(hv[i as int] == self.history@[i as int]@);
                assert(row@ == shown[i as int]);
            }
            rows.push(row);
            proof {
                assert(rows_view(before).len() == before.len());
                assert(shown.take(i as int).len() == i);
                assert(rows@ == before.push(row));
                assert(rows_view(rows@) =~= shown.take(i + 1)) by {
                    assert forall|j: int| 0 <= j < i + 1 implies #[trigger] rows_view(rows@)[j]
                        == shown.take(i + 1)[j] by {
                        if j < i {
                            assert(rows@[j] == before[j]);
                            assert(rows_view(before)[j] == shown.take(i as int)[j]);
                        }
                    }
                }
            }
            i = i + 1;
        }
        assert(shown.take(n as int) =~= shown);
        if !self.active.as_str().is_empty() {
            let mut labels: Vec<KeyLabel> = Vec::new();
            labels.push(KeyLabel::Text(self.active.clone()));
            assert(labels_view(labels@) =~= seq![KeyLabelView::Text(self@.active)]);
            let ghost before = rows@;
            rows.push(DisplayRow { kind: BubbleKind::Typing, labels, repeat: None });
            assert(rows_view(rows@) =~= rows_view(before) + seq![
                DisplayRowView {
                    kind: BubbleKind::Typing,
                    labels: seq![KeyLabelView::Text(self@.active)],
                    repeat: None,
                },
            ]);
        }
        assert(rows_view(rows@) =~= display_rows(self@));
        rows
    }

    /// The number of rows on show at most, the typing row included.
    pub fn history_limit(&self) -> (r: usize)
        ensures
            r == self@.history_limit,
    {
        self.history_limit
    }

    /// Changes the history limit, dropping the oldest rows that no longer fit.
    pub fn set_history_limit(&mut self, history_limit: usize)
        ensures
            final(self)@ == old(self)@.set_history_limit(history_limit),
    {
        self.history_limit = history_limit;
        self.trim_history();
    }

    /// Drops the oldest finalized rows beyond the room that the history limit
    /// leaves them next to the typing row.
    fn trim_history(&mut self)
        ensures
            final(self)@ == old(self)@.fit_history(),
    {
        let room: usize = if !self.active.as_str().is_empty() && self.history_limit > 0 {
            self.history_limit - 1
        } else {
            self.history_limit
        };
        assert(room == old(self)@.history_room());
        let ghost h0 = self@.history;
        let ghost dropped: int = 0;
        while self.history.len() > room
            invariant
                self@.active == old(self)@.active,
                self@.history_limit == old(self)@.history_limit,
                self@.last_key_at == old(self)@.last_key_at,
                h0 == old(self)@.history,
                0 <= dropped <= h0.len(),
                self@.history == h0.skip(dropped),
                h0.len() > room ==> self@.history.len() >= room,
                h0.len() <= room ==> dropped == 0,
            decreases self.history.len(),
        {
            let ghost before = self.history@;
            self.history.pop_front();
            proof {
                assert(bubbles_view(self.history@) =~= bubbles_view(before).drop_first());
                assert(h0.skip(dropped).drop_first() =~= h0.skip(dropped + 1));
                dropped = dropped + 1;
            }
        }
        assert(self@.history =~= trim_history(h0, room));
    }

    /// Push a new row to history.
    ///
    /// If the new row is identical to the most recent one and both are
    /// key-only, they will be merged into a single row with an incremented
    /// repeat count.
    fn push_history(&mut self, parts: Vec<BubblePart>, kind: BubbleKind, now: u64)
        requires
            all_keys(parts_view(parts@)) ==> old(self)@.count_has_room(),
        ensures
            final(self)@ == old(self)@.push_history(parts_view(parts@), kind, now),
    {
        let n = self.history.len();
        if n > 0 && all_key_parts(&parts) {
            let same = self.history[n - 1].kind == kind && parts_eq(
                &self.history[n - 1].parts,
                &parts,
            );
            if same {
                let mut last = self.history.pop_back().unwrap();
                last.count = last.count + 1;
                last.last_updated_at = now;
                self.history.push_back(last);
                proof {
                    let h = old(self)@.history;
                    assert(bubbles_view(self.history@) =~= h.update(
                        h.len() - 1,
                        KeyBubbleView {
                            parts: h.last().parts,
                            kind: h.last().kind,
                            count: (h.last().count + 1) as usize,
                            last_updated_at: now,
                        },
                    ));
                }
                return ;
            }
        }
        let ghost pv = parts_view(parts@);
        self.history.push_back(KeyBubble { parts, kind, count: 1, last_updated_at: now });
        assert(bubbles_view(self.history@) =~= old(self)@.history.push(
            KeyBubbleView { parts: pv, kind, count: 1, last_updated_at: now },
        ));
        self.trim_history();
    }

    /// Finalize the active typing row by moving it to history and clearing it.
    fn finalize_active(&mut self, now: u64)
        ensures
            final(self)@ == old(self)@.finalize_active(now),
    {
        if !self.active.as_str().is_empty() {
            let mut text = String::new();
            std::mem::swap(&mut text, &mut self.active);
            let mut parts: Vec<BubblePart> = Vec::new();
            parts.push(BubblePart::Text(text));
            assert(parts_view(parts@) =~= seq![BubblePartView::Text(old(self)@.active)]);
            assert(!all_keys(parts_view(parts@))) by {
                assert(!(parts_view(parts@)[0] is Key));
            }
            self.push_history(parts, BubbleKind::Typing, now);
        }
        self.last_key_at = None;
    }

    /// Types the characters of `text` into the active row.
    fn type_text(&mut self, text: &String, now: u64)
        ensures
            final(self)@ == old(self)@.type_text(text@, now),
    {
        let n = text.as_str().unicode_len();
        let ghost goal = self@.type_text(text@, now);
        assert(text@.skip(0) =~= text@);
        let mut i: usize = 0;
        while i < n
            invariant
                n == text@.len(),
                i <= n,
                goal == old(self)@.type_text(text@, now),
                self@.type_text(text@.skip(i as int), now) == goal,
            decreases n - i,
        {
            let ch = text.as_str().get_char(i);
            assert(text@.skip(i as int)[0] == ch);
            assert(text@.skip(i as int).drop_first() =~= text@.skip(i as int + 1));
            if self.active.as_str().unicode_len() >= MAX_ACTIVE_TEXT_LEN {
                self.finalize_active(now);
            }
            self.active.push(ch);
            self.trim_history();
            i = i + 1;
        }
        assert(text@.skip(n as int) =~= Seq::<char>::empty());
    }

    /// Updates the display for one keystroke at `now`: shortcut chords and special
    /// keys become rows of their own, plain delimiters end the typing row, Backspace
    /// deletes the last typed character while the typing row has text, and typed
    /// text extends the typing row.
    pub fn handle_keystroke(&mut self, keystroke: Keystroke, now: u64)
        requires
            old(self)@.count_has_room(),
        ensures
            final(self)@ == old(self)@.handle_keystroke(keystroke@, now),
    {
        proof {
            lemma_finalize_keeps_room(old(self)@, now);
            lemma_finalize_keeps_room(old(self)@.finalize_if_inactive(now), now);
            lemma_finalize_keeps_room(
                KeystrokeStateView {
                    last_key_at: Some(now),
                    ..old(self)@.finalize_if_inactive(now)
                },
                now,
            );
        }
        self.finalize_if_inactive(now);
        self.last_key_at = Some(now);
        let ghost k = keystroke@;
        let ghost s = self@;
        assert(s == (KeystrokeStateView {
            last_key_at: Some(now),
            ..old(self)@.finalize_if_inactive(now)
        }));
        if keystroke.key.is_delimiter() {
            if keystroke.modifiers.any() {
                // Modified delimiters are explicit key events
                self.finalize_active(now);
                let kind = if keystroke.modifiers.enables_shortcut() {
                    BubbleKind::Shortcut
                } else {
                    BubbleKind::Special
                };
                let mut parts: Vec<BubblePart> = Vec::new();
                parts.push(BubblePart::Key(keystroke));
                assert(parts_view(parts@) =~= seq![BubblePartView::Key(k)]);
                self.push_history(parts, kind, now);
            } else {
                // Plain delimiters belong to the typing row that they end
                let mut parts: Vec<BubblePart> = Vec::new();
                if !self.active.as_str().is_empty() {
                    let mut text = String::new();
                    std::mem::swap(&mut text, &mut self.active);
                    parts.push(BubblePart::Text(text));
                }
                parts.push(BubblePart::Key(keystroke));
                proof {
                    if s.active.len() > 0 {
                        assert(parts_view(parts@) =~= seq![
                            BubblePartView::Text(s.active),
                            BubblePartView::Key(k),
                        ]);
                        assert(!all_keys(parts_view(parts@))) by {
                            assert(!(parts_view(parts@)[0] is Key));
                        }
                    } else {
                        assert(parts_view(parts@) =~= seq![BubblePartView::Key(k)]);
                        assert(self@.active =~= Seq::<char>::empty());
                    }
                }
                self.push_history(parts, BubbleKind::Typing, now);
                self.last_key_at = None;
            }
            return ;
        }
        if keystroke.modifiers.enables_shortcut() {
            // Shortcut-like chords are keystrokes first, not typed text, so
            // that e.g. Ctrl+Shift+7 will be resolved as the physical shortcut
            // rather than as a layout-resolved character like Ctrl+&
            self.finalize_active(now);
            let mut parts: Vec<BubblePart> = Vec::new();
            parts.push(BubblePart::Key(keystroke));
            assert(parts_view(parts@) =~= seq![BubblePartView::Key(k)]);
            self.push_history(parts, BubbleKind::Shortcut, now);
            return ;
        }
        if keystroke.key == DisplayKey::Backspace && !self.active.as_str().is_empty() {
            // Backspace edits the text that is still being typed
            self.active.pop();
            return ;
        }
        if let Some(text) = &keystroke.text {
            self.type_text(text, now);
            if !self.active.as_str().is_empty() {
                self.last_key_at = Some(now);
            }
            return ;
        }
        if keystroke.key.is_special() {
            self.finalize_active(now);
            let mut parts: Vec<BubblePart> = Vec::new();
            parts.push(BubblePart::Key(keystroke));
            assert(parts_view(parts@) =~= seq![BubblePartView::Key(k)]);
            self.push_history(parts, BubbleKind::Special, now);
        }
    }

    /// Finalize the active typing row if there has been a pause.
    pub fn finalize_if_inactive(&mut self, now: u64)
        ensures
            final(self)@ == old(self)@.finalize_if_inactive(now),
    {
        if let Some(last_key_at) = self.last_key_at {
            if now >= last_key_at && now - last_key_at >= INACTIVITY_TIMEOUT_MS {
                self.finalize_active(now);
            }
        }
    }

    /// Remove expired rows from history.
    pub fn prune_expired(&mut self, now: u64)
        ensures
            final(self)@ == old(self)@.prune_expired(now),
    {
        let ghost h0 = self@.history;
        loop
            invariant
                self@.active == old(self)@.active,
                self@.history_limit == old(self)@.history_limit,
                self@.last_key_at == old(self)@.last_key_at,
                h0 == old(self)@.history,
                prune_history(self@.history, now) == prune_history(h0, now),
            ensures
                self@.active == old(self)@.active,
                self@.history_limit == old(self)@.history_limit,
                self@.last_key_at == old(self)@.last_key_at,
                self@.history == prune_history(h0, now),
            decreases self.history.len(),
        {
            if self.history.len() == 0 {
                break;
            }
            let t = self.history[0].last_updated_at;
            assert(t == self@.history[0].last_updated_at);
            if now >= t && now - t >= BUBBLE_TTL_MS {
                let ghost before = self.history@;
                self.history.pop_front();
                assert(bubbles_view(self.history@) =~= bubbles_view(before).drop_first());
            } else {
                break;
            }
        }
    }
}

} // verus!
