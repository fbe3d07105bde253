//! What keys show as, how they are drawn, which keys are modifiers, and what the
//! keypad stands for with Num Lock off.

use vstd::prelude::*;

use crate::icons::Glyph;
use crate::input::{modifiers_of, InputEventView, InputNormalizerView};
use crate::keystrokes::{display_key_of, label_of, DisplayKey, KeyLabelView};
use crate::rdev::{numpad_fallback, EventType, Key};
use crate::text::{all_digits, decimal, digits_value, lemma_decimal_parses_back};

verus! {

/// Every letter key shows as its own upper-case letter.
pub proof fn lemma_letter_keys_show_their_letter()
    ensures
        display_key_of(Key::KeyA) == DisplayKey::Char('A'),
        display_key_of(Key::KeyB) == DisplayKey::Char('B'),
        display_key_of(Key::KeyC) == DisplayKey::Char('C'),
        display_key_of(Key::KeyD) == DisplayKey::Char('D'),
        display_key_of(Key::KeyE) == DisplayKey::Char('E'),
        display_key_of(Key::KeyF) == DisplayKey::Char('F'),
        display_key_of(Key::KeyG) == DisplayKey::Char('G'),
        display_key_of(Key::KeyH) == DisplayKey::Char('H'),
        display_key_of(Key::KeyI) == DisplayKey::Char('I'),
        display_key_of(Key::KeyJ) == DisplayKey::Char('J'),
        display_key_of(Key::KeyK) == DisplayKey::Char('K'),
        display_key_of(Key::KeyL) == DisplayKey::Char('L'),
        display_key_of(Key::KeyM) == DisplayKey::Char('M'),
        display_key_of(Key::KeyN) == DisplayKey::Char('N'),
        display_key_of(Key::KeyO) == DisplayKey::Char('O'),
        display_key_of(Key::KeyP) == DisplayKey::Char('P'),
        display_key_of(Key::KeyQ) == DisplayKey::Char('Q'),
        display_key_of(Key::KeyR) == DisplayKey::Char('R'),
        display_key_of(Key::KeyS) == DisplayKey::Char('S'),
        display_key_of(Key::KeyT) == DisplayKey::Char('T'),
        display_key_of(Key::KeyU) == DisplayKey::Char('U'),
        display_key_of(Key::KeyV) == DisplayKey::Char('V'),
        display_key_of(Key::KeyW) == DisplayKey::Char('W'),
        display_key_of(Key::KeyX) == DisplayKey::Char('X'),
        display_key_of(Key::KeyY) == DisplayKey::Char('Y'),
        display_key_of(Key::KeyZ) == DisplayKey::Char('Z'),
{
}

/// Every digit key, of the main rows and of the keypad alike, shows as its digit.
pub proof fn lemma_digit_keys_show_their_digit()
    ensures
        display_key_of(Key::Num0) == DisplayKey::Char('0') && display_key_of(Key::Kp0)
            == DisplayKey::Char('0'),
        display_key_of(Key::Num1) == DisplayKey::Char('1') && display_key_of(Key::Kp1)
            == DisplayKey::Char('1'),
        display_key_of(Key::Num2) == DisplayKey::Char('2') && display_key_of(Key::Kp2)
            == DisplayKey::Char('2'),
        display_key_of(Key::Num3) == DisplayKey::Char('3') && display_key_of(Key::Kp3)
            == DisplayKey::Char('3'),
        display_key_of(Key::Num4) == DisplayKey::Char('4') && display_key_of(Key::Kp4)
            == DisplayKey::Char('4'),
        display_key_of(Key::Num5) == DisplayKey::Char('5') && display_key_of(Key::Kp5)
            == DisplayKey::Char('5'),
        display_key_of(Key::Num6) == DisplayKey::Char('6') && display_key_of(Key::Kp6)
            == DisplayKey::Char('6'),
        display_key_of(Key::Num7) == DisplayKey::Char('7') && display_key_of(Key::Kp7)
            == DisplayKey::Char('7'),
        display_key_of(Key::Num8) == DisplayKey::Char('8') && display_key_of(Key::Kp8)
            == DisplayKey::Char('8'),
        display_key_of(Key::Num9) == DisplayKey::Char('9') && display_key_of(Key::Kp9)
            == DisplayKey::Char('9'),
{
}

/// The function keys F1 to F24 show as `F` with their number.
pub proof fn lemma_function_keys_show_their_number()
    ensures
        display_key_of(Key::F1) == DisplayKey::F(1),
        display_key_of(Key::F2) == DisplayKey::F(2),
        display_key_of(Key::F3) == DisplayKey::F(3),
        display_key_of(Key::F4) == DisplayKey::F(4),
        display_key_of(Key::F5) == DisplayKey::F(5),
        display_key_of(Key::F6) == DisplayKey::F(6),
        display_key_of(Key::F7) == DisplayKey::F(7),
        display_key_of(Key::F8) == DisplayKey::F(8),
        display_key_of(Key::F9) == DisplayKey::F(9),
        display_key_of(Key::F10) == DisplayKey::F(10),
        display_key_of(Key::F11) == DisplayKey::F(11),
        display_key_of(Key::F12) == DisplayKey::F(12),
        display_key_of(Key::F13) == DisplayKey::F(13),
        display_key_of(Key::F14) == DisplayKey::F(14),
        display_key_of(Key::F15) == DisplayKey::F(15),
        display_key_of(Key::F16) == DisplayKey::F(16),
        display_key_of(Key::F17) == DisplayKey::F(17),
        display_key_of(Key::F18) == DisplayKey::F(18),
        display_key_of(Key::F19) == DisplayKey::F(19),
        display_key_of(Key::F20) == DisplayKey::F(20),
        display_key_of(Key::F21) == DisplayKey::F(21),
        display_key_of(Key::F22) == DisplayKey::F(22),
        display_key_of(Key::F23) == DisplayKey::F(23),
        display_key_of(Key::F24) == DisplayKey::F(24),
{
}

/// The arrow and navigation keys show as the key of their own direction and name.
pub proof fn lemma_navigation_keys_show_themselves()
    ensures
        display_key_of(Key::UpArrow) == DisplayKey::ArrowUp,
        display_key_of(Key::DownArrow) == DisplayKey::ArrowDown,
        display_key_of(Key::LeftArrow) == DisplayKey::ArrowLeft,
        display_key_of(Key::RightArrow) == DisplayKey::ArrowRight,
        display_key_of(Key::Home) == DisplayKey::Home,
        display_key_of(Key::End) == DisplayKey::End,
        display_key_of(Key::PageUp) == DisplayKey::PageUp,
        display_key_of(Key::PageDown) == DisplayKey::PageDown,
        display_key_of(Key::Insert) == DisplayKey::Insert,
        display_key_of(Key::Delete) == DisplayKey::Delete,
        display_key_of(Key::Backspace) == DisplayKey::Backspace,
        display_key_of(Key::Escape) == DisplayKey::Escape,
        display_key_of(Key::Return) == DisplayKey::Enter,
        display_key_of(Key::KpReturn) == DisplayKey::Enter,
        display_key_of(Key::Tab) == DisplayKey::Tab,
        display_key_of(Key::Space) == DisplayKey::Space,
{
}

/// The modifier keys themselves show as nothing that can be typed.
pub proof fn lemma_modifier_keys_show_unknown(key: Key)
    requires
        key == Key::ControlLeft || key == Key::ControlRight || key == Key::Alt || key
            == Key::AltGr || key == Key::ShiftLeft || key == Key::ShiftRight || key
            == Key::MetaLeft || key == Key::MetaRight,
    ensures
        display_key_of(key) == DisplayKey::Unknown,
{
}

/// Each arrow key is drawn with the arrow glyph of its own direction.
pub proof fn lemma_arrow_keys_drawn_by_direction()
    ensures
        label_of(DisplayKey::ArrowUp) == KeyLabelView::Icon(Glyph::ArrowUp),
        label_of(DisplayKey::ArrowDown) == KeyLabelView::Icon(Glyph::ArrowDown),
        label_of(DisplayKey::ArrowLeft) == KeyLabelView::Icon(Glyph::ArrowLeft),
        label_of(DisplayKey::ArrowRight) == KeyLabelView::Icon(Glyph::ArrowRight),
        label_of(DisplayKey::PageUp) == KeyLabelView::Icon(Glyph::ArrowUpToLine),
        label_of(DisplayKey::PageDown) == KeyLabelView::Icon(Glyph::ArrowDownToLine),
        label_of(DisplayKey::Home) == KeyLabelView::Icon(Glyph::ArrowUpLeft),
        label_of(DisplayKey::End) == KeyLabelView::Icon(Glyph::ArrowDownRight),
{
}

/// A function key is drawn as `F` followed by its number in decimal.
pub proof fn lemma_function_key_label(n: u8)
    ensures
        label_of(DisplayKey::F(n)) == KeyLabelView::Text(seq!['F'] + decimal(n as nat)),
        label_of(DisplayKey::F(n)) matches KeyLabelView::Text(t) && digits_value(t.drop_first())
            == n,
{
    lemma_decimal_parses_back(n as nat);
    assert((seq!['F'] + decimal(n as nat)).drop_first() =~= decimal(n as nat));
}

/// The text of a function key's label tells its number back.
proof fn lemma_f_label_text(n: u8)
    ensures
        (seq!['F'] + decimal(n as nat)).len() >= 2,
        (seq!['F'] + decimal(n as nat))[0] == 'F',
        all_digits((seq!['F'] + decimal(n as nat)).drop_first()),
        digits_value((seq!['F'] + decimal(n as nat)).drop_first()) == n,
{
    lemma_decimal_parses_back(n as nat);
    assert((seq!['F'] + decimal(n as nat)).drop_first() =~= decimal(n as nat));
}

/// No two different keys are drawn alike: a drawn label tells the key back.
pub proof fn lemma_labels_tell_keys_apart(a: DisplayKey, b: DisplayKey)
    requires
        label_of(a) == label_of(b),
    ensures
        a == b,
{
    if let DisplayKey::F(x) = a {
        lemma_f_label_text(x);
        let ta = seq!['F'] + decimal(x as nat);
        if let DisplayKey::F(y) = b {
            lemma_f_label_text(y);
        } else if b is Function {
            assert(ta.drop_first()[0] == 'n');
        } else if b is Unknown {
            assert(ta[0] == 'U');
        } else if b is PrintScreen {
            assert(ta[0] == 'P');
        } else if b is ScrollLock {
            assert(ta[0] == 'S');
        } else if b is NumLock {
            assert(ta[0] == 'N');
        }
    } else if let DisplayKey::F(y) = b {
        lemma_f_label_text(y);
        let tb = seq!['F'] + decimal(y as nat);
        if a is Function {
            assert(tb.drop_first()[0] == 'n');
        } else if a is Unknown {
            assert(tb[0] == 'U');
        } else if a is PrintScreen {
            assert(tb[0] == 'P');
        } else if a is ScrollLock {
            assert(tb[0] == 'S');
        } else if a is NumLock {
            assert(tb[0] == 'N');
        }
    } else {
        if label_of(a) is Text {
            let t = label_of(a)->Text_0;
            assert(t.len() >= 2);
            if a is PrintScreen || a is ScrollLock || a is NumLock || a is Function || a is Unknown {
                assert(t[0] == label_of(b)->Text_0[0]);
                assert(t[1] == label_of(b)->Text_0[1]);
                assert(t.len() == label_of(b)->Text_0.len());
            }
        }
    }
}

/// With no text, each keypad key stands for the navigation key printed on it
/// (Num Lock is off), in presses and releases alike; every other key stays itself.
pub proof fn lemma_keypad_navigation(key: Key)
    ensures
        numpad_fallback(EventType::KeyPress(Key::Kp0)) == EventType::KeyPress(Key::Insert),
        numpad_fallback(EventType::KeyPress(Key::Kp1)) == EventType::KeyPress(Key::End),
        numpad_fallback(EventType::KeyPress(Key::Kp2)) == EventType::KeyPress(Key::DownArrow),
        numpad_fallback(EventType::KeyPress(Key::Kp3)) == EventType::KeyPress(Key::PageDown),
        numpad_fallback(EventType::KeyPress(Key::Kp4)) == EventType::KeyPress(Key::LeftArrow),
        numpad_fallback(EventType::KeyPress(Key::Kp6)) == EventType::KeyPress(Key::RightArrow),
        numpad_fallback(EventType::KeyPress(Key::Kp7)) == EventType::KeyPress(Key::Home),
        numpad_fallback(EventType::KeyPress(Key::Kp8)) == EventType::KeyPress(Key::UpArrow),
        numpad_fallback(EventType::KeyPress(Key::Kp9)) == EventType::KeyPress(Key::PageUp),
        numpad_fallback(EventType::KeyPress(Key::KpDelete)) == EventType::KeyPress(Key::Delete),
        numpad_fallback(EventType::KeyRelease(Key::Kp0)) == EventType::KeyRelease(Key::Insert),
        numpad_fallback(EventType::KeyRelease(Key::Kp1)) == EventType::KeyRelease(Key::End),
        numpad_fallback(EventType::KeyRelease(Key::Kp2)) == EventType::KeyRelease(Key::DownArrow),
        numpad_fallback(EventType::KeyRelease(Key::Kp3)) == EventType::KeyRelease(Key::PageDown),
        numpad_fallback(EventType::KeyRelease(Key::Kp4)) == EventType::KeyRelease(Key::LeftArrow),
        numpad_fallback(EventType::KeyRelease(Key::Kp6)) == EventType::KeyRelease(Key::RightArrow),
        numpad_fallback(EventType::KeyRelease(Key::Kp7)) == EventType::KeyRelease(Key::Home),
        numpad_fallback(EventType::KeyRelease(Key::Kp8)) == EventType::KeyRelease(Key::UpArrow),
        numpad_fallback(EventType::KeyRelease(Key::Kp9)) == EventType::KeyRelease(Key::PageUp),
        numpad_fallback(EventType::KeyRelease(Key::KpDelete)) == EventType::KeyRelease(
            Key::Delete,
        ),
        !(key == Key::Kp0 || key == Key::Kp1 || key == Key::Kp2 || key == Key::Kp3 || key
            == Key::Kp4 || key == Key::Kp6 || key == Key::Kp7 || key == Key::Kp8 || key
            == Key::Kp9 || key == Key::KpDelete) ==> numpad_fallback(EventType::KeyPress(key))
            == EventType::KeyPress(key) && numpad_fallback(EventType::KeyRelease(key))
            == EventType::KeyRelease(key),
{
}

/// Pressing a modifier key (either Control, Alt or AltGr, either Shift, either
/// Meta) never types: the key is then held, its modifier is on, and a change of
/// the held modifiers is reported exactly when there was one.
pub proof fn lemma_modifier_press_is_held(
    s: InputNormalizerView,
    key: Key,
    name: Option<Seq<char>>,
)
    requires
        key == Key::ControlLeft || key == Key::ControlRight || key == Key::Alt || key
            == Key::AltGr || key == Key::ShiftLeft || key == Key::ShiftRight || key
            == Key::MetaLeft || key == Key::MetaRight,
        s.modifiers == modifiers_of(s.pressed),
    ensures
        s.handle_event(EventType::KeyPress(key), name).0.pressed == s.pressed.insert(key),
        !(s.handle_event(EventType::KeyPress(key), name).1 matches Some(
            InputEventView::Keystroke(_),
        )),
        (key == Key::ControlLeft || key == Key::ControlRight) ==> s.handle_event(
            EventType::KeyPress(key),
            name,
        ).0.modifiers.control,
        (key == Key::Alt || key == Key::AltGr) ==> s.handle_event(
            EventType::KeyPress(key),
            name,
        ).0.modifiers.alt,
        (key == Key::ShiftLeft || key == Key::ShiftRight) ==> s.handle_event(
            EventType::KeyPress(key),
            name,
        ).0.modifiers.shift,
        (key == Key::MetaLeft || key == Key::MetaRight) ==> s.handle_event(
            EventType::KeyPress(key),
            name,
        ).0.modifiers.meta,
        s.handle_event(EventType::KeyPress(key), name).1 == if s.handle_event(
            EventType::KeyPress(key),
            name,
        ).0.modifiers != s.modifiers {
            Some(InputEventView::ModifiersChanged(s.handle_event(EventType::KeyPress(key), name).0.modifiers))
        } else {
            None
        },
{
}

/// Releasing a modifier key that is the only one held of its modifier turns
/// that modifier off; a release of a modifier key never types.
pub proof fn lemma_modifier_release_clears(
    s: InputNormalizerView,
    key: Key,
    name: Option<Seq<char>>,
)
    requires
        key == Key::ControlLeft || key == Key::ControlRight || key == Key::Alt || key
            == Key::AltGr || key == Key::ShiftLeft || key == Key::ShiftRight || key
            == Key::MetaLeft || key == Key::MetaRight,
        s.pressed == set![key],
    ensures
        s.handle_event(EventType::KeyRelease(key), name).0.pressed.is_empty(),
        !s.handle_event(EventType::KeyRelease(key), name).0.modifiers.control,
        !s.handle_event(EventType::KeyRelease(key), name).0.modifiers.alt,
        !s.handle_event(EventType::KeyRelease(key), name).0.modifiers.shift,
        !s.handle_event(EventType::KeyRelease(key), name).0.modifiers.meta,
        !(s.handle_event(EventType::KeyRelease(key), name).1 matches Some(
            InputEventView::Keystroke(_),
        )),
{
    assert(set![key].remove(key) =~= Set::<Key>::empty());
}

} // verus!
