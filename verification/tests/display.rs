use echoinput::display::{modifier_indicators, repeat_marker_text, ModifierIndicator};
use echoinput::icons::Glyph;
use echoinput::keystrokes::{BubbleKind, DisplayKey, KeyLabel, Keystroke, KeystrokeState, Modifiers};

fn typed(ch: char) -> Keystroke {
    Keystroke {
        key: DisplayKey::Char(ch.to_ascii_uppercase()),
        modifiers: Modifiers::default(),
        text: Some(ch.to_string()),
    }
}

fn key(k: DisplayKey, modifiers: Modifiers) -> Keystroke {
    Keystroke { key: k, modifiers, text: None }
}

fn label_strings(labels: &[KeyLabel]) -> Vec<String> {
    labels
        .iter()
        .map(|label| match label {
            KeyLabel::Text(t) => format!("text:{t}"),
            KeyLabel::Char(c) => format!("char:{c}"),
            KeyLabel::Icon(g) => format!("icon:{g:?}"),
        })
        .collect()
}

#[test]
fn empty_display_has_no_rows() {
    let state = KeystrokeState::new(5);
    assert!(state.display_rows().is_empty());
}

#[test]
fn typed_word_row_shows_text_then_delimiter() {
    let mut state = KeystrokeState::new(5);
    state.handle_keystroke(typed('h'), 0);
    state.handle_keystroke(typed('i'), 10);
    state.handle_keystroke(key(DisplayKey::Enter, Modifiers::default()), 20);
    let rows = state.display_rows();
    assert_eq!(rows.len(), 1);
    assert_eq!(rows[0].kind, BubbleKind::Typing);
    assert_eq!(label_strings(&rows[0].labels), vec!["text:hi", "icon:CornerDownLeft"]);
    assert!(rows[0].repeat.is_none());
}

#[test]
fn typing_row_comes_after_history() {
    let mut state = KeystrokeState::new(5);
    state.handle_keystroke(key(DisplayKey::Escape, Modifiers::default()), 0);
    state.handle_keystroke(typed('o'), 10);
    state.handle_keystroke(typed('k'), 20);
    let rows = state.display_rows();
    assert_eq!(rows.len(), 2);
    assert_eq!(rows[0].kind, BubbleKind::Special);
    assert_eq!(label_strings(&rows[0].labels), vec!["icon:CircleArrowOutUpLeft"]);
    assert_eq!(rows[1].kind, BubbleKind::Typing);
    assert_eq!(label_strings(&rows[1].labels), vec!["text:ok"]);
    assert!(rows[1].repeat.is_none());
}

#[test]
fn repeated_shortcut_shows_modifiers_and_count() {
    let mut state = KeystrokeState::new(5);
    let chord = Modifiers { control: true, shift: true, ..Modifiers::default() };
    state.handle_keystroke(key(DisplayKey::Char('S'), chord), 0);
    state.handle_keystroke(key(DisplayKey::Char('S'), chord), 10);
    state.handle_keystroke(key(DisplayKey::Char('S'), chord), 20);
    let rows = state.display_rows();
    assert_eq!(rows.len(), 1);
    assert_eq!(rows[0].kind, BubbleKind::Shortcut);
    assert_eq!(
        label_strings(&rows[0].labels),
        vec!["icon:ChevronUp", "icon:ArrowBigUp", "char:S"]
    );
    assert_eq!(rows[0].repeat.as_deref(), Some("×3"));
}

#[test]
fn function_key_row_shows_its_number() {
    let mut state = KeystrokeState::new(5);
    state.handle_keystroke(key(DisplayKey::F(11), Modifiers::default()), 0);
    let rows = state.display_rows();
    assert_eq!(label_strings(&rows[0].labels), vec!["text:F11"]);
}

#[test]
fn repeat_marker_only_after_second_count() {
    assert_eq!(repeat_marker_text(0), None);
    assert_eq!(repeat_marker_text(1), None);
    assert_eq!(repeat_marker_text(2).as_deref(), Some("×2"));
    assert_eq!(repeat_marker_text(105).as_deref(), Some("×105"));
}

#[test]
fn modifier_row_lights_held_modifiers() {
    let held = Modifiers { alt: true, meta: true, ..Modifiers::default() };
    assert_eq!(
        modifier_indicators(&held),
        vec![
            ModifierIndicator { glyph: Glyph::ChevronUp, held: false },
            ModifierIndicator { glyph: Glyph::Option, held: true },
            ModifierIndicator { glyph: Glyph::ArrowBigUp, held: false },
            ModifierIndicator { glyph: Glyph::Command, held: true },
        ]
    );
}
