use echoinput::icons::Glyph;
use echoinput::keystrokes::{
    BubbleKind, BubblePart, DisplayKey, KeyBubble, KeyLabel, Keystroke, KeystrokeState,
    Modifiers, BUBBLE_TTL_MS, INACTIVITY_TIMEOUT_MS, MAX_ACTIVE_TEXT_LEN,
};
use echoinput::rdev::Key;

fn no_mods() -> Modifiers {
    Modifiers::default()
}

fn ctrl() -> Modifiers {
    Modifiers { control: true, ..Modifiers::default() }
}

fn shift() -> Modifiers {
    Modifiers { shift: true, ..Modifiers::default() }
}

fn typed(ch: char) -> Keystroke {
    Keystroke {
        key: DisplayKey::Char(ch.to_ascii_uppercase()),
        modifiers: no_mods(),
        text: Some(ch.to_string()),
    }
}

fn key(k: DisplayKey, modifiers: Modifiers) -> Keystroke {
    Keystroke { key: k, modifiers, text: None }
}

fn type_str(state: &mut KeystrokeState, s: &str, now: u64) {
    for ch in s.chars() {
        state.handle_keystroke(typed(ch), now);
    }
}

fn text_of(part: &BubblePart) -> Option<&str> {
    match part {
        BubblePart::Text(t) => Some(t.as_str()),
        BubblePart::Key(_) => None,
    }
}

fn key_of(part: &BubblePart) -> Option<DisplayKey> {
    match part {
        BubblePart::Text(_) => None,
        BubblePart::Key(k) => Some(k.key),
    }
}

fn last(state: &KeystrokeState) -> &KeyBubble {
    state.history.back().unwrap()
}

#[test]
fn typing_accumulates_in_active_row() {
    let mut state = KeystrokeState::new(5);
    state.handle_keystroke(typed('a'), 0);
    state.handle_keystroke(typed('b'), 100);
    assert_eq!(state.active, "ab");
    assert!(state.history.is_empty());
}

#[test]
fn inactivity_finalizes_typing_row() {
    let mut state = KeystrokeState::new(5);
    type_str(&mut state, "ab", 0);
    state.finalize_if_inactive(INACTIVITY_TIMEOUT_MS - 1);
    assert_eq!(state.active, "ab");
    state.finalize_if_inactive(INACTIVITY_TIMEOUT_MS);
    assert_eq!(state.active, "");
    assert_eq!(state.history.len(), 1);
    assert_eq!(last(&state).kind, BubbleKind::Typing);
    assert_eq!(last(&state).parts.len(), 1);
    assert_eq!(text_of(&last(&state).parts[0]), Some("ab"));
    assert_eq!(last(&state).last_updated_at(), INACTIVITY_TIMEOUT_MS);
}

#[test]
fn finalize_if_inactive_twice_is_once() {
    let mut state = KeystrokeState::new(5);
    type_str(&mut state, "xy", 10);
    state.finalize_if_inactive(2000);
    state.finalize_if_inactive(2000);
    assert_eq!(state.history.len(), 1);
    assert_eq!(state.active, "");
}

#[test]
fn pause_before_typing_starts_new_row() {
    let mut state = KeystrokeState::new(5);
    type_str(&mut state, "ab", 0);
    state.handle_keystroke(typed('c'), 1500);
    assert_eq!(state.active, "c");
    assert_eq!(text_of(&last(&state).parts[0]), Some("ab"));
}

#[test]
fn plain_delimiter_ends_typing_row() {
    let mut state = KeystrokeState::new(5);
    type_str(&mut state, "hi", 0);
    state.handle_keystroke(key(DisplayKey::Space, no_mods()), 10);
    assert_eq!(state.active, "");
    let b = last(&state);
    assert_eq!(b.kind, BubbleKind::Typing);
    assert_eq!(b.parts.len(), 2);
    assert_eq!(text_of(&b.parts[0]), Some("hi"));
    assert_eq!(key_of(&b.parts[1]), Some(DisplayKey::Space));
    assert_eq!(b.count, 1);
}

#[test]
fn delimiters_with_text_are_not_compressed() {
    let mut state = KeystrokeState::new(5);
    type_str(&mut state, "a", 0);
    state.handle_keystroke(key(DisplayKey::Enter, no_mods()), 1);
    type_str(&mut state, "a", 2);
    state.handle_keystroke(key(DisplayKey::Enter, no_mods()), 3);
    assert_eq!(state.history.len(), 2);
    assert_eq!(state.history[0].count, 1);
    assert_eq!(state.history[1].count, 1);
}

#[test]
fn lone_delimiters_are_compressed() {
    let mut state = KeystrokeState::new(5);
    state.handle_keystroke(key(DisplayKey::Enter, no_mods()), 0);
    state.handle_keystroke(key(DisplayKey::Enter, no_mods()), 1);
    assert_eq!(state.history.len(), 1);
    assert_eq!(state.history[0].count, 2);
    assert_eq!(state.history[0].kind, BubbleKind::Typing);
}

#[test]
fn modified_delimiter_is_its_own_row() {
    let mut state = KeystrokeState::new(5);
    type_str(&mut state, "ab", 0);
    state.handle_keystroke(key(DisplayKey::Enter, shift()), 1);
    assert_eq!(state.history.len(), 2);
    assert_eq!(text_of(&state.history[0].parts[0]), Some("ab"));
    assert_eq!(state.history[1].kind, BubbleKind::Special);
    state.handle_keystroke(key(DisplayKey::Tab, ctrl()), 2);
    assert_eq!(last(&state).kind, BubbleKind::Shortcut);
}

#[test]
fn shortcut_finalizes_text_and_shows_chord() {
    let mut state = KeystrokeState::new(5);
    type_str(&mut state, "ab", 0);
    state.handle_keystroke(
        Keystroke { key: DisplayKey::Char('C'), modifiers: ctrl(), text: Some("c".to_string()) },
        5,
    );
    assert_eq!(state.active, "");
    assert_eq!(state.history.len(), 2);
    assert_eq!(text_of(&state.history[0].parts[0]), Some("ab"));
    assert_eq!(state.history[1].kind, BubbleKind::Shortcut);
    assert_eq!(key_of(&state.history[1].parts[0]), Some(DisplayKey::Char('C')));
}

#[test]
fn repeated_special_key_is_counted() {
    let mut state = KeystrokeState::new(5);
    state.handle_keystroke(key(DisplayKey::Escape, no_mods()), 0);
    state.handle_keystroke(key(DisplayKey::Escape, no_mods()), 10);
    state.handle_keystroke(key(DisplayKey::Escape, no_mods()), 20);
    assert_eq!(state.history.len(), 1);
    assert_eq!(state.history[0].count, 3);
    assert_eq!(state.history[0].kind, BubbleKind::Special);
    assert_eq!(state.history[0].last_updated_at(), 20);
}

#[test]
fn different_keys_are_not_compressed() {
    let mut state = KeystrokeState::new(5);
    state.handle_keystroke(key(DisplayKey::Escape, no_mods()), 0);
    state.handle_keystroke(key(DisplayKey::Home, no_mods()), 1);
    state.handle_keystroke(key(DisplayKey::Escape, no_mods()), 2);
    assert_eq!(state.history.len(), 3);
}

#[test]
fn backspace_deletes_last_typed_character() {
    let mut state = KeystrokeState::new(5);
    type_str(&mut state, "abc", 0);
    state.handle_keystroke(key(DisplayKey::Backspace, no_mods()), 1);
    assert_eq!(state.active, "ab");
    assert!(state.history.is_empty());
}

#[test]
fn backspace_without_text_shows_key() {
    let mut state = KeystrokeState::new(5);
    state.handle_keystroke(key(DisplayKey::Backspace, no_mods()), 0);
    assert_eq!(state.history.len(), 1);
    assert_eq!(state.history[0].kind, BubbleKind::Special);
    assert_eq!(key_of(&state.history[0].parts[0]), Some(DisplayKey::Backspace));
}

#[test]
fn backspace_after_pause_shows_key() {
    let mut state = KeystrokeState::new(5);
    type_str(&mut state, "ab", 0);
    state.handle_keystroke(key(DisplayKey::Backspace, no_mods()), 1000);
    assert_eq!(state.active, "");
    assert_eq!(state.history.len(), 2);
    assert_eq!(text_of(&state.history[0].parts[0]), Some("ab"));
    assert_eq!(key_of(&state.history[1].parts[0]), Some(DisplayKey::Backspace));
}

#[test]
fn active_text_is_capped_at_max_length() {
    let mut state = KeystrokeState::new(5);
    let text: String = "abcdefghijklmnopqrstuvwxyz".chars().take(MAX_ACTIVE_TEXT_LEN + 1).collect();
    type_str(&mut state, &text, 0);
    assert_eq!(state.history.len(), 1);
    assert_eq!(text_of(&state.history[0].parts[0]).unwrap().chars().count(), MAX_ACTIVE_TEXT_LEN);
    assert_eq!(state.active, "y");
}

#[test]
fn cap_counts_characters_not_bytes() {
    let mut state = KeystrokeState::new(5);
    let text: String = std::iter::repeat('é').take(MAX_ACTIVE_TEXT_LEN).collect();
    type_str(&mut state, &text, 0);
    assert_eq!(state.active.chars().count(), MAX_ACTIVE_TEXT_LEN);
    assert!(state.history.is_empty());
}

#[test]
fn multi_character_text_is_typed_at_once() {
    let mut state = KeystrokeState::new(5);
    state.handle_keystroke(
        Keystroke { key: DisplayKey::Char('A'), modifiers: no_mods(), text: Some("äb".to_string()) },
        0,
    );
    assert_eq!(state.active, "äb");
}

#[test]
fn history_limit_drops_oldest_rows() {
    let mut state = KeystrokeState::new(3);
    for (i, k) in [DisplayKey::Escape, DisplayKey::Home, DisplayKey::End, DisplayKey::Insert]
        .into_iter()
        .enumerate()
    {
        state.handle_keystroke(key(k, no_mods()), i as u64);
    }
    assert_eq!(state.history.len(), 3);
    assert_eq!(key_of(&state.history[0].parts[0]), Some(DisplayKey::Home));
    assert_eq!(key_of(&state.history[2].parts[0]), Some(DisplayKey::Insert));
}

#[test]
fn zero_history_limit_keeps_nothing() {
    let mut state = KeystrokeState::new(0);
    state.handle_keystroke(key(DisplayKey::Escape, no_mods()), 0);
    assert!(state.history.is_empty());
}

#[test]
fn set_history_limit_trims() {
    let mut state = KeystrokeState::new(5);
    for (i, k) in [DisplayKey::Escape, DisplayKey::Home, DisplayKey::End].into_iter().enumerate() {
        state.handle_keystroke(key(k, no_mods()), i as u64);
    }
    state.set_history_limit(2);
    assert_eq!(state.history_limit(), 2);
    assert_eq!(state.history.len(), 2);
    assert_eq!(key_of(&state.history[0].parts[0]), Some(DisplayKey::Home));
}

#[test]
fn rows_expire_after_ttl() {
    let mut state = KeystrokeState::new(5);
    state.handle_keystroke(key(DisplayKey::Escape, no_mods()), 0);
    state.handle_keystroke(key(DisplayKey::Home, no_mods()), 1000);
    state.prune_expired(BUBBLE_TTL_MS - 1);
    assert_eq!(state.history.len(), 2);
    state.prune_expired(BUBBLE_TTL_MS);
    assert_eq!(state.history.len(), 1);
    assert_eq!(key_of(&state.history[0].parts[0]), Some(DisplayKey::Home));
    state.prune_expired(BUBBLE_TTL_MS + 1000);
    assert!(state.history.is_empty());
}

#[test]
fn prune_twice_is_prune_once() {
    let mut state = KeystrokeState::new(5);
    state.handle_keystroke(key(DisplayKey::Escape, no_mods()), 0);
    state.handle_keystroke(key(DisplayKey::Home, no_mods()), 3000);
    state.prune_expired(6000);
    state.prune_expired(6000);
    assert_eq!(state.history.len(), 1);
}

#[test]
fn repeat_refreshes_expiration() {
    let mut state = KeystrokeState::new(5);
    state.handle_keystroke(key(DisplayKey::Escape, no_mods()), 0);
    state.handle_keystroke(key(DisplayKey::Escape, no_mods()), 3000);
    state.prune_expired(6000);
    assert_eq!(state.history.len(), 1);
    state.prune_expired(8000);
    assert!(state.history.is_empty());
}

#[test]
fn non_special_key_without_text_is_ignored() {
    let mut state = KeystrokeState::new(5);
    state.handle_keystroke(key(DisplayKey::Char('A'), no_mods()), 0);
    assert!(state.history.is_empty());
    assert_eq!(state.active, "");
}

#[test]
fn can_count_repeat_on_fresh_state() {
    let state = KeystrokeState::new(5);
    assert!(state.can_count_repeat());
}

#[test]
fn modifier_predicates() {
    assert!(!no_mods().any());
    assert!(shift().any());
    assert!(!shift().enables_shortcut());
    assert!(ctrl().enables_shortcut());
    assert!(Modifiers { meta: true, ..Modifiers::default() }.enables_shortcut());
    assert!(Modifiers { alt: true, ..Modifiers::default() }.enables_shortcut());
}

#[test]
fn display_keys_of_physical_keys() {
    assert_eq!(DisplayKey::from(Key::KeyA), DisplayKey::Char('A'));
    assert_eq!(DisplayKey::from(Key::Kp1), DisplayKey::Char('1'));
    assert_eq!(DisplayKey::from(Key::KpReturn), DisplayKey::Enter);
    assert_eq!(DisplayKey::from(Key::F12), DisplayKey::F(12));
    assert_eq!(DisplayKey::from(Key::KpDelete), DisplayKey::Char('.'));
    assert_eq!(DisplayKey::from(Key::ControlLeft), DisplayKey::Unknown);
    assert_eq!(DisplayKey::from(Key::Unknown(77)), DisplayKey::Unknown);
}

fn label_text(l: &KeyLabel) -> String {
    match l {
        KeyLabel::Text(t) => format!("text:{t}"),
        KeyLabel::Char(c) => format!("char:{c}"),
        KeyLabel::Icon(g) => format!("icon:{g:?}"),
    }
}

#[test]
fn labels_list_modifiers_then_key() {
    let k = Keystroke {
        key: DisplayKey::Char('S'),
        modifiers: Modifiers { control: true, shift: true, meta: true, alt: false },
        text: None,
    };
    let labels: Vec<String> = k.labels().iter().map(label_text).collect();
    assert_eq!(labels, vec!["icon:ChevronUp", "icon:ArrowBigUp", "icon:Command", "char:S"]);
}

#[test]
fn key_labels() {
    assert_eq!(label_text(&KeyLabel::from_key(DisplayKey::F(12))), "text:F12");
    assert_eq!(label_text(&KeyLabel::from_key(DisplayKey::F(1))), "text:F1");
    assert_eq!(label_text(&KeyLabel::from_key(DisplayKey::PrintScreen)), "text:PrtSc");
    assert_eq!(label_text(&KeyLabel::from_key(DisplayKey::Unknown)), "text:Unknown");
    assert_eq!(label_text(&KeyLabel::from_key(DisplayKey::Backspace)), "icon:Delete");
    assert!(matches!(KeyLabel::from_key(DisplayKey::Space), KeyLabel::Icon(Glyph::SpaceNarrow)));
    assert!(matches!(KeyLabel::from_key(DisplayKey::Char('x')), KeyLabel::Char('x')));
}

#[test]
fn typing_row_counts_toward_history_limit() {
    let mut state = KeystrokeState::new(1);
    state.handle_keystroke(key(DisplayKey::Escape, no_mods()), 0);
    assert_eq!(state.history.len(), 1);
    // Typing opens a row of its own, which takes the only place.
    state.handle_keystroke(typed('a'), 100);
    assert_eq!(state.active, "a");
    assert!(state.history.is_empty());
}

#[test]
fn typing_drops_oldest_row_when_display_is_full() {
    let mut state = KeystrokeState::new(3);
    state.handle_keystroke(key(DisplayKey::Escape, no_mods()), 0);
    state.handle_keystroke(key(DisplayKey::Tab, ctrl()), 10);
    state.handle_keystroke(key(DisplayKey::Insert, no_mods()), 20);
    assert_eq!(state.history.len(), 3);
    type_str(&mut state, "ok", 30);
    assert_eq!(state.history.len(), 2);
    assert_eq!(key_of(&state.history[0].parts[0]), Some(DisplayKey::Tab));
    assert_eq!(state.display_rows().len(), 3);
}

#[test]
fn lowering_limit_keeps_room_for_typing_row() {
    let mut state = KeystrokeState::new(5);
    state.handle_keystroke(key(DisplayKey::Escape, no_mods()), 0);
    state.handle_keystroke(key(DisplayKey::Insert, no_mods()), 10);
    type_str(&mut state, "hi", 20);
    state.set_history_limit(2);
    assert_eq!(state.history.len(), 1);
    assert_eq!(key_of(&state.history[0].parts[0]), Some(DisplayKey::Insert));
    assert_eq!(state.active, "hi");
}

#[test]
fn rows_stay_consistent_over_a_mixed_session() {
    let mut state = KeystrokeState::new(3);
    let mut now = 0;
    for round in 0..40u64 {
        now += 700;
        match round % 5 {
            0 => type_str(&mut state, "word", now),
            1 => state.handle_keystroke(key(DisplayKey::Enter, no_mods()), now),
            2 => state.handle_keystroke(key(DisplayKey::Char('C'), ctrl()), now),
            3 => state.finalize_if_inactive(now),
            _ => state.prune_expired(now),
        }
        if round == 20 {
            state.set_history_limit(2);
        }
        let visible = state.history.len() + usize::from(!state.active.is_empty());
        assert!(visible <= state.history_limit());
        for bubble in &state.history {
            assert!(bubble.count >= 1);
            assert!(!bubble.parts.is_empty());
            for part in &bubble.parts {
                if let Some(t) = text_of(part) {
                    assert!(!t.is_empty());
                }
            }
        }
    }
}
