use echoinput::input::GlobalInputEvent;
use echoinput::overlay::{Overlay, WindowChange};
use echoinput::rdev::{Event, EventType, Key};
use echoinput::settings::{PlacementAnchor, Settings, SettingsAction, SettingsMessage};

fn press(key: Key, name: Option<&str>) -> GlobalInputEvent {
    GlobalInputEvent::Event(Event { name: name.map(|s| s.to_string()), event_type: EventType::KeyPress(key) })
}

#[test]
fn input_reaches_keystroke_display() {
    let mut o = Overlay::new(Settings::default());
    assert!(o.handle_input(press(Key::KeyH, Some("h")), 0).is_none());
    assert!(o.handle_input(press(Key::KeyI, Some("i")), 10).is_none());
    assert_eq!(o.keystrokes.active, "hi");
    o.tick(2000);
    assert_eq!(o.keystrokes.active, "");
    assert_eq!(o.keystrokes.history.len(), 1);
    o.tick(7000);
    assert!(o.keystrokes.history.is_empty());
}

#[test]
fn listener_failure_is_reported() {
    let mut o = Overlay::new(Settings::default());
    let r = o.handle_input(GlobalInputEvent::ListenerFailed("KeyboardError".to_string()), 0);
    assert_eq!(r.as_deref(), Some("KeyboardError"));
}

#[test]
fn modifiers_are_tracked() {
    let mut o = Overlay::new(Settings::default());
    o.handle_input(press(Key::ControlLeft, None), 0);
    assert!(o.input.modifiers().control);
    o.handle_input(press(Key::KeyC, Some("c")), 1);
    assert_eq!(o.keystrokes.history.len(), 1);
    assert_eq!(o.keystrokes.active, "");
}

#[test]
fn settings_changes_ask_for_window_changes() {
    let mut o = Overlay::new(Settings::default());
    let same = Settings::default();
    assert_eq!(o.apply_settings(same), WindowChange::Unchanged);
    let mut moved = Settings::default();
    moved.placement.anchor = PlacementAnchor::TopRight;
    assert_eq!(o.apply_settings(moved), WindowChange::Move);
    let mut longer = moved;
    longer.history_limit = 8;
    assert_eq!(o.apply_settings(longer), WindowChange::ResizeAndMove);
    assert_eq!(o.keystrokes.history_limit(), 8);
}

#[test]
fn settings_form_flow() {
    let mut o = Overlay::new(Settings::default());
    assert!(o.open_settings());
    assert!(!o.open_settings());
    o.update_settings(SettingsMessage::HistoryLimitChanged("3".to_string()));
    let saved = match o.update_settings(SettingsMessage::Save) {
        Some(SettingsAction::Save(s)) => s,
        _ => panic!("expected save"),
    };
    assert_eq!(saved.history_limit, 3);
    assert_eq!(o.settings_saved(saved), WindowChange::ResizeAndMove);
    assert_eq!(o.settings.history_limit, 3);
    assert_eq!(o.settings_form.as_ref().unwrap().history_limit, "3");
    o.close_settings();
    assert!(o.settings_form.is_none());
}
