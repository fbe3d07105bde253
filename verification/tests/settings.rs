use echoinput::settings::{
    clamp_history_limit, KeystrokeVisibility, Placement, PlacementAnchor, Settings,
    SettingsAction, SettingsForm, SettingsMessage, MAX_HISTORY_LIMIT, MIN_HISTORY_LIMIT,
};

#[test]
fn defaults() {
    let s = Settings::default();
    assert_eq!(s.history_limit, 5);
    assert_eq!(s.placement, Placement { anchor: PlacementAnchor::BottomLeft, margin_x: 40, margin_y: 40 });
    assert_eq!(
        s.visibility,
        KeystrokeVisibility { typing: true, shortcuts: true, special_keys: true, modifier_row: true }
    );
}

#[test]
fn form_shows_settings_in_decimal() {
    let form = SettingsForm::new(&Settings::default());
    assert_eq!(form.history_limit, "5");
    assert_eq!(form.margin_x, "40");
    assert_eq!(form.margin_y, "40");
    assert_eq!(form.anchor, PlacementAnchor::BottomLeft);
}

#[test]
fn form_round_trip() {
    let s = Settings {
        history_limit: 10,
        visibility: KeystrokeVisibility { typing: false, shortcuts: true, special_keys: false, modifier_row: true },
        placement: Placement { anchor: PlacementAnchor::TopRight, margin_x: 0, margin_y: u32::MAX },
    };
    assert_eq!(SettingsForm::new(&s).settings(), Some(s));
}

#[test]
fn history_limit_validation() {
    let mut form = SettingsForm::new(&Settings::default());
    for (text, valid) in [
        ("1", true),
        ("10", true),
        ("+7", true),
        ("007", true),
        ("0", false),
        ("11", false),
        ("", false),
        ("+", false),
        ("-1", false),
        (" 5", false),
        ("5a", false),
        ("99999999999999999999999", false),
    ] {
        form.update(SettingsMessage::HistoryLimitChanged(text.to_string()));
        assert_eq!(form.history_limit_is_valid(), valid, "{text:?}");
        assert_eq!(form.settings().is_some(), valid, "{text:?}");
    }
}

#[test]
fn margin_validation() {
    let mut form = SettingsForm::new(&Settings::default());
    form.update(SettingsMessage::MarginXChanged("4294967295".to_string()));
    assert!(form.margin_x_is_valid());
    form.update(SettingsMessage::MarginXChanged("4294967296".to_string()));
    assert!(!form.margin_x_is_valid());
    assert!(form.settings().is_none());
    form.update(SettingsMessage::MarginYChanged("x".to_string()));
    assert!(!form.margin_y_is_valid());
}

#[test]
fn save_yields_settings_only_when_valid() {
    let mut form = SettingsForm::new(&Settings::default());
    assert!(form.update(SettingsMessage::AnchorChanged(PlacementAnchor::TopLeft)).is_none());
    assert!(form.update(SettingsMessage::TypingVisibilityChanged(false)).is_none());
    assert!(form.update(SettingsMessage::MarginYChanged("12".to_string())).is_none());
    match form.update(SettingsMessage::Save) {
        Some(SettingsAction::Save(s)) => {
            assert_eq!(s.placement.anchor, PlacementAnchor::TopLeft);
            assert_eq!(s.placement.margin_y, 12);
            assert!(!s.visibility.typing);
            assert_eq!(s.history_limit, 5);
        },
        _ => panic!("expected save"),
    }
    form.update(SettingsMessage::HistoryLimitChanged("0".to_string()));
    assert!(form.update(SettingsMessage::Save).is_none());
}

#[test]
fn edit_json_is_requested() {
    let mut form = SettingsForm::new(&Settings::default());
    assert!(matches!(form.update(SettingsMessage::EditJson), Some(SettingsAction::EditJson)));
}

#[test]
fn visibility_toggles() {
    let mut form = SettingsForm::new(&Settings::default());
    form.update(SettingsMessage::ShortcutsVisibilityChanged(false));
    form.update(SettingsMessage::SpecialKeysVisibilityChanged(false));
    form.update(SettingsMessage::ModifierRowVisibilityChanged(false));
    assert_eq!(
        form.visibility,
        KeystrokeVisibility { typing: true, shortcuts: false, special_keys: false, modifier_row: false }
    );
}

#[test]
fn history_limit_clamping() {
    assert_eq!(clamp_history_limit(0), MIN_HISTORY_LIMIT);
    assert_eq!(clamp_history_limit(3), 3);
    assert_eq!(clamp_history_limit(100), MAX_HISTORY_LIMIT);
}

#[test]
fn anchor_sides_and_labels() {
    assert!(PlacementAnchor::TopLeft.is_top());
    assert!(!PlacementAnchor::BottomRight.is_top());
    assert!(PlacementAnchor::BottomRight.is_right());
    assert!(!PlacementAnchor::TopLeft.is_right());
    assert_eq!(PlacementAnchor::TopLeft.label(), "Top left");
    assert_eq!(PlacementAnchor::TopRight.label(), "Top right");
    assert_eq!(PlacementAnchor::BottomLeft.label(), "Bottom left");
    assert_eq!(PlacementAnchor::BottomRight.label(), "Bottom right");
}
