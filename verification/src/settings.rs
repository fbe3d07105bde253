//! User settings and the form that edits them.

use vstd::prelude::*;

use crate::text::{decimal, decimal_string, lemma_decimal_parses_back, parse_at_most, parse_at_most_u64};

verus! {

/// Fewest history rows a user can choose.
pub const MIN_HISTORY_LIMIT: usize = 1;

/// Most history rows a user can choose.
pub const MAX_HISTORY_LIMIT: usize = 10;

/// Which kinds of keystrokes are shown.
#[derive(Debug, Clone, Copy, PartialEq, Eq, Structural)]
pub struct KeystrokeVisibility {
    pub typing: bool,
    pub shortcuts: bool,
    pub special_keys: bool,
    pub modifier_row: bool,
}

impl Default for KeystrokeVisibility {
    /// Everything is shown.
    fn default() -> (r: Self)
        ensures
            r == (KeystrokeVisibility {
                typing: true,
                shortcuts: true,
                special_keys: true,
                modifier_row: true,
            }),
    {
        KeystrokeVisibility { typing: true, shortcuts: true, special_keys: true, modifier_row: true }
    }
}

/// The screen corner that the keystroke window is anchored to.
#[derive(Debug, Clone, Copy, PartialEq, Eq, Structural)]
pub enum PlacementAnchor {
    TopLeft,
    TopRight,
    BottomLeft,
    BottomRight,
}

impl PlacementAnchor {
    /// Whether the anchor is a top corner.
    pub fn is_top(&self) -> (r: bool)
        ensures
            r == (*self is TopLeft || *self is TopRight),
    {
        matches!(self, PlacementAnchor::TopLeft | PlacementAnchor::TopRight)
    }

    /// Whether the anchor is a right corner.
    pub fn is_right(&self) -> (r: bool)
        ensures
            r == (*self is TopRight || *self is BottomRight),
    {
        matches!(self, PlacementAnchor::TopRight | PlacementAnchor::BottomRight)
    }

    /// The name of the corner as shown to users.
    pub fn label(&self) -> (r: String)
        ensures
            r@ == anchor_label(*self),
    {
        match self {
            PlacementAnchor::TopLeft => {
                proof {
                    reveal_strlit("Top left");
                }
                let s = String::from_str("Top left");
                assert(s@ =~= anchor_label(*self));
                s
            },
            PlacementAnchor::TopRight => {
                proof {
                    reveal_strlit("Top right");
                }
                let s = String::from_str("Top right");
                assert(s@ =~= anchor_label(*self));
                s
            },
            PlacementAnchor::BottomLeft => {
                proof {
                    reveal_strlit("Bottom left");
                }
                let s = String::from_str("Bottom left");
                assert(s@ =~= anchor_label(*self));
                s
            },
            PlacementAnchor::BottomRight => {
                proof {
                    reveal_strlit("Bottom right");
                }
                let s = String::from_str("Bottom right");
                assert(s@ =~= anchor_label(*self));
                s
            },
        }
    }
}

/// The name of each corner as shown to users.
pub open spec fn anchor_label(anchor: PlacementAnchor) -> Seq<char> {
    match anchor {
        PlacementAnchor::TopLeft => seq!['T', 'o', 'p', ' ', 'l', 'e', 'f', 't'],
        PlacementAnchor::TopRight => seq!['T', 'o', 'p', ' ', 'r', 'i', 'g', 'h', 't'],
        PlacementAnchor::BottomLeft => seq!['B', 'o', 't', 't', 'o', 'm', ' ', 'l', 'e', 'f', 't'],
        PlacementAnchor::BottomRight => seq![
            'B',
            'o',
            't',
            't',
            'o',
            'm',
            ' ',
            'r',
            'i',
            'g',
            'h',
            't',
        ],
    }
}

/// Where the keystroke window stands: a corner and the distances from its edges.
#[derive(Debug, Clone, Copy, PartialEq, Eq, Structural)]
pub struct Placement {
    pub anchor: PlacementAnchor,
    pub margin_x: u32,
    pub margin_y: u32,
}

impl Default for Placement {
    /// Bottom left, 40 logical pixels from both edges.
    fn default() -> (r: Self)
        ensures
            r == (Placement { anchor: PlacementAnchor::BottomLeft, margin_x: 40, margin_y: 40 }),
    {
        Placement { anchor: PlacementAnchor::BottomLeft, margin_x: 40, margin_y: 40 }
    }
}

/// All user settings.
#[derive(Debug, Clone, Copy, PartialEq, Eq, Structural)]
pub struct Settings {
    pub history_limit: usize,
    pub visibility: KeystrokeVisibility,
    pub placement: Placement,
}

/// The settings a new installation starts with.
pub open spec fn default_settings() -> Settings {
    Settings {
        history_limit: 5,
        visibility: KeystrokeVisibility {
            typing: true,
            shortcuts: true,
            special_keys: true,
            modifier_row: true,
        },
        placement: Placement { anchor: PlacementAnchor::BottomLeft, margin_x: 40, margin_y: 40 },
    }
}

impl Default for Settings {
    /// Five history rows, everything shown, bottom left with 40 pixel margins.
    fn default() -> (r: Self)
        ensures
            r == default_settings(),
    {
        Settings {
            history_limit: 5,
            visibility: KeystrokeVisibility::default(),
            placement: Placement::default(),
        }
    }
}

/// A stored history limit brought into the range users can choose.
pub open spec fn clamped_history_limit(value: usize) -> usize {
    if value < MIN_HISTORY_LIMIT {
        MIN_HISTORY_LIMIT
    } else if value > MAX_HISTORY_LIMIT {
        MAX_HISTORY_LIMIT
    } else {
        value
    }
}

/// Brings a history limit read from the settings file into the range users can
/// choose.
pub fn clamp_history_limit(value: usize) -> (r: usize)
    ensures
        r == clamped_history_limit(value),
        MIN_HISTORY_LIMIT <= r <= MAX_HISTORY_LIMIT,
{
    if value < MIN_HISTORY_LIMIT {
        MIN_HISTORY_LIMIT
    } else if value > MAX_HISTORY_LIMIT {
        MAX_HISTORY_LIMIT
    } else {
        value
    }
}

/// The history limit text is a number of rows users can choose.
pub open spec fn history_limit_text_valid(text: Seq<char>) -> bool {
    match parse_at_most(text, usize::MAX as nat) {
        Some(v) => MIN_HISTORY_LIMIT <= v <= MAX_HISTORY_LIMIT,
        None => false,
    }
}

/// A margin text is a number that fits in 32 bits.
pub open spec fn margin_text_valid(text: Seq<char>) -> bool {
    parse_at_most(text, u32::MAX as nat) is Some
}

/// The settings form as the user edits it: numbers are kept as typed.
#[derive(Debug)]
pub struct SettingsForm {
    pub history_limit: String,
    pub visibility: KeystrokeVisibility,
    pub anchor: PlacementAnchor,
    pub margin_x: String,
    pub margin_y: String,
}

/// The content of the settings form.
pub struct SettingsFormView {
    pub history_limit: Seq<char>,
    pub visibility: KeystrokeVisibility,
    pub anchor: PlacementAnchor,
    pub margin_x: Seq<char>,
    pub margin_y: Seq<char>,
}

impl View for SettingsForm {
    type V = SettingsFormView;

    open spec fn view(&self) -> SettingsFormView {
        SettingsFormView {
            history_limit: self.history_limit@,
            visibility: self.visibility,
            anchor: self.anchor,
            margin_x: self.margin_x@,
            margin_y: self.margin_y@,
        }
    }
}

/// The form that shows `s`: numbers in decimal.
pub open spec fn form_of(s: Settings) -> SettingsFormView {
    SettingsFormView {
        history_limit: decimal(s.history_limit as nat),
        visibility: s.visibility,
        anchor: s.placement.anchor,
        margin_x: decimal(s.placement.margin_x as nat),
        margin_y: decimal(s.placement.margin_y as nat),
    }
}

impl SettingsFormView {
    /// The form after an interaction: an edit replaces its field, and `Save` and
    /// `EditJson` leave the form as it is.
    pub open spec fn updated(self, message: SettingsMessage) -> SettingsFormView {
        match message {
            SettingsMessage::HistoryLimitChanged(v) => SettingsFormView { history_limit: v@, ..self },
            SettingsMessage::TypingVisibilityChanged(v) => SettingsFormView {
                visibility: KeystrokeVisibility { typing: v, ..self.visibility },
                ..self
            },
            SettingsMessage::ShortcutsVisibilityChanged(v) => SettingsFormView {
                visibility: KeystrokeVisibility { shortcuts: v, ..self.visibility },
                ..self
            },
            SettingsMessage::SpecialKeysVisibilityChanged(v) => SettingsFormView {
                visibility: KeystrokeVisibility { special_keys: v, ..self.visibility },
                ..self
            },
            SettingsMessage::ModifierRowVisibilityChanged(v) => SettingsFormView {
                visibility: KeystrokeVisibility { modifier_row: v, ..self.visibility },
                ..self
            },
            SettingsMessage::AnchorChanged(v) => SettingsFormView { anchor: v, ..self },
            SettingsMessage::MarginXChanged(v) => SettingsFormView { margin_x: v@, ..self },
            SettingsMessage::MarginYChanged(v) => SettingsFormView { margin_y: v@, ..self },
            SettingsMessage::Save => self,
            SettingsMessage::EditJson => self,
        }
    }

    /// The side effect an interaction asks for: `Save` asks to save the settings
    /// when the form is valid, `EditJson` asks to open the settings file, and
    /// edits ask for nothing.
    pub open spec fn action(self, message: SettingsMessage) -> Option<SettingsAction> {
        match message {
            SettingsMessage::Save => match self.settings() {
                Some(s) => Some(SettingsAction::Save(s)),
                None => None,
            },
            SettingsMessage::EditJson => Some(SettingsAction::EditJson),
            _ => None,
        }
    }

    /// The settings the form describes, when all of its numbers are valid.
    pub open spec fn settings(self) -> Option<Settings> {
        if history_limit_text_valid(self.history_limit) && margin_text_valid(self.margin_x)
            && margin_text_valid(self.margin_y) {
            Some(
                Settings {
                    history_limit: parse_at_most(self.history_limit, usize::MAX as nat)->0 as usize,
                    visibility: self.visibility,
                    placement: Placement {
                        anchor: self.anchor,
                        margin_x: parse_at_most(self.margin_x, u32::MAX as nat)->0 as u32,
                        margin_y: parse_at_most(self.margin_y, u32::MAX as nat)->0 as u32,
                    },
                },
            )
        } else {
            None
        }
    }
}

/// A user interaction originating from the settings UI.
#[derive(Debug, Clone)]
pub enum SettingsMessage {
    HistoryLimitChanged(String),
    TypingVisibilityChanged(bool),
    ShortcutsVisibilityChanged(bool),
    SpecialKeysVisibilityChanged(bool),
    ModifierRowVisibilityChanged(bool),
    AnchorChanged(PlacementAnchor),
    MarginXChanged(String),
    MarginYChanged(String),
    Save,
    EditJson,
}

/// A side effect requested by a settings form interaction.
#[derive(Debug)]
pub enum SettingsAction {
    Save(Settings),
    EditJson,
}

impl SettingsForm {
    /// The form that shows `settings`.
    pub fn new(settings: &Settings) -> (r: Self)
        ensures
            r@ == form_of(*settings),
    {
        SettingsForm {
            history_limit: decimal_string(settings.history_limit as u64),
            visibility: settings.visibility,
            anchor: settings.placement.anchor,
            margin_x: decimal_string(settings.placement.margin_x as u64),
            margin_y: decimal_string(settings.placement.margin_y as u64),
        }
    }

    /// Applies one interaction: edits change their field, `Save` asks to save the
    /// settings when the form is valid, and `EditJson` asks to open the file.
    pub fn update(&mut self, message: SettingsMessage) -> (r: Option<SettingsAction>)
        ensures
            final(self)@ == old(self)@.updated(message),
            r == old(self)@.action(message),
    {
        match message {
            SettingsMessage::HistoryLimitChanged(value) => self.history_limit = value,
            SettingsMessage::TypingVisibilityChanged(value) => self.visibility.typing = value,
            SettingsMessage::ShortcutsVisibilityChanged(value) => self.visibility.shortcuts = value,
            SettingsMessage::SpecialKeysVisibilityChanged(value) => {
                self.visibility.special_keys = value
            },
            SettingsMessage::ModifierRowVisibilityChanged(value) => {
                self.visibility.modifier_row = value
            },
            SettingsMessage::AnchorChanged(value) => self.anchor = value,
            SettingsMessage::MarginXChanged(value) => self.margin_x = value,
            SettingsMessage::MarginYChanged(value) => self.margin_y = value,
            SettingsMessage::Save => {
                return match self.settings() {
                    Some(s) => Some(SettingsAction::Save(s)),
                    None => None,
                };
            },
            SettingsMessage::EditJson => return Some(SettingsAction::EditJson),
        }
        None
    }

    /// The settings the form describes, or `None` while a number is invalid.
    pub fn settings(&self) -> (r: Option<Settings>)
        ensures
            r == self@.settings(),
    {
        if !self.history_limit_is_valid() || !self.margin_x_is_valid() || !self.margin_y_is_valid() {
            return None;
        }
        let history_limit = parse_at_most_u64(self.history_limit.as_str(), usize::MAX as u64);
        let margin_x = parse_at_most_u64(self.margin_x.as_str(), u32::MAX as u64);
        let margin_y = parse_at_most_u64(self.margin_y.as_str(), u32::MAX as u64);
        match (history_limit, margin_x, margin_y) {
            (Some(h), Some(x), Some(y)) => Some(
                Settings {
                    history_limit: h as usize,
                    visibility: self.visibility,
                    placement: Placement {
                        anchor: self.anchor,
                        margin_x: x as u32,
                        margin_y: y as u32,
                    },
                },
            ),
            _ => None,
        }
    }

    /// Whether the history limit is a number of rows users can choose.
    pub fn history_limit_is_valid(&self) -> (r: bool)
        ensures
            r == history_limit_text_valid(self.history_limit@),
    {
        match parse_at_most_u64(self.history_limit.as_str(), usize::MAX as u64) {
            Some(value) => MIN_HISTORY_LIMIT as u64 <= value && value <= MAX_HISTORY_LIMIT as u64,
            None => false,
        }
    }

    /// Whether the horizontal margin is a number that fits in 32 bits.
    pub fn margin_x_is_valid(&self) -> (r: bool)
        ensures
            r == margin_text_valid(self.margin_x@),
    {
        parse_at_most_u64(self.margin_x.as_str(), u32::MAX as u64).is_some()
    }

    /// Whether the vertical margin is a number that fits in 32 bits.
    pub fn margin_y_is_valid(&self) -> (r: bool)
        ensures
            r == margin_text_valid(self.margin_y@),
    {
        parse_at_most_u64(self.margin_y.as_str(), u32::MAX as u64).is_some()
    }
}

/// A form made from settings whose history limit users can choose gives back the
/// same settings.
pub proof fn lemma_form_round_trip(s: Settings)
    requires
        MIN_HISTORY_LIMIT <= s.history_limit <= MAX_HISTORY_LIMIT,
    ensures
        form_of(s).settings() == Some(s),
{
    lemma_decimal_parses_back(s.history_limit as nat);
    lemma_decimal_parses_back(s.placement.margin_x as nat);
    lemma_decimal_parses_back(s.placement.margin_y as nat);
}

/// A form is valid exactly when all three of its numbers are.
pub proof fn lemma_form_valid_iff_fields_valid(f: SettingsFormView)
    ensures
        f.settings() is Some <==> (history_limit_text_valid(f.history_limit) && margin_text_valid(
            f.margin_x,
        ) && margin_text_valid(f.margin_y)),
{
}

} // verus!
