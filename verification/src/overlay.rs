//! The decisions of the overlay application: what each input, tick and settings
//! interaction does to the keystroke display and the settings.

use vstd::prelude::*;

use crate::input::{modifiers_of, GlobalInputEvent, InputEvent, InputNormalizer};
use crate::keystrokes::KeystrokeState;
use crate::rdev::opt_text;
use crate::settings::{form_of, Settings, SettingsAction, SettingsForm, SettingsMessage};

verus! {

/// How the keystroke window has to change after the settings changed.
#[derive(Debug, Clone, Copy, PartialEq, Eq, Structural)]
pub enum WindowChange {
    /// Neither size nor placement changed.
    Unchanged,
    /// The placement changed: move the window.
    Move,
    /// The history limit changed: resize and move the window.
    ResizeAndMove,
}

/// The application state that does not depend on windows: the keystroke display,
/// the input normalizer, the settings in force and the open settings form.
#[derive(Debug)]
pub struct Overlay {
    pub keystrokes: KeystrokeState,
    pub input: InputNormalizer,
    pub settings: Settings,
    pub settings_form: Option<SettingsForm>,
}

impl Overlay {
    /// The state at start-up with `settings`: nothing typed, no modifier held,
    /// no settings form open.
    pub fn new(settings: Settings) -> (r: Self)
        ensures
            r.keystrokes@.history_limit == settings.history_limit,
            r.keystrokes@.active.len() == 0,
            r.keystrokes@.history.len() == 0,
            r.keystrokes@.last_key_at is None,
            r.input@.pressed.is_empty(),
            r.input@.modifiers == modifiers_of(Set::<crate::rdev::Key>::empty()),
            r.settings == settings,
            r.settings_form is None,
    {
        Overlay {
            keystrokes: KeystrokeState::new(settings.history_limit),
            input: InputNormalizer::new(),
            settings,
            settings_form: None,
        }
    }

    /// Handles one event of the global input listener at `now`: raw events are
    /// normalized, and keystrokes update the display. A listener failure changes
    /// nothing and is handed back so that it can be reported.
    pub fn handle_input(&mut self, event: GlobalInputEvent, now: u64) -> (r: Option<String>)
        requires
            old(self).keystrokes@.count_has_room(),
        ensures
            final(self).settings == old(self).settings,
            final(self).settings_form == old(self).settings_form,
            match event {
                GlobalInputEvent::ListenerFailed(e) => r == Some(e) && final(self).keystrokes@
                    == old(self).keystrokes@ && final(self).input@ == old(self).input@,
                GlobalInputEvent::Event(e) => r is None && {
                    let (n, out) = old(self).input@.handle_event(e.event_type, opt_text(e.name));
                    &&& final(self).input@ == n
                    &&& final(self).keystrokes@ == match out {
                        Some(crate::input::InputEventView::Keystroke(k)) => old(
                            self,
                        ).keystrokes@.handle_keystroke(k, now),
                        _ => old(self).keystrokes@,
                    }
                },
            },
    {
        match event {
            GlobalInputEvent::ListenerFailed(e) => Some(e),
            GlobalInputEvent::Event(e) => {
                match self.input.handle_event(e) {
                    Some(InputEvent::Keystroke(k)) => {
                        self.keystrokes.handle_keystroke(k, now);
                    },
                    _ => {},
                }
                None
            },
        }
    }

    /// The periodic tick at `now`: finalizes the typing row after a pause and
    /// drops the expired rows.
    pub fn tick(&mut self, now: u64)
        ensures
            final(self).keystrokes@ == old(self).keystrokes@.finalize_if_inactive(
                now,
            ).prune_expired(now),
            final(self).input@ == old(self).input@,
            final(self).settings == old(self).settings,
            final(self).settings_form == old(self).settings_form,
    {
        self.keystrokes.finalize_if_inactive(now);
        self.keystrokes.prune_expired(now);
    }

    /// Puts `settings` in force: a new history limit is applied to the display
    /// and asks for a resized window; a new placement asks for a move.
    pub fn apply_settings(&mut self, settings: Settings) -> (r: WindowChange)
        ensures
            final(self).settings == settings,
            final(self).settings_form == old(self).settings_form,
            final(self).input@ == old(self).input@,
            final(self).keystrokes@ == if settings.history_limit != old(
                self,
            ).settings.history_limit {
                old(self).keystrokes@.set_history_limit(settings.history_limit)
            } else {
                old(self).keystrokes@
            },
            r == if settings.history_limit != old(self).settings.history_limit {
                WindowChange::ResizeAndMove
            } else if settings.placement != old(self).settings.placement {
                WindowChange::Move
            } else {
                WindowChange::Unchanged
            },
    {
        let old_settings = self.settings;
        self.settings = settings;
        let history_limit_changed = self.settings.history_limit != old_settings.history_limit;
        let placement_changed = self.settings.placement != old_settings.placement;
        if history_limit_changed {
            self.keystrokes.set_history_limit(self.settings.history_limit);
        }
        if history_limit_changed {
            WindowChange::ResizeAndMove
        } else if placement_changed {
            WindowChange::Move
        } else {
            WindowChange::Unchanged
        }
    }

    /// Opens the settings form with the settings in force, unless it is already
    /// open; says whether it was opened now.
    pub fn open_settings(&mut self) -> (r: bool)
        ensures
            r == old(self).settings_form is None,
            final(self).settings_form is Some,
            r ==> final(self).settings_form->0@ == form_of(old(self).settings),
            !r ==> final(self).settings_form->0@ == old(self).settings_form->0@,
            final(self).settings == old(self).settings,
            final(self).keystrokes@ == old(self).keystrokes@,
            final(self).input@ == old(self).input@,
    {
        if self.settings_form.is_some() {
            return false;
        }
        self.settings_form = Some(SettingsForm::new(&self.settings));
        true
    }

    /// The settings window was closed: forget its form.
    pub fn close_settings(&mut self)
        ensures
            final(self).settings_form is None,
            final(self).settings == old(self).settings,
            final(self).keystrokes@ == old(self).keystrokes@,
            final(self).input@ == old(self).input@,
    {
        self.settings_form = None;
    }

    /// Passes an interaction to the open settings form.
    pub fn update_settings(&mut self, message: SettingsMessage) -> (r: Option<SettingsAction>)
        requires
            old(self).settings_form is Some,
        ensures
            final(self).settings_form is Some,
            final(self).settings == old(self).settings,
            final(self).settings_form->0@ == old(self).settings_form->0@.updated(message),
            r == old(self).settings_form->0@.action(message),
            final(self).keystrokes@ == old(self).keystrokes@,
            final(self).input@ == old(self).input@,
    {
        let mut form = self.settings_form.take().unwrap();
        let r = form.update(message);
        self.settings_form = Some(form);
        r
    }

    /// The settings were saved: the open form shows them and they are put in
    /// force.
    pub fn settings_saved(&mut self, settings: Settings) -> (r: WindowChange)
        ensures
            final(self).settings == settings,
            final(self).settings_form is Some,
            final(self).settings_form->0@ == form_of(settings),
            final(self).input@ == old(self).input@,
            final(self).keystrokes@ == if settings.history_limit != old(
                self,
            ).settings.history_limit {
                old(self).keystrokes@.set_history_limit(settings.history_limit)
            } else {
                old(self).keystrokes@
            },
            r == if settings.history_limit != old(self).settings.history_limit {
                WindowChange::ResizeAndMove
            } else if settings.placement != old(self).settings.placement {
                WindowChange::Move
            } else {
                WindowChange::Unchanged
            },
    {
        self.settings_form = Some(SettingsForm::new(&settings));
        self.apply_settings(settings)
    }

    /// Whether the newest history row can be counted once more; a keystroke is
    /// handled only while it can.
    pub fn can_count_repeat(&self) -> (r: bool)
        ensures
            r == self.keystrokes@.count_has_room(),
    {
        self.keystrokes.can_count_repeat()
    }
}

} // verus!
