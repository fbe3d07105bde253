//! Normalization of raw input events into keystrokes and modifier changes.

use vstd::prelude::*;

use crate::keystrokes::{display_key_of, DisplayKey, Keystroke, KeystrokeView, Modifiers};
use crate::rdev::{is_modifier_key, is_printable_text, opt_text, Event, EventType, Key};

verus! {

/// An event delivered by the global input listener.
#[derive(Debug, Clone)]
pub enum GlobalInputEvent {
    Event(Event),
    ListenerFailed(String),
}

/// What the normalizer makes of a raw event.
#[derive(Debug)]
pub enum InputEvent {
    Keystroke(Keystroke),
    ModifiersChanged(Modifiers),
}

/// The content of a normalized event.
pub enum InputEventView {
    Keystroke(KeystrokeView),
    ModifiersChanged(Modifiers),
}

impl View for InputEvent {
    type V = InputEventView;

    open spec fn view(&self) -> InputEventView {
        match self {
            InputEvent::Keystroke(k) => InputEventView::Keystroke(k@),
            InputEvent::ModifiersChanged(m) => InputEventView::ModifiersChanged(*m),
        }
    }
}

/// The view of an optional normalized event.
pub open spec fn opt_event_view(e: Option<InputEvent>) -> Option<InputEventView> {
    match e {
        Some(ev) => Some(ev@),
        None => None,
    }
}

/// The modifiers that a set of held modifier keys makes: a modifier is held when
/// either of its keys is.
pub open spec fn modifiers_of(keys: Set<Key>) -> Modifiers {
    Modifiers {
        control: keys.contains(Key::ControlLeft) || keys.contains(Key::ControlRight),
        alt: keys.contains(Key::Alt) || keys.contains(Key::AltGr),
        shift: keys.contains(Key::ShiftLeft) || keys.contains(Key::ShiftRight),
        meta: keys.contains(Key::MetaLeft) || keys.contains(Key::MetaRight),
    }
}

/// The text of an event when it is present and prints visibly.
pub open spec fn printable_name(name: Option<Seq<char>>) -> Option<Seq<char>> {
    if name is Some && is_printable_text(name->0) {
        name
    } else {
        None
    }
}

/// A stateful normalizer for global input events.
#[derive(Debug)]
pub struct InputNormalizer {
    modifiers: Modifiers,
    pressed_modifier_keys: Vec<Key>,
}

/// The state of the normalizer: the held modifiers and the modifier keys held.
pub struct InputNormalizerView {
    pub modifiers: Modifiers,
    pub pressed: Set<Key>,
}

impl View for InputNormalizer {
    type V = InputNormalizerView;

    closed spec fn view(&self) -> InputNormalizerView {
        InputNormalizerView {
            modifiers: self.modifiers,
            pressed: self.pressed_modifier_keys@.to_set(),
        }
    }
}

impl InputNormalizerView {
    /// The state after a modifier key goes down.
    pub open spec fn press(self, key: Key) -> InputNormalizerView {
        InputNormalizerView {
            modifiers: modifiers_of(self.pressed.insert(key)),
            pressed: self.pressed.insert(key),
        }
    }

    /// The state after a modifier key goes up.
    pub open spec fn release(self, key: Key) -> InputNormalizerView {
        InputNormalizerView {
            modifiers: modifiers_of(self.pressed.remove(key)),
            pressed: self.pressed.remove(key),
        }
    }

    /// The event that reports a change from `self` to `next`, if the held
    /// modifiers differ.
    pub open spec fn change_to(self, next: InputNormalizerView) -> Option<InputEventView> {
        if next.modifiers != self.modifiers {
            Some(InputEventView::ModifiersChanged(next.modifiers))
        } else {
            None
        }
    }

    /// The next state and the normalized event for a raw event: modifier keys
    /// update the held modifiers and report a change; other key presses become
    /// keystrokes with the held modifiers and the event's printable text; all
    /// other events are dropped.
    pub open spec fn handle_event(self, event_type: EventType, name: Option<Seq<char>>) -> (
        InputNormalizerView,
        Option<InputEventView>,
    ) {
        match event_type {
            EventType::KeyPress(key) => if is_modifier_key(key) {
                (self.press(key), self.change_to(self.press(key)))
            } else {
                (
                    self,
                    Some(
                        InputEventView::Keystroke(
                            KeystrokeView {
                                key: display_key_of(key),
                                modifiers: self.modifiers,
                                text: printable_name(name),
                            },
                        ),
                    ),
                )
            },
            EventType::KeyRelease(key) => if is_modifier_key(key) {
                (self.release(key), self.change_to(self.release(key)))
            } else {
                (self, None)
            },
            _ => (self, None),
        }
    }
}

impl InputNormalizer {
    /// The held modifiers always are those that the held modifier keys make.
    #[verifier::type_invariant]
    closed spec fn consistent(self) -> bool {
        &&& self.modifiers == modifiers_of(self.pressed_modifier_keys@.to_set())
        &&& self.pressed_modifier_keys@.no_duplicates()
    }

    /// A normalizer with no modifier held.
    pub fn new() -> (r: Self)
        ensures
            r@.pressed == Set::<Key>::empty(),
            r@.modifiers == modifiers_of(Set::<Key>::empty()),
    {
        let r = InputNormalizer {
            modifiers: Modifiers { control: false, alt: false, shift: false, meta: false },
            pressed_modifier_keys: Vec::new(),
        };
        proof {
            assert(r.pressed_modifier_keys@.to_set() =~= Set::<Key>::empty());
        }
        r
    }

    /// The held modifiers.
    pub fn modifiers(&self) -> (r: Modifiers)
        ensures
            r == self@.modifiers,
            r == modifiers_of(self@.pressed),
    {
        proof {
            use_type_invariant(self);
        }
        self.modifiers
    }

    /// Forgets all held modifier keys.
    pub fn reset_modifiers(&mut self)
        ensures
            final(self)@.pressed == Set::<Key>::empty(),
            final(self)@.modifiers == modifiers_of(Set::<Key>::empty()),
    {
        *self = InputNormalizer::new();
    }

    /// Normalizes one raw event. The held modifiers always stay those that the
    /// held modifier keys make.
    pub fn handle_event(&mut self, event: Event) -> (r: Option<InputEvent>)
        ensures
            (final(self)@, opt_event_view(r)) == old(self)@.handle_event(
                event.event_type,
                opt_text(event.name),
            ),
            final(self)@.modifiers == modifiers_of(final(self)@.pressed),
    {
        proof {
            use_type_invariant(&*self);
        }
        match event.event_type {
            EventType::KeyPress(key) => {
                if key.is_modifier() {
                    let r = self.update_modifiers(key, true);
                    proof {
                        use_type_invariant(&*self);
                    }
                    r
                } else {
                    let ghost name = opt_text(event.name);
                    let text = event.into_printable_name();
                    let k = Keystroke { key: DisplayKey::from(key), modifiers: self.modifiers, text };
                    assert(k@.text == printable_name(name));
                    proof {
                        use_type_invariant(&*self);
                    }
                    Some(InputEvent::Keystroke(k))
                }
            },
            EventType::KeyRelease(key) => {
                if key.is_modifier() {
                    let r = self.update_modifiers(key, false);
                    proof {
                        use_type_invariant(&*self);
                    }
                    r
                } else {
                    None
                }
            },
            _ => None,
        }
    }

    /// Whether `key` is among the held modifier keys, and where.
    fn find_pressed(&self, key: Key) -> (r: Option<usize>)
        ensures
            match r {
                Some(i) => i < self.pressed_modifier_keys@.len()
                    && self.pressed_modifier_keys@[i as int] == key,
                None => !self.pressed_modifier_keys@.contains(key),
            },
    {
        let n = self.pressed_modifier_keys.len();
        let mut i: usize = 0;
        while i < n
            invariant
                n == self.pressed_modifier_keys@.len(),
                i <= n,
                forall|j: int| 0 <= j < i ==> self.pressed_modifier_keys@[j] != key,
            decreases n - i,
        {
            if self.pressed_modifier_keys[i] == key {
                return Some(i);
            }
            i = i + 1;
        }
        None
    }

    /// The modifiers that the keys in `keys` make.
    fn modifiers_from(keys: &Vec<Key>) -> (m: Modifiers)
        ensures
            m == modifiers_of(keys@.to_set()),
    {
        let mut m = Modifiers { control: false, alt: false, shift: false, meta: false };
        let n = keys.len();
        let mut i: usize = 0;
        while i < n
            invariant
                n == keys@.len(),
                i <= n,
                m == modifiers_of(keys@.subrange(0, i as int).to_set()),
            decreases n - i,
        {
            let k = keys[i];
            match k {
                Key::ControlLeft | Key::ControlRight => m.control = true,
                Key::Alt | Key::AltGr => m.alt = true,
                Key::ShiftLeft | Key::ShiftRight => m.shift = true,
                Key::MetaLeft | Key::MetaRight => m.meta = true,
                _ => {},
            }
            proof {
                let before = keys@.subrange(0, i as int);
                let after = keys@.subrange(0, i as int + 1);
                assert(after =~= before.push(k));
                assert(after.to_set() =~= before.to_set().insert(k)) by {
                    assert forall|x: Key| #[trigger] after.contains(x) <==> (before.contains(x)
                        || x == k) by {
                        if after.contains(x) {
                            let j = choose|j: int| 0 <= j < after.len() && after[j] == x;
                            if j < before.len() {
                                assert(before[j] == x);
                            }
                        }
                        if before.contains(x) {
                            let j = choose|j: int| 0 <= j < before.len() && before[j] == x;
                            assert(after[j] == x);
                        }
                        if x == k {
                            assert(after[i as int] == x);
                        }
                    }
                }
            }
            i = i + 1;
        }
        assert(keys@.subrange(0, n as int) =~= keys@);
        m
    }

    /// Records that the modifier key `key` went down (`pressed`) or up, and reports
    /// the held modifiers when they changed.
    pub fn update_modifiers(&mut self, key: Key, pressed: bool) -> (r: Option<InputEvent>)
        ensures
            pressed ==> (final(self)@, opt_event_view(r)) == (old(self)@.press(key), old(
                self,
            )@.change_to(old(self)@.press(key))),
            !pressed ==> (final(self)@, opt_event_view(r)) == (old(self)@.release(key), old(
                self,
            )@.change_to(old(self)@.release(key))),
    {
        proof {
            use_type_invariant(&*self);
        }
        let mut keys = self.pressed_modifier_keys.clone();
        assert(keys@ =~= self.pressed_modifier_keys@);
        let ghost old_keys = keys@;
        let found = self.find_pressed(key);
        if pressed {
            if found.is_none() {
                keys.push(key);
                proof {
                    assert(keys@.to_set() =~= old_keys.to_set().insert(key)) by {
                        assert forall|x: Key| #[trigger] keys@.contains(x) <==> old_keys.contains(
                            x,
                        ) || x == key by {
                            if keys@.contains(x) {
                                let j = choose|j: int| 0 <= j < keys@.len() && keys@[j] == x;
                                if j < old_keys.len() {
                                    assert(old_keys[j] == x);
                                }
                            }
                            if old_keys.contains(x) {
                                let j = choose|j: int| 0 <= j < old_keys.len() && old_keys[j] == x;
                                assert(keys@[j] == x);
                            }
                            if x == key {
                                assert(keys@[old_keys.len() as int] == x);
                            }
                        }
                    }
                    assert(keys@.no_duplicates());
                }
            } else {
                proof {
                    let i = found->0;
                    assert(old_keys.contains(key)) by {
                        assert(old_keys[i as int] == key);
                    }
                    assert(old_keys.to_set().insert(key) =~= old_keys.to_set());
                }
            }
        } else {
            match found {
                Some(i) => {
                    keys.remove(i);
                    proof {
                        assert(keys@ =~= old_keys.subrange(0, i as int) + old_keys.subrange(
                            i as int + 1,
                            old_keys.len() as int,
                        ));
                        assert(keys@.to_set() =~= old_keys.to_set().remove(key)) by {
                            assert forall|x: Key| #[trigger] keys@.contains(x) <==> (
                            old_keys.contains(x) && x != key) by {
                                if keys@.contains(x) {
                                    let j = choose|j: int| 0 <= j < keys@.len() && keys@[j] == x;
                                    if j < i {
                                        assert(old_keys[j] == x);
                                        assert(j != i);
                                    } else {
                                        assert(old_keys[j + 1] == x);
                                    }
                                }
                                if old_keys.contains(x) && x != key {
                                    let j = choose|j: int|
                                        0 <= j < old_keys.len() && old_keys[j] == x;
                                    if j < i {
                                        assert(keys@[j] == x);
                                    } else {
                                        assert(j != i);
                                        assert(keys@[j - 1] == x);
                                    }
                                }
                            }
                        }
                        assert(keys@.no_duplicates()) by {
                            assert forall|a: int, b: int|
                                0 <= a < keys@.len() && 0 <= b < keys@.len() && a != b implies keys@[a]
                                != keys@[b] by {
                                let oa = if a < i {
                                    a
                                } else {
                                    a + 1
                                };
                                let ob = if b < i {
                                    b
                                } else {
                                    b + 1
                                };
                                assert(keys@[a] == old_keys[oa]);
                                assert(keys@[b] == old_keys[ob]);
                            }
                        }
                    }
                },
                None => {
                    proof {
                        assert(old_keys.to_set().remove(key) =~= old_keys.to_set());
                    }
                },
            }
        }
        let modifiers = InputNormalizer::modifiers_from(&keys);
        let old_modifiers = self.modifiers;
        *self = InputNormalizer { modifiers, pressed_modifier_keys: keys };
        if modifiers != old_modifiers {
            Some(InputEvent::ModifiersChanged(modifiers))
        } else {
            None
        }
    }
}

impl Default for InputNormalizer {
    fn default() -> (r: Self)
        ensures
            r@.pressed == Set::<Key>::empty(),
            r@.modifiers == modifiers_of(Set::<Key>::empty()),
    {
        InputNormalizer::new()
    }
}

/// Pressing a modifier key that is not held and releasing it again restores the
/// state.
pub proof fn lemma_press_release_restores(s: InputNormalizerView, key: Key)
    requires
        s.modifiers == modifiers_of(s.pressed),
        !s.pressed.contains(key),
    ensures
        s.press(key).release(key) == s,
{
    assert(s.pressed.insert(key).remove(key) =~= s.pressed);
}

/// A key press that is not a modifier leaves the state alone and becomes a
/// keystroke with the held modifiers; a release that is not a modifier, and any
/// other event, leaves the state alone and yields nothing.
pub proof fn lemma_other_events_keep_state(
    s: InputNormalizerView,
    event_type: EventType,
    name: Option<Seq<char>>,
)
    requires
        !(event_type matches EventType::KeyPress(k) && is_modifier_key(k)),
        !(event_type matches EventType::KeyRelease(k) && is_modifier_key(k)),
    ensures
        s.handle_event(event_type, name).0 == s,
        (event_type is KeyPress) <==> (s.handle_event(event_type, name).1 is Some),
        s.handle_event(event_type, name).1 matches Some(InputEventView::Keystroke(k)) ==> k.modifiers
            == s.modifiers,
{
}

} // verus!
