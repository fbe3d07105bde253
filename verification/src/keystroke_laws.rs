//! What every keystroke operation keeps, and what single keystrokes do.

use vstd::prelude::*;

use crate::keystrokes::{
    all_keys, any_modifier, lemma_finalize_keeps_room, is_delimiter_key, is_expired, is_special_key, prune_history, repeats,
    shortcut_modifier, trim_history, BubbleKind, BubblePartView, KeyBubbleView, KeystrokeStateView,
    KeystrokeView, INACTIVITY_TIMEOUT_MS, MAX_ACTIVE_TEXT_LEN,
};

verus! {

/// No row repeats the row just before it: repeated key-only rows are counted,
/// never shown twice in a row.
pub open spec fn no_adjacent_repeats(h: Seq<KeyBubbleView>) -> bool {
    forall|i: int, j: int|
        #![trigger h[i], h[j]]
        0 <= i && j == i + 1 && j < h.len() ==> !repeats(h[i], h[j].parts, h[j].kind)
}

/// Every row has been seen at least once.
pub open spec fn counts_positive(h: Seq<KeyBubbleView>) -> bool {
    forall|i: int| 0 <= i < h.len() ==> #[trigger] h[i].count >= 1
}

/// Rows with typed text are never counted more than once: only key-only rows are
/// compressed.
pub open spec fn text_rows_single(h: Seq<KeyBubbleView>) -> bool {
    forall|i: int| 0 <= i < h.len() && !all_keys(#[trigger] h[i].parts) ==> h[i].count == 1
}

/// A part of a row shows something: typed text is never empty.
pub open spec fn part_ok(part: BubblePartView) -> bool {
    part matches BubblePartView::Text(t) ==> t.len() > 0
}

/// The parts of a row: at least one, none of them empty text.
pub open spec fn parts_ok(parts: Seq<BubblePartView>) -> bool {
    &&& parts.len() > 0
    &&& forall|j: int| 0 <= j < parts.len() ==> #[trigger] part_ok(parts[j])
}

/// Every row has parts, and none of its text parts is empty.
pub open spec fn rows_have_parts(h: Seq<KeyBubbleView>) -> bool {
    forall|i: int| 0 <= i < h.len() ==> #[trigger] parts_ok(h[i].parts)
}

/// Rows are ordered by their last update, none of them later than `now`.
pub open spec fn chronological(h: Seq<KeyBubbleView>, now: u64) -> bool {
    &&& forall|i: int, j: int|
        #![trigger h[i], h[j]]
        0 <= i <= j < h.len() ==> h[i].last_updated_at <= h[j].last_updated_at
    &&& forall|i: int| 0 <= i < h.len() ==> #[trigger] h[i].last_updated_at <= now
}

/// The history rows are consistent: within the limit, counted, compressed where
/// they are key-only, and each with something to show.
pub open spec fn history_ok(h: Seq<KeyBubbleView>, limit: usize) -> bool {
    &&& h.len() <= limit
    &&& counts_positive(h)
    &&& no_adjacent_repeats(h)
    &&& text_rows_single(h)
    &&& rows_have_parts(h)
}

impl KeystrokeStateView {
    /// The display is consistent: the finalized rows fit in the room that the
    /// history limit leaves next to the typing row, every row is counted at least
    /// once, no row repeats its predecessor, rows with typed text are counted
    /// once, every row has parts and no empty text, and the typing row holds at
    /// most `MAX_ACTIVE_TEXT_LEN` characters.
    pub open spec fn well_formed(self) -> bool {
        &&& history_ok(self.history, self.history_room())
        &&& self.active.len() <= MAX_ACTIVE_TEXT_LEN
    }
}

proof fn lemma_skip_keeps(h: Seq<KeyBubbleView>, k: int, limit: usize, now: u64)
    requires
        0 <= k <= h.len(),
        counts_positive(h),
        no_adjacent_repeats(h),
        text_rows_single(h),
        rows_have_parts(h),
    ensures
        counts_positive(h.skip(k)),
        no_adjacent_repeats(h.skip(k)),
        text_rows_single(h.skip(k)),
        rows_have_parts(h.skip(k)),
        chronological(h, now) ==> chronological(h.skip(k), now),
{
    let t = h.skip(k);
    assert forall|i: int| 0 <= i < t.len() implies #[trigger] t[i].count >= 1 by {
        assert(t[i] == h[i + k]);
    }
    assert forall|i: int| 0 <= i < t.len() && !all_keys(#[trigger] t[i].parts) implies t[i].count
        == 1 by {
        assert(t[i] == h[i + k]);
    }
    assert forall|i: int| 0 <= i < t.len() implies #[trigger] parts_ok(t[i].parts) by {
        assert(t[i] == h[i + k]);
    }
    assert forall|i: int, j: int|
        #![trigger t[i], t[j]]
        0 <= i && j == i + 1 && j < t.len() implies !repeats(t[i], t[j].parts, t[j].kind) by {
        assert(t[i] == h[i + k]);
        assert(t[j] == h[j + k]);
    }
    if chronological(h, now) {
        assert forall|i: int, j: int|
            #![trigger t[i], t[j]]
            0 <= i <= j < t.len() implies t[i].last_updated_at <= t[j].last_updated_at by {
            assert(t[i] == h[i + k]);
            assert(t[j] == h[j + k]);
        }
        assert forall|i: int| 0 <= i < t.len() implies #[trigger] t[i].last_updated_at
            <= now by {
            assert(t[i] == h[i + k]);
        }
    }
}

proof fn lemma_push_history(
    s: KeystrokeStateView,
    parts: Seq<BubblePartView>,
    kind: BubbleKind,
    now: u64,
)
    requires
        history_ok(s.history, s.history_room()),
        parts_ok(parts),
        all_keys(parts) ==> s.count_has_room(),
    ensures
        history_ok(s.push_history(parts, kind, now).history, s.history_room()),
        s.push_history(parts, kind, now).active == s.active,
        s.push_history(parts, kind, now).last_key_at == s.last_key_at,
        s.push_history(parts, kind, now).history_limit == s.history_limit,
        chronological(s.history, now) ==> chronological(
            s.push_history(parts, kind, now).history,
            now,
        ),
{
    let h = s.history;
    let t = s.push_history(parts, kind, now);
    if h.len() > 0 && repeats(h.last(), parts, kind) {
        let n = h.len() - 1;
        assert(t.history.len() == h.len());
        assert forall|i: int| 0 <= i < t.history.len() implies #[trigger] t.history[i].count
            >= 1 by {
            if i != n {
                assert(t.history[i] == h[i]);
            }
        }
        assert forall|i: int|
            0 <= i < t.history.len() && !all_keys(#[trigger] t.history[i].parts) implies t.history[i].count
            == 1 by {
            if i != n {
                assert(t.history[i] == h[i]);
            }
        }
        assert forall|i: int| 0 <= i < t.history.len() implies #[trigger] parts_ok(
            t.history[i].parts,
        ) by {
            if i != n {
                assert(t.history[i] == h[i]);
            }
        }
        assert forall|i: int, j: int|
            #![trigger t.history[i], t.history[j]]
            0 <= i && j == i + 1 && j < t.history.len() implies !repeats(
            t.history[i],
            t.history[j].parts,
            t.history[j].kind,
        ) by {
            assert(h[i] == h[i]);
            assert(h[j] == h[j]);
        }
        if chronological(h, now) {
            assert forall|i: int, j: int|
                #![trigger t.history[i], t.history[j]]
                0 <= i <= j < t.history.len() implies t.history[i].last_updated_at
                <= t.history[j].last_updated_at by {
                assert(h[i] == h[i]);
                assert(h[j] == h[j]);
            }
            assert forall|i: int| 0 <= i < t.history.len() implies #[trigger] t.history[i].last_updated_at
                <= now by {
                assert(h[i] == h[i]);
            }
        }
    } else {
        let b = KeyBubbleView { parts, kind, count: 1, last_updated_at: now };
        let p = h.push(b);
        assert(counts_positive(p)) by {
            assert forall|i: int| 0 <= i < p.len() implies #[trigger] p[i].count >= 1 by {
                if i < h.len() {
                    assert(p[i] == h[i]);
                }
            }
        }
        assert(rows_have_parts(p)) by {
            assert forall|i: int| 0 <= i < p.len() implies #[trigger] parts_ok(p[i].parts) by {
                if i < h.len() {
                    assert(p[i] == h[i]);
                }
            }
        }
        assert(text_rows_single(p)) by {
            assert forall|i: int| 0 <= i < p.len() && !all_keys(#[trigger] p[i].parts) implies p[i].count
                == 1 by {
                if i < h.len() {
                    assert(p[i] == h[i]);
                }
            }
        }
        assert(no_adjacent_repeats(p)) by {
            assert forall|i: int, j: int|
                #![trigger p[i], p[j]]
                0 <= i && j == i + 1 && j < p.len() implies !repeats(p[i], p[j].parts, p[j].kind) by {
                assert(p[i] == h[i]);
                if j < h.len() {
                    assert(p[j] == h[j]);
                } else {
                    assert(h.last() == h[i]);
                }
            }
        }
        let room = s.history_room();
        let k: int = if p.len() > room {
            p.len() - room
        } else {
            0
        };
        assert(trim_history(p, room) =~= p.skip(k));
        if chronological(h, now) {
            assert forall|i: int, j: int|
                #![trigger p[i], p[j]]
                0 <= i <= j < p.len() implies p[i].last_updated_at <= p[j].last_updated_at by {
                if j < h.len() {
                    assert(p[i] == h[i]);
                    assert(p[j] == h[j]);
                } else if i < h.len() {
                    assert(p[i] == h[i]);
                }
            }
            assert forall|i: int| 0 <= i < p.len() implies #[trigger] p[i].last_updated_at
                <= now by {
                if i < h.len() {
                    assert(p[i] == h[i]);
                }
            }
        }
        lemma_skip_keeps(p, k, room, now);
    }
}

proof fn lemma_finalize_active(s: KeystrokeStateView, now: u64)
    requires
        history_ok(s.history, s.history_room()),
    ensures
        history_ok(s.finalize_active(now).history, s.history_limit),
        s.finalize_active(now).history_room() == s.history_limit,
        s.finalize_active(now).active.len() == 0,
        s.finalize_active(now).history_limit == s.history_limit,
        s.finalize_active(now).last_key_at is None,
        chronological(s.history, now) ==> chronological(s.finalize_active(now).history, now),
{
    if s.active.len() > 0 {
        let e = KeystrokeStateView { active: Seq::empty(), ..s };
        let parts = seq![BubblePartView::Text(s.active)];
        assert(!all_keys(parts)) by {
            assert(!(parts[0] is Key));
        }
        assert(parts_ok(parts)) by {
            assert(part_ok(parts[0]));
        }
        lemma_push_history(e, parts, BubbleKind::Typing, now);
    }
}

proof fn lemma_finalize_if_inactive(s: KeystrokeStateView, now: u64)
    requires
        s.well_formed(),
    ensures
        s.finalize_if_inactive(now).well_formed(),
        s.finalize_if_inactive(now).history_limit == s.history_limit,
        chronological(s.history, now) ==> chronological(
            s.finalize_if_inactive(now).history,
            now,
        ),
{
    if s.is_inactive(now) {
        lemma_finalize_active(s, now);
    }
}

proof fn lemma_type_text(s: KeystrokeStateView, chars: Seq<char>, now: u64)
    requires
        s.well_formed(),
    ensures
        s.type_text(chars, now).well_formed(),
        s.type_text(chars, now).history_limit == s.history_limit,
        chars.len() > 0 ==> s.type_text(chars, now).active.len() > 0,
        chronological(s.history, now) ==> chronological(s.type_text(chars, now).history, now),
    decreases chars.len(),
{
    if chars.len() > 0 {
        let f = if s.active.len() >= MAX_ACTIVE_TEXT_LEN {
            lemma_finalize_active(s, now);
            s.finalize_active(now)
        } else {
            s
        };
        let pushed = KeystrokeStateView { active: f.active.push(chars[0]), ..f };
        let room = pushed.history_room();
        let k: int = if f.history.len() > room {
            f.history.len() - room
        } else {
            0
        };
        assert(trim_history(f.history, room) =~= f.history.skip(k));
        lemma_skip_keeps(f.history, k, room, now);
        let next = pushed.fit_history();
        assert(next.well_formed());
        lemma_type_text(next, chars.drop_first(), now);
        if chars.len() == 1 {
            assert(chars.drop_first().len() == 0);
        }
    }
}

/// Every keystroke keeps the display consistent: no more rows are on show than
/// the history limit (the typing row included), rows are counted, no row repeats
/// its predecessor, rows with typed text are never counted twice, every row has
/// parts and no empty text, and the typing row never exceeds
/// `MAX_ACTIVE_TEXT_LEN` characters. When the clock does not go back (`now` is no
/// earlier than any row), rows stay in the order of their last update.
pub proof fn lemma_handle_keystroke_well_formed(
    s: KeystrokeStateView,
    k: KeystrokeView,
    now: u64,
)
    requires
        s.well_formed(),
        s.count_has_room(),
    ensures
        s.handle_keystroke(k, now).well_formed(),
        s.handle_keystroke(k, now).history_limit == s.history_limit,
        s.history_limit >= 1 ==> s.handle_keystroke(k, now).visible_rows() <= s.history_limit,
        chronological(s.history, now) ==> chronological(
            s.handle_keystroke(k, now).history,
            now,
        ),
{
    lemma_finalize_if_inactive(s, now);
    let s1 = KeystrokeStateView { last_key_at: Some(now), ..s.finalize_if_inactive(now) };
    assert(s1.well_formed());
    let key_only = seq![BubblePartView::Key(k)];
    assert(all_keys(key_only));
    assert(parts_ok(key_only)) by {
        assert(part_ok(key_only[0]));
    }
    lemma_finalize_keeps_room(s, now);
    lemma_finalize_keeps_room(s.finalize_if_inactive(now), now);
    lemma_finalize_keeps_room(s1, now);
    if is_delimiter_key(k.key) {
        if any_modifier(k.modifiers) {
            let kind = if shortcut_modifier(k.modifiers) {
                BubbleKind::Shortcut
            } else {
                BubbleKind::Special
            };
            lemma_finalize_active(s1, now);
            lemma_push_history(s1.finalize_active(now), key_only, kind, now);
        } else {
            let parts = if s1.active.len() > 0 {
                seq![BubblePartView::Text(s1.active), BubblePartView::Key(k)]
            } else {
                key_only
            };
            if s1.active.len() > 0 {
                assert(!all_keys(parts)) by {
                    assert(!(parts[0] is Key));
                }
                assert(part_ok(parts[0]) && part_ok(parts[1]));
            } else {
                assert(part_ok(parts[0]));
            }
            lemma_push_history(
                KeystrokeStateView { active: Seq::empty(), ..s1 },
                parts,
                BubbleKind::Typing,
                now,
            );
        }
    } else if shortcut_modifier(k.modifiers) {
        lemma_finalize_active(s1, now);
        lemma_push_history(s1.finalize_active(now), key_only, BubbleKind::Shortcut, now);
    } else if k.key is Backspace && s1.active.len() > 0 {
    } else if k.text is Some {
        lemma_type_text(s1, k.text->0, now);
    } else if is_special_key(k.key) {
        lemma_finalize_active(s1, now);
        lemma_push_history(s1.finalize_active(now), key_only, BubbleKind::Special, now);
    }
}

/// A consistent display with a history limit of at least one shows no more rows
/// than the limit, the typing row included.
pub proof fn lemma_visible_rows_within_limit(s: KeystrokeStateView)
    requires
        s.well_formed(),
        s.history_limit >= 1,
    ensures
        s.visible_rows() <= s.history_limit,
{
}

/// A new display is consistent.
pub proof fn lemma_new_well_formed(history_limit: usize)
    ensures
        (KeystrokeStateView {
            active: Seq::empty(),
            history: Seq::empty(),
            history_limit,
            last_key_at: None,
        }).well_formed(),
{
}

/// Finalizing after a pause keeps the display consistent and its rows in order.
pub proof fn lemma_finalize_if_inactive_well_formed(s: KeystrokeStateView, now: u64)
    requires
        s.well_formed(),
    ensures
        s.finalize_if_inactive(now).well_formed(),
        chronological(s.history, now) ==> chronological(
            s.finalize_if_inactive(now).history,
            now,
        ),
{
    lemma_finalize_if_inactive(s, now);
}

/// Changing the history limit keeps exactly the newest finalized rows that fit
/// next to the typing row, and keeps the display consistent; with a limit of at
/// least one, no more rows are on show than the new limit.
pub proof fn lemma_set_history_limit_well_formed(s: KeystrokeStateView, limit: usize, now: u64)
    requires
        s.well_formed(),
    ensures
        s.set_history_limit(limit).well_formed(),
        s.set_history_limit(limit).history_limit == limit,
        s.set_history_limit(limit).history.len() == if s.history.len() > s.set_history_limit(
            limit,
        ).history_room() {
            s.set_history_limit(limit).history_room() as int
        } else {
            s.history.len() as int
        },
        s.set_history_limit(limit).history =~= s.history.skip(
            s.history.len() - s.set_history_limit(limit).history.len(),
        ),
        limit >= 1 ==> s.set_history_limit(limit).visible_rows() <= limit,
        chronological(s.history, now) ==> chronological(s.set_history_limit(limit).history, now),
{
    let room = s.set_history_limit(limit).history_room();
    let k: int = if s.history.len() > room {
        s.history.len() - room
    } else {
        0
    };
    assert(trim_history(s.history, room) =~= s.history.skip(k));
    lemma_skip_keeps(s.history, k, room, now);
}

/// `prune_history` drops a run of expired rows from the front.
proof fn lemma_prune_is_suffix(h: Seq<KeyBubbleView>, now: u64) -> (k: int)
    ensures
        0 <= k <= h.len(),
        prune_history(h, now) == h.skip(k),
        forall|i: int| 0 <= i < k ==> is_expired(#[trigger] h[i].last_updated_at, now),
        k < h.len() ==> !is_expired(h[k].last_updated_at, now),
    decreases h.len(),
{
    if h.len() > 0 && is_expired(h[0].last_updated_at, now) {
        let k1 = lemma_prune_is_suffix(h.drop_first(), now);
        assert(h.drop_first().skip(k1) =~= h.skip(k1 + 1));
        assert forall|i: int| 0 <= i < k1 + 1 implies is_expired(
            #[trigger] h[i].last_updated_at,
            now,
        ) by {
            if i > 0 {
                assert(h[i] == h.drop_first()[i - 1]);
            }
        }
        if k1 + 1 < h.len() {
            assert(h[k1 + 1] == h.drop_first()[k1]);
        }
        k1 + 1
    } else {
        assert(h.skip(0) =~= h);
        0
    }
}

/// Rows in time order stay in time order when leading rows are dropped.
proof fn lemma_skip_chronological(h: Seq<KeyBubbleView>, k: int, now: u64)
    requires
        0 <= k <= h.len(),
        chronological(h, now),
    ensures
        chronological(h.skip(k), now),
{
    let t = h.skip(k);
    assert forall|i: int, j: int|
        #![trigger t[i], t[j]]
        0 <= i <= j < t.len() implies t[i].last_updated_at <= t[j].last_updated_at by {
        assert(t[i] == h[i + k]);
        assert(t[j] == h[j + k]);
    }
    assert forall|i: int| 0 <= i < t.len() implies #[trigger] t[i].last_updated_at <= now by {
        assert(t[i] == h[i + k]);
    }
}

/// Rows in time order up to `now` are in time order up to any later time.
proof fn lemma_chronological_later(h: Seq<KeyBubbleView>, now: u64, later: u64)
    requires
        chronological(h, now),
        now <= later,
    ensures
        chronological(h, later),
{
}

/// Pruning at any time keeps the display consistent, whatever order its rows
/// are in: it only drops leading rows, and leaves the typing row alone.
pub proof fn lemma_prune_expired_well_formed(s: KeystrokeStateView, now: u64)
    requires
        s.well_formed(),
    ensures
        s.prune_expired(now).well_formed(),
        s.prune_expired(now).active == s.active,
        s.prune_expired(now).history_limit == s.history_limit,
        s.prune_expired(now).history =~= s.history.skip(
            s.history.len() - s.prune_expired(now).history.len(),
        ),
{
    let k = lemma_prune_is_suffix(s.history, now);
    lemma_skip_keeps(s.history, k, s.history_room(), now);
}

/// Pruning removes exactly the rows that have expired when the rows are in time
/// order (every call so far used times that did not go back, the latest no later
/// than `now`): the typing row stays, the rows that remain are the newest ones,
/// in the same order and unchanged, none of them expired, and all the rows
/// removed had expired.
pub proof fn lemma_prune_expired_exact(s: KeystrokeStateView, now: u64)
    requires
        chronological(s.history, now),
    ensures
        s.prune_expired(now).active == s.active,
        s.prune_expired(now).history_limit == s.history_limit,
        chronological(s.prune_expired(now).history, now),
        s.prune_expired(now).history =~= s.history.skip(
            s.history.len() - s.prune_expired(now).history.len(),
        ),
        forall|i: int|
            0 <= i < s.prune_expired(now).history.len() ==> !is_expired(
                #[trigger] s.prune_expired(now).history[i].last_updated_at,
                now,
            ),
        forall|i: int|
            0 <= i < s.history.len() - s.prune_expired(now).history.len() ==> is_expired(
                #[trigger] s.history[i].last_updated_at,
                now,
            ),
{
    let h = s.history;
    let k = lemma_prune_is_suffix(h, now);
    lemma_skip_chronological(h, k, now);
    let t = h.skip(k);
    assert forall|i: int| 0 <= i < t.len() implies !is_expired(
        #[trigger] t[i].last_updated_at,
        now,
    ) by {
        assert(t[i] == h[i + k]);
        assert(h[k].last_updated_at <= h[i + k].last_updated_at);
    }
}

/// Pruning twice at the same time is pruning once.
pub proof fn lemma_prune_expired_idempotent(s: KeystrokeStateView, now: u64)
    ensures
        s.prune_expired(now).prune_expired(now) == s.prune_expired(now),
{
    let h = s.history;
    let k = lemma_prune_is_suffix(h, now);
    let t = h.skip(k);
    if t.len() > 0 {
        assert(t[0] == h[k]);
    }
}

/// Finalizing after a pause twice at the same time is finalizing once.
pub proof fn lemma_finalize_if_inactive_idempotent(s: KeystrokeStateView, now: u64)
    ensures
        s.finalize_if_inactive(now).finalize_if_inactive(now) == s.finalize_if_inactive(now),
{
}

/// Typing text with room in the typing row only appends it.
proof fn lemma_type_text_with_room(s: KeystrokeStateView, chars: Seq<char>, now: u64)
    requires
        s.active.len() + chars.len() <= MAX_ACTIVE_TEXT_LEN,
        s.history.len() < s.history_limit,
    ensures
        s.type_text(chars, now) == (KeystrokeStateView { active: s.active + chars, ..s }),
    decreases chars.len(),
{
    if chars.len() == 0 {
        assert(s.active + chars =~= s.active);
    } else {
        let next = KeystrokeStateView { active: s.active.push(chars[0]), ..s };
        lemma_type_text_with_room(next, chars.drop_first(), now);
        assert(s.active.push(chars[0]) + chars.drop_first() =~= s.active + chars);
    }
}

/// Typing printable text without command modifiers, before the typing row has
/// timed out, while the row has room for the text and the display has room for
/// the typing row, appends the text to the typing row and leaves the history
/// alone.
pub proof fn lemma_typing_appends(s: KeystrokeStateView, k: KeystrokeView, now: u64)
    requires
        k.text is Some,
        !is_delimiter_key(k.key),
        !shortcut_modifier(k.modifiers),
        !(k.key is Backspace),
        !s.is_inactive(now),
        s.active.len() + k.text->0.len() <= MAX_ACTIVE_TEXT_LEN,
        s.history.len() < s.history_limit,
    ensures
        s.handle_keystroke(k, now).active == s.active + k.text->0,
        s.handle_keystroke(k, now).history == s.history,
        s.handle_keystroke(k, now).last_key_at == Some(now),
{
    let s1 = KeystrokeStateView { last_key_at: Some(now), ..s };
    lemma_type_text_with_room(s1, k.text->0, now);
}

/// Backspace without command modifiers, before the typing row has timed out,
/// deletes the last typed character of a non-empty typing row and leaves the
/// history alone.
pub proof fn lemma_backspace_deletes(s: KeystrokeStateView, k: KeystrokeView, now: u64)
    requires
        k.key is Backspace,
        !shortcut_modifier(k.modifiers),
        !s.is_inactive(now),
        s.active.len() > 0,
    ensures
        s.handle_keystroke(k, now).active == s.active.drop_last(),
        s.handle_keystroke(k, now).history == s.history,
{
}

/// A plain delimiter (Space, Enter or Tab without modifiers) ends the typing row:
/// when the row has text, the newest history row becomes that text followed by
/// the delimiter, counted once, and the typing row is empty.
pub proof fn lemma_delimiter_ends_row(s: KeystrokeStateView, k: KeystrokeView, now: u64)
    requires
        is_delimiter_key(k.key),
        !any_modifier(k.modifiers),
        !s.is_inactive(now),
        s.active.len() > 0,
        s.history_limit > 0,
    ensures
        s.handle_keystroke(k, now).active.len() == 0,
        s.handle_keystroke(k, now).last_key_at is None,
        s.handle_keystroke(k, now).history.len() > 0,
        s.handle_keystroke(k, now).history.last() == (KeyBubbleView {
            parts: seq![BubblePartView::Text(s.active), BubblePartView::Key(k)],
            kind: BubbleKind::Typing,
            count: 1,
            last_updated_at: now,
        }),
{
    let parts = seq![BubblePartView::Text(s.active), BubblePartView::Key(k)];
    assert(!all_keys(parts)) by {
        assert(!(parts[0] is Key));
    }
    let b = KeyBubbleView { parts, kind: BubbleKind::Typing, count: 1, last_updated_at: now };
    let p = s.history.push(b);
    if p.len() > s.history_limit {
        let t = p.skip(p.len() - s.history_limit);
        assert(t.last() == b);
    }
}

/// A chord with a command modifier (Control, Alt or Meta) ends the typing row and
/// shows as a shortcut row of its own: either a new row counted once, or, when the
/// newest row is the same shortcut, that row counted once more.
pub proof fn lemma_shortcut_row(s: KeystrokeStateView, k: KeystrokeView, now: u64)
    requires
        shortcut_modifier(k.modifiers),
        s.count_has_room(),
        s.history_limit > 0,
    ensures
        s.handle_keystroke(k, now).active.len() == 0,
        s.handle_keystroke(k, now).history.len() > 0,
        s.handle_keystroke(k, now).history.last().parts == seq![BubblePartView::Key(k)],
        s.handle_keystroke(k, now).history.last().kind == BubbleKind::Shortcut,
        s.handle_keystroke(k, now).history.last().last_updated_at == now,
{
    let kind = BubbleKind::Shortcut;
    let s1 = KeystrokeStateView { last_key_at: Some(now), ..s.finalize_if_inactive(now) };
    let f = s1.finalize_active(now);
    let parts = seq![BubblePartView::Key(k)];
    if !(f.history.len() > 0 && repeats(f.history.last(), parts, kind)) {
        let b = KeyBubbleView { parts, kind, count: 1, last_updated_at: now };
        let p = f.history.push(b);
        if p.len() > f.history_limit {
            let t = p.skip(p.len() - f.history_limit);
            assert(t.last() == b);
        }
    }
}

/// A special key (neither a character, nor Space, Enter or Tab, nor Backspace)
/// pressed without modifiers and without text, before the typing row has timed
/// out, while the typing row holds text `t`, first finalizes `t` as a typing row
/// and then shows the key in a special row of its own after it: the typing row is
/// left empty, and with room for two rows the newest two rows are `[Text(t)]`
/// (typing) and `[Key(k)]` (special), each counted once at `now`.
pub proof fn lemma_special_key_ends_typing(s: KeystrokeStateView, k: KeystrokeView, now: u64)
    requires
        !(k.key is Char),
        !(k.key is Space || k.key is Enter || k.key is Tab),
        !(k.key is Backspace),
        !k.modifiers.control && !k.modifiers.alt && !k.modifiers.shift && !k.modifiers.meta,
        k.text is None,
        s.last_key_at is None || now - s.last_key_at->0 < INACTIVITY_TIMEOUT_MS,
        s.active.len() > 0,
        s.history_limit >= 2,
    ensures
        s.handle_keystroke(k, now).active.len() == 0,
        s.handle_keystroke(k, now).history.len() >= 2,
        s.handle_keystroke(k, now).history.len() <= s.history_limit,
        s.handle_keystroke(k, now).history[s.handle_keystroke(k, now).history.len() - 2]
            == (KeyBubbleView {
            parts: seq![BubblePartView::Text(s.active)],
            kind: BubbleKind::Typing,
            count: 1,
            last_updated_at: now,
        }),
        s.handle_keystroke(k, now).history.last() == (KeyBubbleView {
            parts: seq![BubblePartView::Key(k)],
            kind: BubbleKind::Special,
            count: 1,
            last_updated_at: now,
        }),
{
    let s1 = KeystrokeStateView { last_key_at: Some(now), ..s };
    assert(s.finalize_if_inactive(now) == s);
    let tparts = seq![BubblePartView::Text(s.active)];
    assert(!all_keys(tparts)) by {
        assert(!(tparts[0] is Key));
    }
    let tb = KeyBubbleView { parts: tparts, kind: BubbleKind::Typing, count: 1, last_updated_at: now };
    let e = KeystrokeStateView { active: Seq::empty(), ..s1 };
    let p1 = s1.history.push(tb);
    let h2 = trim_history(p1, s.history_limit);
    assert(e.push_history(tparts, BubbleKind::Typing, now).history == h2);
    assert(h2.len() >= 1 && h2.last() == tb) by {
        if p1.len() > s.history_limit {
            assert(p1.skip(p1.len() - s.history_limit).last() == p1.last());
        }
    }
    let f = s1.finalize_active(now);
    assert(f.history == h2 && f.active.len() == 0 && f.history_limit == s.history_limit);
    let kparts = seq![BubblePartView::Key(k)];
    assert(!repeats(h2.last(), kparts, BubbleKind::Special));
    let sb = KeyBubbleView { parts: kparts, kind: BubbleKind::Special, count: 1, last_updated_at: now };
    let p2 = h2.push(sb);
    let r = trim_history(p2, s.history_limit);
    assert(s.handle_keystroke(k, now).history == r);
    let n = r.len();
    if p2.len() > s.history_limit {
        let d = p2.len() - s.history_limit;
        assert(r == p2.skip(d));
        assert(r[n - 1] == p2[p2.len() - 1]);
        assert(r[n - 2] == p2[p2.len() - 2]);
    }
    assert(p2[p2.len() - 2] == h2.last());
}

/// Pressing the same special key again while its row is the newest one counts
/// the row once more and refreshes its time instead of adding a row.
pub proof fn lemma_repeated_key_is_counted(s: KeystrokeStateView, k: KeystrokeView, now: u64)
    requires
        is_special_key(k.key),
        !is_delimiter_key(k.key),
        !any_modifier(k.modifiers),
        k.text is None,
        s.active.len() == 0,
        s.history.len() > 0,
        s.history.last().parts == seq![BubblePartView::Key(k)],
        s.history.last().kind == BubbleKind::Special,
        s.count_has_room(),
    ensures
        s.handle_keystroke(k, now).history.len() == s.history.len(),
        s.handle_keystroke(k, now).history.last().count == s.history.last().count + 1,
        s.handle_keystroke(k, now).history.last().last_updated_at == now,
        s.handle_keystroke(k, now).history.drop_last() == s.history.drop_last(),
{
    let parts = seq![BubblePartView::Key(k)];
    assert(all_keys(parts));
    let r = s.handle_keystroke(k, now);
    assert(r.history.drop_last() =~= s.history.drop_last());
}

/// The periodic tick, which finalizes the typing row after a pause and then drops
/// expired rows, keeps the display consistent at any time; when the rows are in
/// time order it keeps them so and leaves no expired row behind.
pub proof fn lemma_tick(s: KeystrokeStateView, now: u64)
    requires
        s.well_formed(),
    ensures
        s.finalize_if_inactive(now).prune_expired(now).well_formed(),
        chronological(s.history, now) ==> chronological(
            s.finalize_if_inactive(now).prune_expired(now).history,
            now,
        ),
        chronological(s.history, now) ==> forall|i: int|
            0 <= i < s.finalize_if_inactive(now).prune_expired(now).history.len() ==> !is_expired(
                #[trigger] s.finalize_if_inactive(now).prune_expired(now).history[i].last_updated_at,
                now,
            ),
{
    lemma_finalize_if_inactive(s, now);
    lemma_prune_expired_well_formed(s.finalize_if_inactive(now), now);
    if chronological(s.history, now) {
        lemma_prune_expired_exact(s.finalize_if_inactive(now), now);
    }
}

/// One operation on the keystroke display, with the time it is made at.
pub enum DisplayOp {
    Keystroke(KeystrokeView, u64),
    FinalizeIfInactive(u64),
    PruneExpired(u64),
    SetHistoryLimit(usize),
}

/// The time an operation is made at; changing the limit takes no time.
pub open spec fn op_time(op: DisplayOp) -> Option<u64> {
    match op {
        DisplayOp::Keystroke(_, t) => Some(t),
        DisplayOp::FinalizeIfInactive(t) => Some(t),
        DisplayOp::PruneExpired(t) => Some(t),
        DisplayOp::SetHistoryLimit(_) => None,
    }
}

/// The times of `ops` never go back, starting from `t`.
pub open spec fn times_from(ops: Seq<DisplayOp>, t: u64) -> bool
    decreases ops.len(),
{
    ops.len() == 0 || match op_time(ops[0]) {
        Some(u) => t <= u && times_from(ops.drop_first(), u),
        None => times_from(ops.drop_first(), t),
    }
}

/// The latest time of `ops`, or `t` when none of them has a time.
pub open spec fn last_time(ops: Seq<DisplayOp>, t: u64) -> u64
    decreases ops.len(),
{
    if ops.len() == 0 {
        t
    } else {
        match op_time(ops[0]) {
            Some(u) => last_time(ops.drop_first(), u),
            None => last_time(ops.drop_first(), t),
        }
    }
}

impl KeystrokeStateView {
    /// The display after one operation.
    pub open spec fn apply(self, op: DisplayOp) -> KeystrokeStateView {
        match op {
            DisplayOp::Keystroke(k, t) => self.handle_keystroke(k, t),
            DisplayOp::FinalizeIfInactive(t) => self.finalize_if_inactive(t),
            DisplayOp::PruneExpired(t) => self.prune_expired(t),
            DisplayOp::SetHistoryLimit(limit) => self.set_history_limit(limit),
        }
    }

    /// The display after the operations `ops`, one after the other.
    pub open spec fn run(self, ops: Seq<DisplayOp>) -> KeystrokeStateView
        decreases ops.len(),
    {
        if ops.len() == 0 {
            self
        } else {
            self.apply(ops[0]).run(ops.drop_first())
        }
    }

    /// No keystroke of `ops` finds the newest row's count at the machine limit
    /// (the condition under which `handle_keystroke` may be called).
    pub open spec fn counts_fit(self, ops: Seq<DisplayOp>) -> bool
        decreases ops.len(),
    {
        ops.len() == 0 || ((ops[0] is Keystroke ==> self.count_has_room()) && self.apply(
            ops[0],
        ).counts_fit(ops.drop_first()))
    }
}

/// Any sequence of operations keeps the display consistent: with the history limit
/// in force at the end, the finalized rows fit, every row is counted at least once,
/// has parts and no empty text, and no more rows are on show than the limit (the
/// typing row included) when the limit is at least one. When the operations' times
/// never go back and the rows start in time order, the rows end in time order up
/// to the latest time.
pub proof fn lemma_run_well_formed(s: KeystrokeStateView, ops: Seq<DisplayOp>, t0: u64)
    requires
        s.well_formed(),
        s.counts_fit(ops),
    ensures
        s.run(ops).well_formed(),
        s.run(ops).history.len() <= s.run(ops).history_limit,
        counts_positive(s.run(ops).history),
        rows_have_parts(s.run(ops).history),
        s.run(ops).history_limit >= 1 ==> s.run(ops).visible_rows() <= s.run(ops).history_limit,
        times_from(ops, t0) && chronological(s.history, t0) ==> chronological(
            s.run(ops).history,
            last_time(ops, t0),
        ),
    decreases ops.len(),
{
    if ops.len() > 0 {
        let op = ops[0];
        let rest = ops.drop_first();
        let next = s.apply(op);
        let t1 = match op_time(op) {
            Some(u) => u,
            None => t0,
        };
        let ordered = times_from(ops, t0) && chronological(s.history, t0);
        match op {
            DisplayOp::Keystroke(k, t) => {
                lemma_handle_keystroke_well_formed(s, k, t);
                if ordered {
                    lemma_chronological_later(s.history, t0, t);
                }
            },
            DisplayOp::FinalizeIfInactive(t) => {
                lemma_finalize_if_inactive(s, t);
                if ordered {
                    lemma_chronological_later(s.history, t0, t);
                }
            },
            DisplayOp::PruneExpired(t) => {
                lemma_prune_expired_well_formed(s, t);
                if ordered {
                    lemma_chronological_later(s.history, t0, t);
                    lemma_prune_expired_exact(s, t);
                }
            },
            DisplayOp::SetHistoryLimit(limit) => {
                lemma_set_history_limit_well_formed(s, limit, t0);
            },
        }
        assert(ordered ==> chronological(next.history, t1));
        lemma_run_well_formed(next, rest, t1);
    }
    lemma_visible_rows_within_limit_or_zero(s.run(ops));
}

/// The finalized rows never exceed the history limit.
proof fn lemma_visible_rows_within_limit_or_zero(s: KeystrokeStateView)
    requires
        s.well_formed(),
    ensures
        s.history.len() <= s.history_limit,
        s.history_limit >= 1 ==> s.visible_rows() <= s.history_limit,
{
}

/// A display made with history limit `n`, after any sequence of operations, is
/// consistent (see `lemma_run_well_formed`); when the operations' times never go
/// back, its rows are in time order up to the latest time, so pruning then removes
/// exactly the expired rows (see `lemma_prune_expired_exact`).
pub proof fn lemma_run_from_new(n: usize, ops: Seq<DisplayOp>, t0: u64)
    requires
        new_display(n).counts_fit(ops),
    ensures
        new_display(n).run(ops).well_formed(),
        new_display(n).run(ops).history_limit >= 1 ==> new_display(n).run(ops).visible_rows()
            <= new_display(n).run(ops).history_limit,
        times_from(ops, t0) ==> chronological(new_display(n).run(ops).history, last_time(ops, t0)),
{
    lemma_new_well_formed(n);
    lemma_run_well_formed(new_display(n), ops, t0);
}

/// The display that `KeystrokeState::new(n)` makes.
pub open spec fn new_display(n: usize) -> KeystrokeStateView {
    KeystrokeStateView { active: Seq::empty(), history: Seq::empty(), history_limit: n, last_key_at: None }
}

} // verus!
