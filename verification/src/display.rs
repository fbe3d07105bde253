//! What the keystroke overlay shows: one row of labels for each history row, then
//! the typing row, and below them the row of modifier indicators.

use vstd::prelude::*;

use crate::icons::Glyph;
use crate::keystrokes::{
    label_of, labels_view, modifier_labels, parts_view, BubbleKind, BubblePart, BubblePartView,
    KeyBubbleView, KeyLabel, KeyLabelView, KeystrokeStateView, Modifiers,
};
use crate::text::{decimal, decimal_string};

verus! {

/// One row of the overlay, drawn as a bubble of its kind.
#[derive(Debug)]
pub struct DisplayRow {
    pub kind: BubbleKind,
    pub labels: Vec<KeyLabel>,
    /// The repeat marker shown after a row that was counted more than once, such as `×2`.
    pub repeat: Option<String>,
}

/// The content of an overlay row.
pub struct DisplayRowView {
    pub kind: BubbleKind,
    pub labels: Seq<KeyLabelView>,
    pub repeat: Option<Seq<char>>,
}

impl View for DisplayRow {
    type V = DisplayRowView;

    open spec fn view(&self) -> DisplayRowView {
        DisplayRowView {
            kind: self.kind,
            labels: labels_view(self.labels@),
            repeat: match self.repeat {
                Some(t) => Some(t@),
                None => None,
            },
        }
    }
}

/// The views of a sequence of overlay rows.
pub open spec fn rows_view(rows: Seq<DisplayRow>) -> Seq<DisplayRowView> {
    rows.map_values(|r: DisplayRow| r@)
}

/// The labels of one part of a row: typed text as one text label, a key as the
/// labels of its modifiers followed by the label of the key.
pub open spec fn part_labels(part: BubblePartView) -> Seq<KeyLabelView> {
    match part {
        BubblePartView::Text(t) => seq![KeyLabelView::Text(t)],
        BubblePartView::Key(k) => modifier_labels(k.modifiers) + seq![label_of(k.key)],
    }
}

/// The labels of the parts of a row, one after the other.
pub open spec fn row_labels(parts: Seq<BubblePartView>) -> Seq<KeyLabelView>
    decreases parts.len(),
{
    if parts.len() == 0 {
        Seq::empty()
    } else {
        row_labels(parts.drop_last()) + part_labels(parts.last())
    }
}

/// A row counted more than once is marked with `×` and its count.
pub open spec fn repeat_marker(count: usize) -> Option<Seq<char>> {
    if count > 1 {
        Some(seq!['×'] + decimal(count as nat))
    } else {
        None
    }
}

/// How a history row is shown.
pub open spec fn history_row(b: KeyBubbleView) -> DisplayRowView {
    DisplayRowView { kind: b.kind, labels: row_labels(b.parts), repeat: repeat_marker(b.count) }
}

/// The rows of the overlay: every history row in order, oldest first, then the
/// typing row when it holds text.
pub open spec fn display_rows(s: KeystrokeStateView) -> Seq<DisplayRowView> {
    s.history.map_values(|b: KeyBubbleView| history_row(b)) + if s.active.len() > 0 {
        seq![
            DisplayRowView {
                kind: BubbleKind::Typing,
                labels: seq![KeyLabelView::Text(s.active)],
                repeat: None,
            },
        ]
    } else {
        Seq::empty()
    }
}

/// One indicator of the modifier row: the glyph of a modifier and whether it is held.
#[derive(Debug, Clone, Copy, PartialEq, Eq, Structural)]
pub struct ModifierIndicator {
    pub glyph: Glyph,
    pub held: bool,
}

/// The modifier row: Control, Alt, Shift and Meta, each lit while held.
pub open spec fn modifier_row(m: Modifiers) -> Seq<ModifierIndicator> {
    seq![
        ModifierIndicator { glyph: Glyph::ChevronUp, held: m.control },
        ModifierIndicator { glyph: Glyph::Option, held: m.alt },
        ModifierIndicator { glyph: Glyph::ArrowBigUp, held: m.shift },
        ModifierIndicator { glyph: Glyph::Command, held: m.meta },
    ]
}

/// The indicators of the modifier row for the held modifiers `m`.
pub fn modifier_indicators(m: &Modifiers) -> (r: Vec<ModifierIndicator>)
    ensures
        r@ == modifier_row(*m),
{
    let mut r: Vec<ModifierIndicator> = Vec::new();
    r.push(ModifierIndicator { glyph: Glyph::ChevronUp, held: m.control });
    r.push(ModifierIndicator { glyph: Glyph::Option, held: m.alt });
    r.push(ModifierIndicator { glyph: Glyph::ArrowBigUp, held: m.shift });
    r.push(ModifierIndicator { glyph: Glyph::Command, held: m.meta });
    assert(r@ =~= modifier_row(*m));
    r
}

/// The repeat marker of a row counted `count` times.
pub fn repeat_marker_text(count: usize) -> (r: Option<String>)
    ensures
        match repeat_marker(count) {
            Some(t) => r is Some && r->0@ == t,
            None => r is None,
        },
{
    if count > 1 {
        let mut text = String::new();
        text.push('×');
        let digits = decimal_string(count as u64);
        text.append(digits.as_str());
        assert(text@ =~= seq!['×'] + decimal(count as nat));
        Some(text)
    } else {
        None
    }
}

/// The labels of one part of a row.
fn labels_of_part(part: &BubblePart) -> (r: Vec<KeyLabel>)
    ensures
        labels_view(r@) == part_labels(part@),
{
    match part {
        BubblePart::Text(t) => {
            let mut r: Vec<KeyLabel> = Vec::new();
            r.push(KeyLabel::Text(t.clone()));
            assert(labels_view(r@) =~= seq![KeyLabelView::Text(t@)]);
            r
        },
        BubblePart::Key(k) => k.labels(),
    }
}

/// The labels of the parts of a row.
pub(crate) fn labels_of_parts(parts: &Vec<BubblePart>) -> (r: Vec<KeyLabel>)
    ensures
        labels_view(r@) == row_labels(parts_view(parts@)),
{
    let ghost pv = parts_view(parts@);
    let mut out: Vec<KeyLabel> = Vec::new();
    let mut i: usize = 0;
    assert(pv.take(0) =~= Seq::<BubblePartView>::empty());
    assert(labels_view(out@) =~= Seq::<KeyLabelView>::empty());
    while i < parts.len()
        invariant
            i <= parts@.len(),
            pv == parts_view(parts@),
            labels_view(out@) == row_labels(pv.take(i as int)),
        decreases parts@.len() - i,
    {
        let ghost before = out@;
        let mut more = labels_of_part(&parts[i]);
        let ghost added = more@;
        out.append(&mut more);
        proof {
            assert(out@ == before + added);
            assert(labels_view(before + added) =~= labels_view(before) + labels_view(added));
            assert(pv.take(i + 1).drop_last() =~= pv.take(i as int));
            assert(pv.take(i + 1).last() == pv[i as int]);
        }
        i = i + 1;
    }
    assert(pv.take(parts@.len() as int) =~= pv);
    out
}

} // verus!
