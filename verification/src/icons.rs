//! Keyboard symbols of the icon font.

use vstd::prelude::*;

verus! {

/// Keyboard symbols of the icon font, each with its code point.
#[derive(Debug, Clone, Copy, PartialEq, Eq, Structural)]
pub enum Icon {
    KbdAlt,
    KbdBackspace,
    KbdControl,
    KbdDelete,
    KbdArrowDown,
    KbdEnd,
    KbdEscape,
    KbdHome,
    KbdArrowLeft,
    KbdMeta,
    KbdPageDown,
    KbdPageUp,
    KbdEnter,
    KbdArrowRight,
    KbdShift,
    KbdSpace,
    KbdTab,
    KbdArrowUp,
}

/// The code point of each icon in the icon font: consecutive from U+EA01.
pub open spec fn icon_codepoint(icon: Icon) -> u32 {
    match icon {
        Icon::KbdAlt => 0xea01,
        Icon::KbdBackspace => 0xea02,
        Icon::KbdControl => 0xea03,
        Icon::KbdDelete => 0xea04,
        Icon::KbdArrowDown => 0xea05,
        Icon::KbdEnd => 0xea06,
        Icon::KbdEscape => 0xea07,
        Icon::KbdHome => 0xea08,
        Icon::KbdArrowLeft => 0xea09,
        Icon::KbdMeta => 0xea0a,
        Icon::KbdPageDown => 0xea0b,
        Icon::KbdPageUp => 0xea0c,
        Icon::KbdEnter => 0xea0d,
        Icon::KbdArrowRight => 0xea0e,
        Icon::KbdShift => 0xea0f,
        Icon::KbdSpace => 0xea10,
        Icon::KbdTab => 0xea11,
        Icon::KbdArrowUp => 0xea12,
    }
}

impl Icon {
    /// The character that draws this icon with the icon font.
    pub fn codepoint(&self) -> (c: char)
        ensures
            c as u32 == icon_codepoint(*self),
    {
        match self {
            Icon::KbdAlt => '\u{ea01}',
            Icon::KbdBackspace => '\u{ea02}',
            Icon::KbdControl => '\u{ea03}',
            Icon::KbdDelete => '\u{ea04}',
            Icon::KbdArrowDown => '\u{ea05}',
            Icon::KbdEnd => '\u{ea06}',
            Icon::KbdEscape => '\u{ea07}',
            Icon::KbdHome => '\u{ea08}',
            Icon::KbdArrowLeft => '\u{ea09}',
            Icon::KbdMeta => '\u{ea0a}',
            Icon::KbdPageDown => '\u{ea0b}',
            Icon::KbdPageUp => '\u{ea0c}',
            Icon::KbdEnter => '\u{ea0d}',
            Icon::KbdArrowRight => '\u{ea0e}',
            Icon::KbdShift => '\u{ea0f}',
            Icon::KbdSpace => '\u{ea10}',
            Icon::KbdTab => '\u{ea11}',
            Icon::KbdArrowUp => '\u{ea12}',
        }
    }
}

/// Named symbols of the keyboard glyph font that keystroke labels are drawn with.
#[derive(Debug, Clone, Copy, PartialEq, Eq, Structural)]
pub enum Glyph {
    ChevronUp,
    Option,
    ArrowBigUp,
    Command,
    Delete,
    DeleteRev,
    CircleArrowOutUpLeft,
    CornerDownLeft,
    ArrowRightToLine,
    SpaceNarrow,
    ArrowUp,
    ArrowDown,
    ArrowLeft,
    ArrowRight,
    ArrowUpLeft,
    ArrowDownRight,
    ArrowUpToLine,
    ArrowDownToLine,
    Insert,
    ArrowBigUpDash,
    Pause,
    Volume2,
    Volume1,
    VolumeOff,
    Sun,
    SunDim,
    SkipBack,
    PlayPause,
    Disc3,
    SkipForward,
}

} // verus!
