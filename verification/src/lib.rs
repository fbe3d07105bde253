//! Keystroke visualisation core: input normalisation, keystroke grouping and settings.

pub mod display;
pub mod hotkey;
pub mod icons;
pub mod input;
pub mod key_laws;
pub mod keystroke_laws;
pub mod keystrokes;
pub mod logging;
pub mod overlay;
pub mod rdev;
pub mod settings;
pub mod text;
pub mod tray;
pub mod wayland;
