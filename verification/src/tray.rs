//! Identifiers of the tray menu items.

use vstd::prelude::*;

use crate::text::text_eq;

verus! {

/// What a tray menu item asks for.
#[derive(Debug, Clone, Copy, PartialEq, Eq, Structural)]
pub enum TrayCommand {
    OpenSettings,
    ReloadSettings,
    OpenLog,
    Quit,
}

/// The identifiers of the tray menu items.
pub struct TrayItem;

impl TrayItem {
    pub const OPEN_SETTINGS: &'static str = "open-settings";
    pub const RELOAD_SETTINGS: &'static str = "reload-settings";
    pub const OPEN_LOG: &'static str = "open-log";
    pub const QUIT: &'static str = "quit";
}

/// The command of each tray menu item identifier.
pub open spec fn tray_command(id: Seq<char>) -> Option<TrayCommand> {
    if id == "open-settings"@ {
        Some(TrayCommand::OpenSettings)
    } else if id == "reload-settings"@ {
        Some(TrayCommand::ReloadSettings)
    } else if id == "open-log"@ {
        Some(TrayCommand::OpenLog)
    } else if id == "quit"@ {
        Some(TrayCommand::Quit)
    } else {
        None
    }
}

impl TrayItem {
    /// The command of the tray menu item `id`, if it is one of ours.
    pub fn command(id: &str) -> (r: Option<TrayCommand>)
        ensures
            r == tray_command(id@),
    {
        if text_eq(id, "open-settings") {
            Some(TrayCommand::OpenSettings)
        } else if text_eq(id, "reload-settings") {
            Some(TrayCommand::ReloadSettings)
        } else if text_eq(id, "open-log") {
            Some(TrayCommand::OpenLog)
        } else if text_eq(id, "quit") {
            Some(TrayCommand::Quit)
        } else {
            None
        }
    }
}

} // verus!
