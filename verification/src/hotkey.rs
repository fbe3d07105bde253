//! Identifiers of the global hotkeys.

use vstd::prelude::*;

verus! {

/// The identifiers that the global hotkeys are registered with.
pub struct HotKeyId;

impl HotKeyId {
    pub const OPEN_SETTINGS: u32 = 0;
    pub const RELOAD_SETTINGS: u32 = 1;
    pub const OPEN_LOG: u32 = 2;
    pub const QUIT: u32 = 3;
}

} // verus!
