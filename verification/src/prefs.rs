//! The desktop app's own preferences: only what the command line tool has no
//! use for.

use vstd::prelude::*;

verus! {

#[derive(Debug, Clone, Copy, PartialEq, Eq, Structural)]
pub struct GuiPrefs {
    /// Post notifications when a hold starts, is about to end, and ends.
    pub notifications: bool,
}

impl Default for GuiPrefs {
    /// Notifications are on until turned off.
    fn default() -> (prefs: Self)
        ensures
            prefs.notifications,
    {
        GuiPrefs { notifications: true }
    }
}

} // verus!
