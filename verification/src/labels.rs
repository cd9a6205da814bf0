//! The fixed wording the desktop window picks between, by state.

use vstd::prelude::*;
use vstd::string::*;

use crate::text::{decimal, decimal_text};

verus! {

/// The hold's tag, in the hero and the sidebar.
pub fn hold_tag(active: bool) -> (tag: &'static str)
    ensures
        tag@ == if active { "Holding"@ } else { "Not holding"@ },
{
    if active {
        "Holding"
    } else {
        "Not holding"
    }
}

/// The tray panel's toggle.
pub fn toggle_label(active: bool) -> (label: &'static str)
    ensures
        label@ == if active { "On"@ } else { "Off"@ },
{
    if active {
        "On"
    } else {
        "Off"
    }
}

/// The hero's main button.
pub fn hold_button(active: bool) -> (title: &'static str)
    ensures
        title@ == if active { "Stop Holding"@ } else { "Start Holding"@ },
{
    if active {
        "Stop Holding"
    } else {
        "Start Holding"
    }
}

/// The caption over the length picker: while a hold runs, picking another
/// length restarts it.
pub fn duration_caption(active: bool) -> (caption: &'static str)
    ensures
        caption@ == if active { "Duration — picking another restarts the hold"@ } else {
            "Duration"@
        },
{
    if active {
        "Duration — picking another restarts the hold"
    } else {
        "Duration"
    }
}

/// How the lid is held on this system, or why it cannot be.
pub fn mechanism_text<'a>(mechanism: Option<&'a str>) -> (text: &'a str)
    ensures
        text@ == match mechanism {
            Some(m) => m@,
            None => "No lid control is available on this system."@,
        },
{
    match mechanism {
        Some(m) => m,
        None => "No lid control is available on this system.",
    }
}

/// The Agents card's big figure and its quieter unit: "All idle", or the
/// number of agents working.
pub fn agents_headline(working: usize) -> (figure: (String, Option<&'static str>))
    ensures
        figure.0@ == if working == 0 { "All idle"@ } else { decimal(working as nat) },
        figure.1 == if working == 0 { None } else { Some(" working") },
{
    if working == 0 {
        (String::from_str("All idle"), None)
    } else {
        (decimal_text(working as u64), Some(" working"))
    }
}

/// The Battery card on a machine with no battery.
pub const NO_BATTERY_FIGURE: &'static str = "Plugged in";

pub const NO_BATTERY_CAPTION: &'static str = "No battery found, so there is no battery limit.";

} // verus!
