//! The desktop window's pages and the keys that reach them, and the keys the
//! menu panel claims.

use vstd::prelude::*;
use vstd::string::*;

use crate::text::same_text;

verus! {

#[derive(Debug, Clone, Copy, PartialEq, Eq, Structural)]
pub enum Page {
    Overview,
    Agents,
    Settings,
}

impl Page {
    pub open spec fn title_spec(self) -> Seq<char> {
        match self {
            Page::Overview => "Overview"@,
            Page::Agents => "Agents"@,
            Page::Settings => "Settings"@,
        }
    }

    pub fn title(self) -> (title: &'static str)
        ensures
            title@ == self.title_spec(),
    {
        match self {
            Page::Overview => "Overview",
            Page::Agents => "Agents",
            Page::Settings => "Settings",
        }
    }

    /// The key that, with the platform's command key, opens the page.
    pub open spec fn shortcut_spec(self) -> Seq<char> {
        match self {
            Page::Overview => "1"@,
            Page::Agents => "2"@,
            Page::Settings => ","@,
        }
    }

    pub fn shortcut(self) -> (key: &'static str)
        ensures
            key@ == self.shortcut_spec(),
    {
        match self {
            Page::Overview => "1",
            Page::Agents => "2",
            Page::Settings => ",",
        }
    }
}

/// How a keyboard shortcut is written: with the command symbol on a Mac,
/// `Ctrl+` elsewhere.
pub open spec fn shortcut_text_spec(key: Seq<char>, mac: bool) -> Seq<char> {
    if mac { "⌘"@ + key } else { "Ctrl+"@ + key }
}

pub fn shortcut(key: &str, mac: bool) -> (label: String)
    ensures
        label@ == shortcut_text_spec(key@, mac),
{
    let mut label = if mac {
        String::from_str("⌘")
    } else {
        String::from_str("Ctrl+")
    };
    label.append(key);
    label
}

/// The Settings window's line about the one-time administrator grant.
pub fn grant_status(granted: bool) -> (line: &'static str)
    ensures
        line@ == if granted {
            "Granted. Holds start, end, and restore without asking for your password."@
        } else {
            "Not granted yet. Every hold change asks for your password."@
        },
{
    if granted {
        "Granted. Holds start, end, and restore without asking for your password."
    } else {
        "Not granted yet. Every hold change asks for your password."
    }
}

/// The grant button's title.
pub fn grant_button(granted: bool) -> (title: &'static str)
    ensures
        title@ == if granted { "Remove…"@ } else { "Grant Once…"@ },
{
    if granted {
        "Remove…"
    } else {
        "Grant Once…"
    }
}

/// Escape's virtual key code.
pub const KEY_ESCAPE: u16 = 53;

/// The keystrokes the menu panel claims while it is key.
#[derive(Debug, Clone, Copy, PartialEq, Eq, Structural)]
pub enum KeyAction {
    Dismiss,
    Quit,
    Settings,
}

/// Escape dismisses the panel; with the command key held, `q` quits and `,`
/// opens Settings. `characters` is what the key types, ignoring modifiers.
pub open spec fn key_action_spec(key_code: u16, command: bool, characters: Option<Seq<char>>) -> Option<
    KeyAction,
> {
    if key_code == KEY_ESCAPE {
        Some(KeyAction::Dismiss)
    } else if !command {
        None
    } else {
        match characters {
            Some(typed) => if typed == "q"@ {
                Some(KeyAction::Quit)
            } else if typed == ","@ {
                Some(KeyAction::Settings)
            } else {
                None
            },
            None => None,
        }
    }
}

pub fn key_action(key_code: u16, command: bool, characters: Option<&str>) -> (action: Option<
    KeyAction,
>)
    ensures
        action == key_action_spec(
            key_code,
            command,
            match characters {
                Some(typed) => Some(typed@),
                None => None,
            },
        ),
{
    if key_code == KEY_ESCAPE {
        return Some(KeyAction::Dismiss);
    }
    if !command {
        return None;
    }
    match characters {
        Some(typed) => if same_text(typed, "q") {
            Some(KeyAction::Quit)
        } else if same_text(typed, ",") {
            Some(KeyAction::Settings)
        } else {
            None
        },
        None => None,
    }
}

} // verus!
