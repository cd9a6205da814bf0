//! Close My Lid: the decisions, wording and layout arithmetic shared by the
//! command line tool, the desktop app and the menu bar app, with the contracts
//! that pin each of them down.

pub mod text;
pub mod render;
pub mod errors;
pub mod layout;
pub mod cli;
pub mod clock;
pub mod agents;
pub mod updates;
pub mod supervision;
pub mod controller;
pub mod battery;
pub mod prefs;
pub mod pages;
pub mod login;
pub mod preview;
pub mod labels;
pub mod state;
