//! The errors each front end can report, and how each is worded.
//!
//! The core's own error arrives as a [`CoreError`]: its category, the sentence
//! it displays as, and its hint, which is everything the reporting here reads.

use vstd::prelude::*;
use vstd::string::*;

verus! {

/// The product's name, as every message spells it.
pub const APP_NAME: &'static str = "Close My Lid";

/// The categories of core failure that the front ends tell apart.
#[derive(Debug, Clone, Copy, PartialEq, Eq, Structural)]
pub enum CoreErrorKind {
    /// The feature does not exist on this machine.
    UnsupportedPlatform,
    /// The system understood the request and refused it.
    Denied,
    /// Reading or writing state failed.
    Io,
    /// Recorded state could not be read back.
    Decode,
    /// State could not be written out.
    Encode,
    /// The administrator prompt was dismissed.
    ElevationCancelled,
    /// Anything else.
    Other,
}

/// A failure reported by the core: what kind it is, the sentence it displays
/// as, and the actionable next step, where there is one.
#[derive(Debug)]
pub struct CoreError {
    pub kind: CoreErrorKind,
    pub message: String,
    pub hint: Option<String>,
}

/// The view of an optional string.
pub open spec fn opt_view(text: Option<String>) -> Option<Seq<char>> {
    match text {
        Some(s) => Some(s@),
        None => None,
    }
}

/// The view of an optional borrowed string.
pub open spec fn opt_str_view(text: Option<&str>) -> Option<Seq<char>> {
    match text {
        Some(s) => Some(s@),
        None => None,
    }
}

fn borrow_hint(hint: &Option<String>) -> (h: Option<&str>)
    ensures
        opt_str_view(h) == opt_view(*hint),
{
    match hint {
        Some(text) => Some(text.as_str()),
        None => None,
    }
}

/// Every error the command line tool can produce.
#[derive(Debug)]
pub enum CliError {
    /// A core failure, shown as the core words it.
    Lid(CoreError),
    /// The Ctrl-C handler could not be installed; holds why.
    SignalHandler(String),
    /// Standard output could not be written; holds why.
    Output(String),
}

pub const SIGNAL_HANDLER_HINT: &'static str = "Another handler may already be installed. Try running the command directly rather than under a wrapper.";

impl CliError {
    /// The hint shown under the error, by variant.
    pub open spec fn hint_spec(&self) -> Option<Seq<char>> {
        match self {
            CliError::Lid(error) => opt_view(error.hint),
            CliError::SignalHandler(_) => Some(SIGNAL_HANDLER_HINT@),
            CliError::Output(_) => None,
        }
    }

    /// Actionable next step, where there is one.
    pub fn hint(&self) -> (h: Option<&str>)
        ensures
            opt_str_view(h) == self.hint_spec(),
    {
        match self {
            CliError::Lid(error) => borrow_hint(&error.hint),
            CliError::SignalHandler(_) => Some(SIGNAL_HANDLER_HINT),
            CliError::Output(_) => None,
        }
    }

    /// The process exit code, following `sysexits.h` so scripts can branch on
    /// the category without parsing text.
    pub open spec fn exit_code_spec(&self) -> u8 {
        match self {
            CliError::Lid(error) => match error.kind {
                CoreErrorKind::UnsupportedPlatform => 69,
                CoreErrorKind::Denied => 77,
                CoreErrorKind::Io | CoreErrorKind::Decode | CoreErrorKind::Encode => 72,
                _ => 1,
            },
            CliError::Output(_) => 74,
            CliError::SignalHandler(_) => 1,
        }
    }

    pub fn exit_code(&self) -> (code: u8)
        ensures
            code == self.exit_code_spec(),
    {
        match self {
            CliError::Lid(error) => match error.kind {
                CoreErrorKind::UnsupportedPlatform => 69,
                CoreErrorKind::Denied => 77,
                CoreErrorKind::Io | CoreErrorKind::Decode | CoreErrorKind::Encode => 72,
                _ => 1,
            },
            CliError::Output(_) => 74,
            CliError::SignalHandler(_) => 1,
        }
    }

    /// The sentence the error displays as.
    pub open spec fn message_spec(&self) -> Seq<char> {
        match self {
            CliError::Lid(error) => error.message@,
            CliError::SignalHandler(_) => "could not listen for Ctrl-C"@,
            CliError::Output(_) => "could not write output"@,
        }
    }

    pub fn message(&self) -> (text: String)
        ensures
            text@ == self.message_spec(),
    {
        match self {
            CliError::Lid(error) => error.message.clone(),
            CliError::SignalHandler(_) => String::from_str("could not listen for Ctrl-C"),
            CliError::Output(_) => String::from_str("could not write output"),
        }
    }

    /// The lines printed to standard error: the error, each underlying cause
    /// in turn, and the hint after a blank line.
    pub open spec fn report_spec(&self, causes: Seq<Seq<char>>) -> Seq<Seq<char>> {
        let head = seq!["close-my-lid: "@ + self.message_spec()];
        let middle = causes.map_values(|cause: Seq<char>| "  caused by: "@ + cause);
        let tail = match self.hint_spec() {
            Some(hint) => seq!["\nhint: "@ + hint],
            None => Seq::empty(),
        };
        head + middle + tail
    }

    pub fn report(&self, causes: &Vec<String>) -> (lines: Vec<String>)
        ensures
            lines@.map_values(|line: String| line@) == self.report_spec(
                causes@.map_values(|cause: String| cause@),
            ),
    {
        let ghost cause_views = causes@.map_values(|cause: String| cause@);
        let mut lines: Vec<String> = Vec::new();
        let mut first = String::from_str("close-my-lid: ");
        let message = self.message();
        first.append(message.as_str());
        lines.push(first);
        let mut i: usize = 0;
        while i < causes.len()
            invariant
                i <= causes@.len(),
                cause_views == causes@.map_values(|cause: String| cause@),
                lines@.map_values(|line: String| line@) == seq![
                    "close-my-lid: "@ + self.message_spec(),
                ] + cause_views.take(i as int).map_values(
                    |cause: Seq<char>| "  caused by: "@ + cause,
                ),
            decreases causes.len() - i,
        {
            let mut line = String::from_str("  caused by: ");
            line.append(causes[i].as_str());
            let ghost before = lines@;
            let ghost added = line@;
            lines.push(line);
            assert(lines@.map_values(|line: String| line@) =~= before.map_values(
                |line: String| line@,
            ).push(added));
            assert(cause_views.take(i + 1) =~= cause_views.take(i as int).push(cause_views[i as int]));
            assert(cause_views.take(i + 1).map_values(|cause: Seq<char>| "  caused by: "@ + cause)
                =~= cause_views.take(i as int).map_values(|cause: Seq<char>| "  caused by: "@ + cause).push(
                added,
            ));
            assert(lines@.map_values(|line: String| line@) =~= seq![
                "close-my-lid: "@ + self.message_spec(),
            ] + cause_views.take(i + 1).map_values(|cause: Seq<char>| "  caused by: "@ + cause));
            i = i + 1;
        }
        assert(cause_views.take(causes.len() as int) =~= cause_views);
        match self.hint() {
            Some(hint) => {
                let mut last = String::from_str("\nhint: ");
                last.append(hint);
                lines.push(last);
            },
            None => {},
        }
        assert(lines@.map_values(|line: String| line@) =~= self.report_spec(cause_views));
        lines
    }
}


/// Scripts can branch on the failure's category: an unsupported platform, a
/// refusal, a state problem and an output problem each exit with a code of
/// their own, and none of them with plain failure.
pub proof fn lemma_exit_codes_tell_categories_apart(a: CliError, b: CliError, c: CliError)
    requires
        a matches CliError::Lid(e) && e.kind == CoreErrorKind::UnsupportedPlatform,
        b matches CliError::Lid(e) && e.kind == CoreErrorKind::Denied,
        c is Output,
    ensures
        a.exit_code_spec() != b.exit_code_spec(),
        a.exit_code_spec() != 1 && b.exit_code_spec() != 1 && c.exit_code_spec() != 1,
        c.exit_code_spec() != a.exit_code_spec(),
        c.exit_code_spec() != b.exit_code_spec(),
{
}

/// The core's hint reaches the user unchanged, through either front end, and
/// so does its message.
pub proof fn lemma_core_errors_pass_through(error: CoreError)
    ensures
        CliError::Lid(error).hint_spec() == opt_view(error.hint),
        CliError::Lid(error).message_spec() == error.message@,
        GuiError::Lid(error).hint_spec() == opt_view(error.hint),
        (GuiError::NoBackend { source: error }).hint_spec() == opt_view(error.hint),
        GuiError::Lid(error).message_spec() == error.message@,
{
}

/// The first character written in upper case, as `char::to_uppercase` maps
/// it (which may be more than one character).
pub uninterp spec fn uppercase_of(c: char) -> Seq<char>;

/// `char::to_uppercase`, collected into a string.
#[verifier::external_body]
fn uppercase(c: char) -> (upper: String)
    ensures
        upper@ == uppercase_of(c),
{
    c.to_uppercase().collect()
}

/// A sentence fragment with its first character in upper case.
pub open spec fn capitalised(text: Seq<char>) -> Seq<char> {
    if text.len() == 0 {
        Seq::empty()
    } else {
        uppercase_of(text[0]) + text.subrange(1, text.len() as int)
    }
}

/// Core errors are written as sentence fragments for the command line's
/// `error: …` prefix; a banner shows them on their own, capitalised.
pub fn capitalise(text: &str) -> (sentence: String)
    ensures
        sentence@ == capitalised(text@),
{
    let n = text.unicode_len();
    if n == 0 {
        return String::new();
    }
    let mut sentence = uppercase(text.get_char(0));
    let rest = text.substring_char(1, n);
    sentence.append(rest);
    sentence
}

/// Capitalising changes only the first character: the rest of the sentence
/// is kept as written, and an empty fragment stays empty.
pub proof fn lemma_capitalise_keeps_the_rest(text: Seq<char>)
    ensures
        text.len() == 0 ==> capitalised(text).len() == 0,
        text.len() > 0 ==> capitalised(text).subrange(
            uppercase_of(text[0]).len() as int,
            capitalised(text).len() as int,
        ) == text.subrange(1, text.len() as int),
{
    if text.len() > 0 {
        assert(capitalised(text).subrange(
            uppercase_of(text[0]).len() as int,
            capitalised(text).len() as int,
        ) =~= text.subrange(1, text.len() as int));
    }
}

/// Every error the desktop app can produce. Each is built to be displayed:
/// a short headline for the banner and a hint under it.
#[derive(Debug)]
pub enum GuiError {
    /// A core failure.
    Lid(CoreError),
    /// No backend could be built at startup, so no control is possible.
    NoBackend { source: CoreError },
    Window { detail: String },
    UpdateFeed { detail: String },
    LoginItem { detail: String },
    Settings { detail: String },
}

pub const UPDATE_FEED_HINT: &'static str = "Check your connection and try again.";

impl GuiError {
    pub open spec fn headline_spec(&self) -> Seq<char> {
        match self {
            GuiError::Lid(error) => capitalised(error.message@),
            GuiError::NoBackend { .. } => "Lid control unavailable"@,
            GuiError::Window { .. } => "Could not open the window"@,
            GuiError::UpdateFeed { .. } => "Could not check for updates"@,
            GuiError::LoginItem { .. } => "Could not change launch at login"@,
            GuiError::Settings { .. } => "Could not save settings"@,
        }
    }

    /// Short enough for the window's banner.
    pub fn headline(&self) -> (line: String)
        ensures
            line@ == self.headline_spec(),
    {
        match self {
            GuiError::Lid(error) => capitalise(error.message.as_str()),
            GuiError::NoBackend { .. } => String::from_str("Lid control unavailable"),
            GuiError::Window { .. } => String::from_str("Could not open the window"),
            GuiError::UpdateFeed { .. } => String::from_str("Could not check for updates"),
            GuiError::LoginItem { .. } => String::from_str("Could not change launch at login"),
            GuiError::Settings { .. } => String::from_str("Could not save settings"),
        }
    }

    pub open spec fn hint_spec(&self) -> Option<Seq<char>> {
        match self {
            GuiError::Lid(error) => opt_view(error.hint),
            GuiError::NoBackend { source } => opt_view(source.hint),
            GuiError::UpdateFeed { .. } => Some(UPDATE_FEED_HINT@),
            GuiError::Window { detail } => Some(detail@),
            GuiError::LoginItem { detail } => Some(detail@),
            GuiError::Settings { detail } => Some(detail@),
        }
    }

    /// The actionable next step, shown under the headline.
    pub fn hint(&self) -> (h: Option<&str>)
        ensures
            opt_str_view(h) == self.hint_spec(),
    {
        match self {
            GuiError::Lid(error) => borrow_hint(&error.hint),
            GuiError::NoBackend { source } => borrow_hint(&source.hint),
            GuiError::UpdateFeed { .. } => Some(UPDATE_FEED_HINT),
            GuiError::Window { detail } => Some(detail.as_str()),
            GuiError::LoginItem { detail } => Some(detail.as_str()),
            GuiError::Settings { detail } => Some(detail.as_str()),
        }
    }

    pub open spec fn message_spec(&self) -> Seq<char> {
        match self {
            GuiError::Lid(error) => error.message@,
            GuiError::NoBackend { .. } => "Close My Lid cannot control this system's lid behaviour"@,
            GuiError::Window { detail } => "could not open the window: "@ + detail@,
            GuiError::UpdateFeed { detail } => "could not read the update feed: "@ + detail@,
            GuiError::LoginItem { detail } => "could not change launch at login: "@ + detail@,
            GuiError::Settings { detail } => "could not save settings: "@ + detail@,
        }
    }

    /// The full sentence, as logged.
    pub fn message(&self) -> (text: String)
        ensures
            text@ == self.message_spec(),
    {
        match self {
            GuiError::Lid(error) => error.message.clone(),
            GuiError::NoBackend { .. } => String::from_str(
                "Close My Lid cannot control this system's lid behaviour",
            ),
            GuiError::Window { detail } => {
                let mut text = String::from_str("could not open the window: ");
                text.append(detail.as_str());
                text
            },
            GuiError::UpdateFeed { detail } => {
                let mut text = String::from_str("could not read the update feed: ");
                text.append(detail.as_str());
                text
            },
            GuiError::LoginItem { detail } => {
                let mut text = String::from_str("could not change launch at login: ");
                text.append(detail.as_str());
                text
            },
            GuiError::Settings { detail } => {
                let mut text = String::from_str("could not save settings: ");
                text.append(detail.as_str());
                text
            },
        }
    }
}

/// Every headline the app writes itself fits the banner: under forty
/// characters.
pub proof fn lemma_fixed_headlines_fit_the_banner(error: GuiError)
    requires
        !(error is Lid),
    ensures
        error.headline_spec().len() < 40,
{
    reveal_strlit("Lid control unavailable");
    reveal_strlit("Could not open the window");
    reveal_strlit("Could not check for updates");
    reveal_strlit("Could not change launch at login");
    reveal_strlit("Could not save settings");
}

/// Which error the window's banner shows, and whether it can be dismissed: a
/// backend that failed to start outranks everything and stays, since nothing
/// else in the window will work; otherwise the last refusal, until dismissed.
pub fn banner_choice<'a>(startup: Option<&'a GuiError>, last: Option<&'a GuiError>) -> (shown: Option<
    (&'a GuiError, bool),
>)
    ensures
        shown == match (startup, last) {
            (Some(error), _) => Some((error, false)),
            (None, Some(error)) => Some((error, true)),
            (None, None) => None,
        },
{
    match (startup, last) {
        (Some(error), _) => Some((error, false)),
        (None, Some(error)) => Some((error, true)),
        (None, None) => None,
    }
}

/// The alert's first line for a refused change to the sleep settings.
pub open spec fn alert_headline_spec(error: CoreError) -> Seq<char> {
    if error.kind == CoreErrorKind::ElevationCancelled {
        "Administrator approval cancelled"@
    } else {
        "Close My Lid could not update sleep settings."@
    }
}

pub fn alert_headline(error: &CoreError) -> (line: String)
    ensures
        line@ == alert_headline_spec(*error),
{
    match error.kind {
        CoreErrorKind::ElevationCancelled => String::from_str("Administrator approval cancelled"),
        _ => String::from_str("Close My Lid could not update sleep settings."),
    }
}

/// The alert's informative text: the cause, then what to do about it. A
/// cancelled prompt needs no cause, only the hint.
pub open spec fn alert_detail_spec(error: CoreError) -> Seq<char> {
    match error.hint {
        Some(hint) => if error.kind == CoreErrorKind::ElevationCancelled {
            hint@
        } else {
            error.message@ + "\n\n"@ + hint@
        },
        None => error.message@,
    }
}

pub fn alert_detail(error: &CoreError) -> (text: String)
    ensures
        text@ == alert_detail_spec(*error),
{
    match &error.hint {
        Some(hint) => {
            if error.kind == CoreErrorKind::ElevationCancelled {
                hint.clone()
            } else {
                let mut text = error.message.clone();
                text.append("\n\n");
                text.append(hint.as_str());
                text
            }
        },
        None => error.message.clone(),
    }
}

/// The Settings window's wording for a failed settings change.
pub open spec fn settings_message_spec(error: CoreError) -> Seq<char> {
    if error.kind == CoreErrorKind::ElevationCancelled {
        "Administrator approval cancelled."@
    } else {
        error.message@
    }
}

pub fn settings_message(error: &CoreError) -> (text: String)
    ensures
        text@ == settings_message_spec(*error),
{
    match error.kind {
        CoreErrorKind::ElevationCancelled => String::from_str("Administrator approval cancelled."),
        _ => error.message.clone(),
    }
}

} // verus!
