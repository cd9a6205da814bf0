//! Offering updates: where a release's page is, and how the check for a newer
//! release moves the updates row between its states.

use vstd::prelude::*;
use vstd::string::*;

use crate::errors::GuiError;

verus! {

/// Where "Release Notes" and an available update point.
pub const RELEASES_URL: &'static str = "https://github.com/krishkalaria12/close-my-lid/releases";

/// Where "Report an Issue" points.
pub const ISSUES_URL: &'static str = "https://github.com/krishkalaria12/close-my-lid/issues/new";

/// A release newer than the running build, as the release feed announces it.
#[derive(Debug)]
pub struct UpdateInfo {
    pub version: String,
    pub url: String,
}

impl View for UpdateInfo {
    type V = (Seq<char>, Seq<char>);

    open spec fn view(&self) -> (Seq<char>, Seq<char>) {
        (self.version@, self.url@)
    }
}

impl UpdateInfo {
    pub fn duplicate(&self) -> (copy: Self)
        ensures
            copy@ == self@,
    {
        UpdateInfo { version: self.version.clone(), url: self.url.clone() }
    }
}

/// A version with every leading `v` removed, as `trim_start_matches('v')`
/// does.
pub open spec fn without_leading_v(version: Seq<char>) -> Seq<char>
    decreases version.len(),
{
    if version.len() > 0 && version[0] == 'v' {
        without_leading_v(version.subrange(1, version.len() as int))
    } else {
        version
    }
}

/// The release's page rather than the feed's download: the feed's download
/// is the macOS archive, and a Windows or Linux user picks their own asset.
pub open spec fn release_page_spec(update: (Seq<char>, Seq<char>)) -> Seq<char> {
    RELEASES_URL@ + "/tag/v"@ + without_leading_v(update.0)
}

pub fn release_page(update: &UpdateInfo) -> (page: String)
    ensures
        page@ == release_page_spec(update@),
{
    let version = update.version.as_str();
    let n = version.unicode_len();
    let mut start: usize = 0;
    assert(version@.subrange(0, n as int) =~= version@);
    while start < n && version.get_char(start) == 'v'
        invariant
            n == version@.len(),
            start <= n,
            without_leading_v(version@) == without_leading_v(
                version@.subrange(start as int, n as int),
            ),
        decreases n - start,
    {
        assert(version@.subrange(start as int, n as int).subrange(1, (n - start) as int)
            =~= version@.subrange(start + 1, n as int));
        start = start + 1;
    }
    if start == n {
        assert(version@.subrange(start as int, n as int) =~= Seq::<char>::empty());
    }
    let rest = version.substring_char(start, n);
    let mut page = String::from_str(RELEASES_URL);
    page.append("/tag/v");
    page.append(rest);
    page
}

/// Where the update check stands, for the updates row.
#[derive(Debug)]
pub enum UpdateStatus {
    /// Nothing checked yet this run.
    Unchecked,
    Checking,
    /// Checked by hand and found nothing; shown briefly, then back to
    /// `Unchecked` so the row reads as a button again.
    Current,
    Available(UpdateInfo),
}

/// What the updates row shows, by value.
pub enum UpdateStatusView {
    Unchecked,
    Checking,
    Current,
    Available((Seq<char>, Seq<char>)),
}

impl View for UpdateStatus {
    type V = UpdateStatusView;

    open spec fn view(&self) -> UpdateStatusView {
        match self {
            UpdateStatus::Unchecked => UpdateStatusView::Unchecked,
            UpdateStatus::Checking => UpdateStatusView::Checking,
            UpdateStatus::Current => UpdateStatusView::Current,
            UpdateStatus::Available(info) => UpdateStatusView::Available(info@),
        }
    }
}

impl UpdateStatus {
    pub fn duplicate(&self) -> (copy: Self)
        ensures
            copy@ == self@,
    {
        match self {
            UpdateStatus::Unchecked => UpdateStatus::Unchecked,
            UpdateStatus::Checking => UpdateStatus::Checking,
            UpdateStatus::Current => UpdateStatus::Current,
            UpdateStatus::Available(info) => UpdateStatus::Available(info.duplicate()),
        }
    }

    pub fn is_checking(&self) -> (checking: bool)
        ensures
            checking == (self@ is Checking),
    {
        match self {
            UpdateStatus::Checking => true,
            _ => false,
        }
    }
}

/// What to show while a check runs, or `None` when one is already running
/// and this one should not start. A check the user asked for shows
/// "Checking…"; a scheduled one leaves the row alone.
pub fn begin_check(current: &UpdateStatus, manual: bool) -> (shown: Option<UpdateStatus>)
    ensures
        current@ is Checking ==> shown is None,
        !(current@ is Checking) ==> shown is Some && shown.unwrap()@ == if manual {
            UpdateStatusView::Checking
        } else {
            current@
        },
{
    if current.is_checking() {
        return None;
    }
    if manual {
        Some(UpdateStatus::Checking)
    } else {
        Some(current.duplicate())
    }
}

/// Where a finished check leaves things: the row's new state, the error to
/// raise in the banner (only for a check the user asked for), and whether the
/// "up to date" answer should linger and then be cleared.
pub struct CheckOutcome {
    pub status: UpdateStatus,
    pub banner: Option<GuiError>,
    pub linger: bool,
}

/// The row after a check that began from `previous` (the state before the
/// check started) and came back with `result`.
pub open spec fn finished_status(
    previous: UpdateStatusView,
    manual: bool,
    result: Result<Option<(Seq<char>, Seq<char>)>, ()>,
) -> UpdateStatusView {
    match result {
        Ok(Some(update)) => UpdateStatusView::Available(update),
        Ok(None) => if manual {
            UpdateStatusView::Current
        } else {
            UpdateStatusView::Unchecked
        },
        Err(_) => match previous {
            UpdateStatusView::Available(update) => UpdateStatusView::Available(update),
            _ => UpdateStatusView::Unchecked,
        },
    }
}

/// The value a check came back with, with the error set aside.
pub open spec fn result_view(result: Result<Option<UpdateInfo>, GuiError>) -> Result<
    Option<(Seq<char>, Seq<char>)>,
    (),
> {
    match result {
        Ok(Some(update)) => Ok(Some(update@)),
        Ok(None) => Ok(None),
        Err(_) => Err(()),
    }
}

pub fn finish_check(
    previous: UpdateStatus,
    manual: bool,
    result: Result<Option<UpdateInfo>, GuiError>,
) -> (outcome: CheckOutcome)
    ensures
        outcome.status@ == finished_status(previous@, manual, result_view(result)),
        outcome.banner is Some <==> (manual && result is Err),
        match result {
            Err(error) => manual ==> outcome.banner == Some(error),
            _ => true,
        },
        outcome.linger == (manual && result matches Ok(None)),
{
    match result {
        Ok(Some(update)) => CheckOutcome {
            status: UpdateStatus::Available(update),
            banner: None,
            linger: false,
        },
        Ok(None) => {
            if manual {
                CheckOutcome { status: UpdateStatus::Current, banner: None, linger: true }
            } else {
                CheckOutcome { status: UpdateStatus::Unchecked, banner: None, linger: false }
            }
        },
        Err(error) => {
            let status = match previous {
                UpdateStatus::Available(update) => UpdateStatus::Available(update),
                _ => UpdateStatus::Unchecked,
            };
            let banner = if manual {
                Some(error)
            } else {
                None
            };
            CheckOutcome { status, banner, linger: false }
        },
    }
}

/// Once "up to date" has lingered, the row reads as a button again; any
/// other state is left as it is.
pub open spec fn after_linger_spec(status: UpdateStatusView) -> UpdateStatusView {
    match status {
        UpdateStatusView::Current => UpdateStatusView::Unchecked,
        other => other,
    }
}

pub fn after_linger(status: UpdateStatus) -> (next: UpdateStatus)
    ensures
        next@ == after_linger_spec(status@),
{
    match status {
        UpdateStatus::Current => UpdateStatus::Unchecked,
        other => other,
    }
}

/// A failed check never loses an update found earlier, and a check that
/// finds one always offers it, whether it was asked for or scheduled.
pub proof fn lemma_found_updates_are_kept(
    previous: UpdateStatusView,
    manual: bool,
    result: Result<Option<(Seq<char>, Seq<char>)>, ()>,
)
    ensures
        previous is Available && result is Err ==> finished_status(previous, manual, result)
            == previous,
        result matches Ok(Some(update)) ==> finished_status(previous, manual, result)
            == UpdateStatusView::Available(update),
{
}

/// A check that finds nothing ends with the row ready to check again: at
/// once for a scheduled check, after the "up to date" answer has lingered for
/// one the user asked for.
pub proof fn lemma_nothing_found_returns_to_unchecked(previous: UpdateStatusView, manual: bool)
    ensures
        after_linger_spec(finished_status(previous, manual, Ok(None)))
            == UpdateStatusView::Unchecked,
        !manual ==> finished_status(previous, manual, Ok(None)) == UpdateStatusView::Unchecked,
{
}

/// The menu panel's updates row: its title and the text on its right.
pub open spec fn footer_update_row_spec(update: Option<(Seq<char>, Seq<char>)>) -> (Seq<char>, Seq<char>) {
    match update {
        Some(info) => ("Update Available"@, info.0 + " →"@),
        None => ("Check for Updates…"@, Seq::empty()),
    }
}

pub fn footer_update_row(update: Option<&UpdateInfo>) -> (row: (String, String))
    ensures
        (row.0@, row.1@) == footer_update_row_spec(
            match update {
                Some(info) => Some(info@),
                None => None,
            },
        ),
{
    match update {
        Some(info) => {
            let mut trailing = info.version.clone();
            trailing.append(" →");
            (String::from_str("Update Available"), trailing)
        },
        None => (String::from_str("Check for Updates…"), String::new()),
    }
}

/// The line under the version on the Settings page's updates row.
pub open spec fn update_row_detail_spec(status: UpdateStatusView) -> Seq<char> {
    match status {
        UpdateStatusView::Unchecked => "Checked automatically every few hours."@,
        UpdateStatusView::Checking => "Checking…"@,
        UpdateStatusView::Current => "You're up to date."@,
        UpdateStatusView::Available(info) => "Version "@ + info.0 + " is available."@,
    }
}

pub fn update_row_detail(status: &UpdateStatus) -> (line: String)
    ensures
        line@ == update_row_detail_spec(status@),
{
    match status {
        UpdateStatus::Unchecked => String::from_str("Checked automatically every few hours."),
        UpdateStatus::Checking => String::from_str("Checking…"),
        UpdateStatus::Current => String::from_str("You're up to date."),
        UpdateStatus::Available(info) => {
            let mut line = String::from_str("Version ");
            line.append(info.version.as_str());
            line.append(" is available.");
            line
        },
    }
}

/// The sidebar's link to an available update.
pub fn sidebar_update_label(update: &UpdateInfo) -> (line: String)
    ensures
        line@ == "Update to "@ + update.version@,
{
    let mut line = String::from_str("Update to ");
    line.append(update.version.as_str());
    line
}

/// Whether the feed's reply can be read: a reply with no HTTP status, or one
/// in the 2xx range.
pub open spec fn reply_accepted_spec(status: Option<isize>) -> bool {
    match status {
        Some(code) => 200 <= code < 300,
        None => true,
    }
}

pub fn reply_accepted(status: Option<isize>) -> (accepted: bool)
    ensures
        accepted == reply_accepted_spec(status),
{
    match status {
        Some(code) => 200 <= code && code < 300,
        None => true,
    }
}

} // verus!
