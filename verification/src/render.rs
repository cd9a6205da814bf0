//! What the command line tool prints.

use vstd::prelude::*;
use vstd::string::*;

use crate::agents::{session_detail, session_detail_spec};
use crate::clock::{seconds_between, whole_seconds};
use crate::errors::APP_NAME;
use crate::text::{decimal, decimal_text, space_text, spaces};

verus! {

/// A systemd user unit for running a hold in the background, as `systemd`
/// prints it.
pub const SYSTEMD_UNIT: &'static str = "# Save to ~/.config/systemd/user/close-my-lid.service
# Then: systemctl --user daemon-reload && systemctl --user start close-my-lid
#
# The hold lasts exactly as long as this unit runs, because the logind
# inhibitor is tied to the process's file descriptor. Stopping the unit
# restores normal sleep; so does a crash.

[Unit]
Description=Close My Lid — hold the lid open for long-running work
Documentation=https://github.com/krishkalaria12/close-my-lid
After=systemd-logind.service
Wants=systemd-logind.service

[Service]
Type=simple
ExecStart=%h/.local/bin/close-my-lid enable --for unlimited
# No auto-restart: after a crash the state file still says Active while no
# hold exists, and the next manual `enable` reconciles that honestly instead
# of silently re-taking a hold the user may no longer want.
Restart=no

[Install]
WantedBy=default.target
";

/// The unit text, as `systemd` prints it.
pub fn systemd_unit() -> (unit: &'static str)
    ensures
        unit@ == SYSTEMD_UNIT@,
{
    SYSTEMD_UNIT
}

/// The line printed while `disable` waits for another process to let go.
pub fn asked_owner_to_stop(pid: u32) -> (line: String)
    ensures
        line@ == "Asking the holding process (pid "@ + decimal(pid as nat) + ") to stop…"@,
{
    let mut line = String::from_str("Asking the holding process (pid ");
    let number = decimal_text(pid as u64);
    line.append(number.as_str());
    line.append(") to stop…");
    line
}

/// The line printed when a timed hold runs out.
pub fn hold_expired() -> (line: String)
    ensures
        line@ == "\nSession ended; normal sleep restored."@,
{
    String::from_str("\nSession ended; normal sleep restored.")
}

/// The line printed when the user releases a hold with Ctrl-C.
pub fn hold_released() -> (line: String)
    ensures
        line@ == "\nReleased. Normal sleep restored."@,
{
    String::from_str("\nReleased. Normal sleep restored.")
}


/// The lines printed once a hold is taken: its length as the core labels it,
/// and the mechanism holding the lid.
pub open spec fn hold_started_spec(label: Seq<char>, backend: Seq<char>) -> Seq<Seq<char>> {
    seq![
        APP_NAME@ + " is holding the lid open ("@ + label + ")."@,
        "Mechanism: "@ + backend + "."@,
        "Press Ctrl-C to release."@,
    ]
}

pub fn hold_started(label: &str, backend: &str) -> (lines: Vec<String>)
    ensures
        lines@.map_values(|line: String| line@) == hold_started_spec(label@, backend@),
{
    let mut first = String::from_str(APP_NAME);
    first.append(" is holding the lid open (");
    first.append(label);
    first.append(").");
    let mut second = String::from_str("Mechanism: ");
    second.append(backend);
    second.append(".");
    let third = String::from_str("Press Ctrl-C to release.");
    let lines = vec![first, second, third];
    assert(lines@.map_values(|line: String| line@) =~= hold_started_spec(label@, backend@));
    lines
}

/// The line printed once `disable` has released the hold.
pub fn sleep_restored() -> (line: String)
    ensures
        line@ == APP_NAME@ + " restored normal sleep behaviour."@,
{
    let mut line = String::from_str(APP_NAME);
    line.append(" restored normal sleep behaviour.");
    line
}

/// The hold as `status` reports it. `held` is what the system actually
/// reports, which can disagree with the recorded state: a killed `enable`
/// loses its hold without updating the record. Reality wins, and the
/// disagreement is called out.
pub open spec fn status_spec(
    recorded_active: bool,
    held: bool,
    owner: Option<u32>,
    summary: Seq<char>,
    backend: Seq<char>,
) -> Seq<Seq<char>> {
    let stale = recorded_active && !held;
    let state = if stale {
        seq![
            "Off — sleeps normally"@,
            "note: a session was recorded but nothing is holding the lid;"@,
            "      the process that owned it is gone. Run `close-my-lid enable` to restart it."@,
        ]
    } else {
        seq![summary]
    };
    let holder = match owner {
        Some(pid) => seq!["held by: pid "@ + decimal(pid as nat)],
        None => Seq::empty(),
    };
    state + holder + seq!["mechanism: "@ + backend]
}

pub fn status(
    recorded_active: bool,
    held: bool,
    owner: Option<u32>,
    summary: &str,
    backend: &str,
) -> (lines: Vec<String>)
    ensures
        lines@.map_values(|line: String| line@) == status_spec(
            recorded_active,
            held,
            owner,
            summary@,
            backend@,
        ),
{
    let mut lines: Vec<String> = Vec::new();
    if recorded_active && !held {
        lines.push(String::from_str("Off — sleeps normally"));
        lines.push(String::from_str("note: a session was recorded but nothing is holding the lid;"));
        lines.push(
            String::from_str(
                "      the process that owned it is gone. Run `close-my-lid enable` to restart it.",
            ),
        );
    } else {
        lines.push(String::from_str(summary));
    }
    match owner {
        Some(pid) => {
            let mut line = String::from_str("held by: pid ");
            let number = decimal_text(pid as u64);
            line.append(number.as_str());
            lines.push(line);
        },
        None => {},
    }
    let mut last = String::from_str("mechanism: ");
    last.append(backend);
    lines.push(last);
    assert(lines@.map_values(|line: String| line@) =~= status_spec(
        recorded_active,
        held,
        owner,
        summary@,
        backend@,
    ));
    lines
}

/// The stale-session note appears exactly when a session was recorded but
/// nothing holds the lid. Otherwise `status` opens with the summary, so an
/// ordinary idle or holding report is the summary, the holder if any, and
/// the mechanism. The holder, when known, comes just before the mechanism,
/// which always ends the report.
pub proof fn lemma_status_notes_only_lost_sessions(
    recorded_active: bool,
    held: bool,
    owner: Option<u32>,
    summary: Seq<char>,
    backend: Seq<char>,
)
    ensures
        ({
            let lines = status_spec(recorded_active, held, owner, summary, backend);
            let extra: int = if owner is Some { 1 } else { 0 };
            &&& lines.last() == "mechanism: "@ + backend
            &&& owner matches Some(pid) ==> lines[lines.len() - 2] == "held by: pid "@ + decimal(
                pid as nat,
            )
            &&& (recorded_active && !held) ==> {
                &&& lines.len() == 4 + extra
                &&& lines[0] == "Off — sleeps normally"@
                &&& lines[1] == "note: a session was recorded but nothing is holding the lid;"@
                &&& lines[2]
                    == "      the process that owned it is gone. Run `close-my-lid enable` to restart it."@
            }
            &&& !(recorded_active && !held) ==> {
                &&& lines.len() == 2 + extra
                &&& lines[0] == summary
            }
        }),
{
}

/// What `status --json` reports, field for field.
#[derive(Debug)]
pub struct StatusReport {
    /// What the system actually reports.
    pub active: bool,
    /// What the session record says.
    pub recorded_active: bool,
    /// A session was recorded but nothing holds the lid.
    pub stale: bool,
    pub owner_pid: Option<u32>,
    pub summary: String,
    /// When a timed hold ends, in milliseconds since the epoch.
    pub ends_at: Option<i64>,
    /// Whole seconds left, as the core reports the time left.
    pub remaining_seconds: Option<i64>,
    pub backend: String,
}

/// `remaining` is the time the core reports as left, in milliseconds.
pub fn status_report(
    recorded_active: bool,
    held: bool,
    owner: Option<u32>,
    summary: &str,
    ends_at: Option<i64>,
    remaining: Option<i64>,
    backend: &str,
) -> (report: StatusReport)
    ensures
        report.active == held,
        report.recorded_active == recorded_active,
        report.stale == (recorded_active && !held),
        report.owner_pid == owner,
        report.summary@ == summary@,
        report.ends_at == ends_at,
        report.remaining_seconds == match remaining {
            Some(left) => Some(whole_seconds(left as int) as i64),
            None => None,
        },
        report.backend@ == backend@,
{
    let remaining_seconds = match remaining {
        Some(left) => Some(seconds_between(0, left)),
        None => None,
    };
    StatusReport {
        active: held,
        recorded_active,
        stale: recorded_active && !held,
        owner_pid: owner,
        summary: String::from_str(summary),
        ends_at,
        remaining_seconds,
        backend: String::from_str(backend),
    }
}

/// How many bytes a name takes in UTF-8 (as `str::len` reports it), which is
/// what sets the column.
pub open spec fn byte_len(name: Seq<char>) -> nat {
    (vstd::utf8::encode_utf8(name).len() as usize) as nat
}

/// The widest name, in bytes.
pub open spec fn widest(rows: Seq<(String, usize)>) -> nat
    decreases rows.len(),
{
    if rows.len() == 0 {
        0
    } else {
        let rest = widest(rows.drop_last());
        let last = byte_len(rows.last().0@);
        if last > rest { last } else { rest }
    }
}

/// The widest name is at least as wide as each one.
proof fn lemma_widest_bounds_each(rows: Seq<(String, usize)>, i: int)
    requires
        0 <= i < rows.len(),
    ensures
        byte_len(rows[i].0@) <= widest(rows),
    decreases rows.len(),
{
    if i < rows.len() - 1 {
        lemma_widest_bounds_each(rows.drop_last(), i);
        assert(rows.drop_last()[i] == rows[i]);
    }
}

/// The widest name sets the column, so the counts line up: with names of one
/// byte per character, every name is padded to exactly the same width, and
/// so every detail starts in the same column.
pub proof fn lemma_agent_columns_line_up(rows: Seq<(String, usize)>)
    requires
        forall|i: int| 0 <= i < rows.len() ==> byte_len(#[trigger] rows[i].0@) == rows[i].0@.len(),
    ensures
        forall|i: int|
            0 <= i < rows.len() ==> (#[trigger] padded(rows[i].0@, widest(rows))).len() == widest(
                rows,
            ),
{
    assert forall|i: int| 0 <= i < rows.len() implies (#[trigger] padded(
        rows[i].0@,
        widest(rows),
    )).len() == widest(rows) by {
        lemma_widest_bounds_each(rows, i);
    }
}

/// A name padded with spaces to `width` characters.
pub open spec fn padded(name: Seq<char>, width: nat) -> Seq<char> {
    name + spaces(if width > name.len() { (width - name.len()) as nat } else { 0 })
}

/// The agents table: one line per agent, names in a column as wide as the
/// widest name, or a single line when no agent has any session.
pub open spec fn agents_spec(rows: Seq<(String, usize)>) -> Seq<Seq<char>> {
    if forall|i: int| 0 <= i < rows.len() ==> #[trigger] rows[i].1 == 0 {
        seq!["No agent sessions detected."@]
    } else {
        Seq::new(
            rows.len(),
            |i: int|
                padded(rows[i].0@, widest(rows)) + "  "@ + session_detail_spec(rows[i].1 as nat),
        )
    }
}

/// `rows` holds each recognised agent's display name and session count, in
/// the agents' fixed order.
pub fn agents(rows: &Vec<(String, usize)>) -> (lines: Vec<String>)
    ensures
        lines@.map_values(|line: String| line@) == agents_spec(rows@),
{
    let mut any = false;
    let mut width: usize = 0;
    let mut i: usize = 0;
    while i < rows.len()
        invariant
            i <= rows@.len(),
            any == exists|j: int| 0 <= j < i && #[trigger] rows@[j].1 != 0,
            width == widest(rows@.take(i as int)),
        decreases rows.len() - i,
    {
        assert(rows@.take(i + 1).drop_last() =~= rows@.take(i as int));
        let bytes = rows[i].0.as_str().len();
        if bytes > width {
            width = bytes;
        }
        if rows[i].1 != 0 {
            any = true;
        }
        i = i + 1;
    }
    assert(rows@.take(rows.len() as int) =~= rows@);
    if !any {
        let lines = vec![String::from_str("No agent sessions detected.")];
        assert(lines@.map_values(|line: String| line@) =~= agents_spec(rows@));
        return lines;
    }
    let mut lines: Vec<String> = Vec::new();
    let mut k: usize = 0;
    while k < rows.len()
        invariant
            k <= rows@.len(),
            width == widest(rows@),
            lines@.len() == k,
            forall|j: int|
                0 <= j < k ==> #[trigger] lines@[j]@ == padded(rows@[j].0@, width as nat) + "  "@
                    + session_detail_spec(rows@[j].1 as nat),
        decreases rows.len() - k,
    {
        let name = rows[k].0.as_str();
        let mut line = String::from_str(name);
        let chars = name.unicode_len();
        let pad = if width > chars { width - chars } else { 0 };
        let gap = space_text(pad);
        line.append(gap.as_str());
        line.append("  ");
        let detail = session_detail(rows[k].1);
        line.append(detail.as_str());
        lines.push(line);
        k = k + 1;
    }
    assert(lines@.map_values(|line: String| line@) =~= agents_spec(rows@));
    lines
}

/// "No agent sessions detected." stands alone exactly when no agent has a
/// session. As soon as one has, every agent gets a line of its own, in
/// order, which starts with its name and ends with its session count.
pub proof fn lemma_agents_table_lists_every_agent_once_any_is_busy(rows: Seq<(String, usize)>)
    ensures
        (forall|i: int| 0 <= i < rows.len() ==> #[trigger] rows[i].1 == 0) ==> agents_spec(rows)
            == seq!["No agent sessions detected."@],
        (exists|j: int| 0 <= j < rows.len() && #[trigger] rows[j].1 != 0) ==> {
            let lines = agents_spec(rows);
            &&& lines.len() == rows.len()
            &&& forall|i: int|
                0 <= i < rows.len() ==> {
                    let line = #[trigger] lines[i];
                    let name = rows[i].0@;
                    let detail = session_detail_spec(rows[i].1 as nat);
                    &&& line.len() >= name.len() + detail.len()
                    &&& line.subrange(0, name.len() as int) == name
                    &&& line.subrange(line.len() - detail.len(), line.len() as int) == detail
                }
        },
{
    if exists|j: int| 0 <= j < rows.len() && #[trigger] rows[j].1 != 0 {
        let lines = agents_spec(rows);
        assert forall|i: int| 0 <= i < rows.len() implies {
            let line = #[trigger] lines[i];
            let name = rows[i].0@;
            let detail = session_detail_spec(rows[i].1 as nat);
            &&& line.len() >= name.len() + detail.len()
            &&& line.subrange(0, name.len() as int) == name
            &&& line.subrange(line.len() - detail.len(), line.len() as int) == detail
        } by {
            let name = rows[i].0@;
            let detail = session_detail_spec(rows[i].1 as nat);
            let head = padded(name, widest(rows)) + "  "@;
            let line = head + detail;
            assert(lines[i] == line);
            assert(line.subrange(0, name.len() as int) =~= name);
            assert(line.subrange(line.len() - detail.len(), line.len() as int) =~= detail);
        }
    }
}

} // verus!
