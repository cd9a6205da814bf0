//! The desktop app's supervision decisions: which scheduled notifications are
//! due, what a supervision pass that released the hold leaves behind, how long
//! the loop may sleep, and what the hold controls do.
//!
//! The controller itself belongs to the core; its answers arrive here as plain
//! values, and what to do next goes back as plain values.

use vstd::prelude::*;
use vstd::string::*;

use crate::text::{decimal, decimal_text};

verus! {

/// A notification due at a given instant (milliseconds since the epoch).
#[derive(Debug)]
pub struct Note {
    pub fire_at: i64,
    pub title: String,
    pub body: String,
}

impl View for Note {
    type V = (i64, Seq<char>, Seq<char>);

    open spec fn view(&self) -> (i64, Seq<char>, Seq<char>) {
        (self.fire_at, self.title@, self.body@)
    }
}

/// The views of a list of notes.
pub open spec fn notes_view(notes: Seq<Note>) -> Seq<(i64, Seq<char>, Seq<char>)> {
    notes.map_values(|note: Note| note@)
}

/// Whether a note has come due by `now`.
pub open spec fn is_due(note: (i64, Seq<char>, Seq<char>), now: i64) -> bool {
    note.0 <= now
}

/// The messages due by `now`, in order.
pub open spec fn due_notes(notes: Seq<(i64, Seq<char>, Seq<char>)>, now: i64) -> Seq<
    (i64, Seq<char>, Seq<char>),
> {
    notes.filter(|note: (i64, Seq<char>, Seq<char>)| is_due(note, now))
}

/// The messages not yet due by `now`, in order.
pub open spec fn later_notes(notes: Seq<(i64, Seq<char>, Seq<char>)>, now: i64) -> Seq<
    (i64, Seq<char>, Seq<char>),
> {
    notes.filter(|note: (i64, Seq<char>, Seq<char>)| !is_due(note, now))
}

/// Why a supervision pass ended the hold.
#[derive(Debug, Clone, Copy, PartialEq, Eq, Structural)]
pub enum Release {
    Expired,
    Battery,
}

/// What the core's supervision pass reported.
#[derive(Debug, Clone, Copy, PartialEq, Eq, Structural)]
pub enum TickReport {
    /// There is no controller, so nothing was supervised.
    NoController,
    /// The hold carries on.
    Kept,
    /// The pass failed; the hold is left as it was.
    Failed,
    /// The controller released the hold; `expired` says whether the session
    /// had run out by then, rather than the battery running low.
    Released { expired: bool },
}

/// What a released hold leaves for the app to do.
pub struct TickOutcome {
    pub release: Option<Release>,
    /// The hold lock is no longer needed.
    pub drop_lock: bool,
    /// The messages to announce, in order.
    pub announce: Vec<String>,
}

/// The battery release message.
pub open spec fn battery_release_spec(threshold: u8) -> Seq<char> {
    "Battery is low, so normal closed-lid sleep is back on at "@ + decimal(threshold as nat) + "%."@
}

pub fn battery_release_message(threshold: u8) -> (text: String)
    ensures
        text@ == battery_release_spec(threshold),
{
    let mut text = String::from_str("Battery is low, so normal closed-lid sleep is back on at ");
    let number = decimal_text(threshold as u64);
    text.append(number.as_str());
    text.append("%.");
    text
}

/// What the tail of a supervision pass leaves, from the reminders pending
/// `before` it: those pending `after` it, and the outcome.
pub open spec fn settle_outcome_spec(
    report: TickReport,
    threshold: u8,
    before: Seq<Note>,
    after: Seq<Note>,
    outcome: TickOutcome,
) -> bool {
    match report {
        TickReport::Released { expired } => {
            &&& outcome.drop_lock
            &&& after.len() == 0
            &&& if expired {
                &&& outcome.release == Some(Release::Expired)
                &&& outcome.announce@.map_values(|body: String| body@) == before.map_values(
                    |note: Note| note.body@,
                )
            } else {
                &&& outcome.release == Some(Release::Battery)
                &&& outcome.announce@.map_values(|body: String| body@) == seq![
                    battery_release_spec(threshold),
                ]
            }
        },
        _ => {
            &&& outcome.release is None
            &&& !outcome.drop_lock
            &&& outcome.announce@.len() == 0
            &&& notes_view(after) == notes_view(before)
        },
    }
}

/// The "ending soon" and "ended" messages of the running hold, delivered by
/// the supervision loop when their time comes.
pub struct Reminders {
    pub pending: Vec<Note>,
}

impl Reminders {
    pub fn new() -> (reminders: Self)
        ensures
            reminders.pending@.len() == 0,
    {
        Reminders { pending: Vec::new() }
    }

    /// A hold started: its plan's later messages replace whatever was
    /// pending.
    pub fn plan(&mut self, ending_soon: Option<Note>, ended: Option<Note>)
        ensures
            notes_view(final(self).pending@) == notes_view(
                match ending_soon {
                    Some(note) => seq![note],
                    None => Seq::empty(),
                } + match ended {
                    Some(note) => seq![note],
                    None => Seq::empty(),
                },
            ),
    {
        let mut pending: Vec<Note> = Vec::new();
        match ending_soon {
            Some(note) => pending.push(note),
            None => {},
        }
        match ended {
            Some(note) => pending.push(note),
            None => {},
        }
        self.pending = pending;
        assert(notes_view(self.pending@) =~= notes_view(
            match ending_soon {
                Some(note) => seq![note],
                None => Seq::empty(),
            } + match ended {
                Some(note) => seq![note],
                None => Seq::empty(),
            },
        ));
    }

    /// Stopped by hand: "ending soon" and "ended" are no longer true.
    pub fn cancel(&mut self)
        ensures
            final(self).pending@.len() == 0,
    {
        self.pending = Vec::new();
    }

    /// Takes the messages that have come due by `now`, in order, and keeps
    /// the rest, in order.
    pub fn take_due(&mut self, now: i64) -> (due: Vec<Note>)
        ensures
            notes_view(due@) == due_notes(notes_view(old(self).pending@), now),
            notes_view(final(self).pending@) == later_notes(notes_view(old(self).pending@), now),
    {
        let ghost all = notes_view(self.pending@);
        let ghost due_pred = |note: (i64, Seq<char>, Seq<char>)| is_due(note, now);
        let ghost later_pred = |note: (i64, Seq<char>, Seq<char>)| !is_due(note, now);
        let mut source = Vec::new();
        std::mem::swap(&mut source, &mut self.pending);
        assert(notes_view(source@) == all);
        let mut due: Vec<Note> = Vec::new();
        let mut later: Vec<Note> = Vec::new();
        let mut taken: usize = 0;
        let ghost n = source@.len();
        assert(n == source.len());
        while source.len() > 0
            invariant
                taken + source@.len() == n,
                n <= usize::MAX,
                n == all.len(),
                notes_view(source@) == all.subrange(taken as int, n as int),
                notes_view(due@) == all.take(taken as int).filter(due_pred),
                notes_view(later@) == all.take(taken as int).filter(later_pred),
                due_pred == (|note: (i64, Seq<char>, Seq<char>)| is_due(note, now)),
                later_pred == (|note: (i64, Seq<char>, Seq<char>)| !is_due(note, now)),
            decreases source@.len(),
        {
            assert(notes_view(source@)[0] == all[taken as int]);
            let ghost before_remove = source@;
            let note = source.remove(0);
            assert(source@ =~= before_remove.subrange(1, before_remove.len() as int));
            assert forall|k: int| 0 <= k < source@.len() implies #[trigger] notes_view(source@)[k]
                == all[taken + 1 + k] by {
                assert(source@[k] == before_remove[k + 1]);
                assert(notes_view(before_remove)[k + 1] == all.subrange(taken as int, n as int)[k + 1]);
            }
            let ghost seen = note@;
            assert(all.take(taken + 1) =~= all.take(taken as int).push(seen));
            proof {
                all.take(taken as int).lemma_filter_push(seen, due_pred);
                all.take(taken as int).lemma_filter_push(seen, later_pred);
            }
            let ghost due_before = due@;
            let ghost later_before = later@;
            if note.fire_at <= now {
                due.push(note);
                assert(notes_view(due@) =~= notes_view(due_before).push(seen));
            } else {
                later.push(note);
                assert(notes_view(later@) =~= notes_view(later_before).push(seen));
            }
            taken = taken + 1;
            assert(notes_view(source@) =~= all.subrange(taken as int, n as int));
        }
        assert(all.take(n as int) =~= all);
        self.pending = later;
        due
    }

    /// The tail of a supervision pass, once the core has reported. A hold that
    /// ran out delivers everything still pending, "ended" included, since all
    /// of it was due by the end anyway; one the battery ended drops what is
    /// pending, which is no longer true, and says why instead.
    pub fn settle_tick(&mut self, report: TickReport, threshold: u8) -> (outcome: TickOutcome)
        ensures
            settle_outcome_spec(report, threshold, old(self).pending@, final(self).pending@, outcome),
    {
        match report {
            TickReport::Released { expired } => {
                let mut announce: Vec<String> = Vec::new();
                let release = if expired {
                    let mut i: usize = 0;
                    while i < self.pending.len()
                        invariant
                            i <= self.pending@.len(),
                            self.pending@ == old(self).pending@,
                            announce@.map_values(|body: String| body@) == self.pending@.take(
                                i as int,
                            ).map_values(|note: Note| note.body@),
                        decreases self.pending.len() - i,
                    {
                        let body = self.pending[i].body.clone();
                        let ghost before = announce@;
                        announce.push(body);
                        assert(announce@.map_values(|body: String| body@) =~= before.map_values(
                            |body: String| body@,
                        ).push(self.pending@[i as int].body@));
                        assert(self.pending@.take(i + 1) =~= self.pending@.take(i as int).push(
                            self.pending@[i as int],
                        ));
                        i = i + 1;
                    }
                    assert(self.pending@.take(self.pending.len() as int) =~= self.pending@);
                    Release::Expired
                } else {
                    announce.push(battery_release_message(threshold));
                    assert(announce@.map_values(|body: String| body@) =~= seq![
                        battery_release_spec(threshold),
                    ]);
                    Release::Battery
                };
                self.pending = Vec::new();
                TickOutcome { release: Some(release), drop_lock: true, announce }
            },
            _ => TickOutcome { release: None, drop_lock: false, announce: Vec::new() },
        }
    }
}

/// Taking what is due loses and duplicates nothing: every message is either
/// due and taken or not yet due and kept, and what is kept is never due.
pub proof fn lemma_due_messages_split_cleanly(notes: Seq<(i64, Seq<char>, Seq<char>)>, now: i64)
    ensures
        due_notes(notes, now).len() + later_notes(notes, now).len() == notes.len(),
        forall|i: int|
            0 <= i < later_notes(notes, now).len() ==> #[trigger] later_notes(notes, now)[i].0
                > now,
        forall|i: int|
            0 <= i < due_notes(notes, now).len() ==> #[trigger] due_notes(notes, now)[i].0 <= now,
    decreases notes.len(),
{
    broadcast use vstd::seq_lib::group_filter_ensures;

    let due = |note: (i64, Seq<char>, Seq<char>)| is_due(note, now);
    let later = |note: (i64, Seq<char>, Seq<char>)| !is_due(note, now);
    if notes.len() > 0 {
        lemma_due_messages_split_cleanly(notes.drop_last(), now);
        assert(notes =~= notes.drop_last().push(notes.last()));
        notes.drop_last().lemma_filter_push(notes.last(), due);
        notes.drop_last().lemma_filter_push(notes.last(), later);
    } else {
        reveal(Seq::filter);
    }
    assert forall|i: int| 0 <= i < later_notes(notes, now).len() implies #[trigger] later_notes(
        notes,
        now,
    )[i].0 > now by {
        assert(later(notes.filter(later)[i]));
    }
    assert forall|i: int| 0 <= i < due_notes(notes, now).len() implies #[trigger] due_notes(
        notes,
        now,
    )[i].0 <= now by {
        assert(due(notes.filter(due)[i]));
    }
}

/// The soonest of a hold's end and the pending messages' times.
pub open spec fn soonest(ends_at: Option<i64>, fires: Seq<i64>) -> Option<int>
    decreases fires.len(),
{
    if fires.len() == 0 {
        match ends_at {
            Some(at) => Some(at as int),
            None => None,
        }
    } else {
        match soonest(ends_at, fires.drop_last()) {
            Some(at) => Some(if fires.last() < at { fires.last() as int } else { at }),
            None => Some(fires.last() as int),
        }
    }
}

/// The shortest sleep the supervision loop takes, in milliseconds.
pub const MIN_WAKE_MS: u64 = 250;

/// How long the supervision loop may sleep: its usual interval, or less when
/// the hold ends or a message is due sooner, so both happen on the second
/// rather than up to an interval late. Never less than a quarter second.
pub open spec fn next_wake_spec(soonest: Option<int>, now: i64, interval: u64) -> int {
    match soonest {
        Some(at) => {
            let left = if at - now > 0 { at - now } else { 0 };
            if left < MIN_WAKE_MS { MIN_WAKE_MS as int } else if left > interval { interval as int } else { left }
        },
        None => interval as int,
    }
}

/// The loop never sleeps through a deadline: whenever the soonest end or
/// message is more than the shortest sleep away, it wakes no later than that
/// deadline, and it never sleeps longer than its interval.
pub proof fn lemma_wakes_in_time(at: int, now: i64, interval: u64)
    requires
        MIN_WAKE_MS <= interval,
    ensures
        at - now >= MIN_WAKE_MS ==> next_wake_spec(Some(at), now, interval) <= at - now,
        MIN_WAKE_MS <= next_wake_spec(Some(at), now, interval) <= interval,
{
}

pub fn next_wake(ends_at: Option<i64>, pending: &Vec<Note>, now: i64, interval: u64) -> (wait: u64)
    requires
        MIN_WAKE_MS <= interval,
    ensures
        wait == next_wake_spec(
            soonest(ends_at, pending@.map_values(|note: Note| note.fire_at)),
            now,
            interval,
        ),
        MIN_WAKE_MS <= wait <= interval,
{
    let ghost fires = pending@.map_values(|note: Note| note.fire_at);
    let mut best: Option<i64> = ends_at;
    let mut i: usize = 0;
    while i < pending.len()
        invariant
            i <= pending@.len(),
            fires == pending@.map_values(|note: Note| note.fire_at),
            match best {
                Some(at) => soonest(ends_at, fires.take(i as int)) == Some(at as int),
                None => soonest(ends_at, fires.take(i as int)) is None,
            },
        decreases pending.len() - i,
    {
        assert(fires.take(i + 1).drop_last() =~= fires.take(i as int));
        let fire = pending[i].fire_at;
        best = match best {
            Some(at) => if fire < at {
                Some(fire)
            } else {
                Some(at)
            },
            None => Some(fire),
        };
        i = i + 1;
    }
    assert(fires.take(pending.len() as int) =~= fires);
    match best {
        Some(at) => {
            let diff: i128 = at as i128 - now as i128;
            let left: i128 = if diff > 0 { diff } else { 0 };
            if left < MIN_WAKE_MS as i128 {
                MIN_WAKE_MS
            } else if left > interval as i128 {
                interval
            } else {
                left as u64
            }
        },
        None => interval,
    }
}

/// How long after `now` the system should show a message due at `fire_at`,
/// in milliseconds. `None` for a time already come: a message in the past
/// would show at once, which for "5 minutes left" is worse than nothing.
pub fn trigger_delay(fire_at: i64, now: i64) -> (delay: Option<u128>)
    ensures
        match delay {
            Some(ms) => fire_at > now && ms == fire_at - now,
            None => fire_at <= now,
        },
{
    if fire_at > now {
        Some((fire_at as i128 - now as i128) as u128)
    } else {
        None
    }
}

/// How often the readouts refresh while the window has focus, in
/// milliseconds.
pub const READOUT_INTERVAL_MS: u64 = 5_000;

/// How often they refresh while the window is in the background.
pub const BACKGROUND_READOUT_INTERVAL_MS: u64 = 30_000;

/// Whether the battery and agent readouts are due: on the first pass, and
/// then once the interval for the window's focus has passed since the last.
pub fn readout_due(since_last: Option<u64>, focused: bool) -> (due: bool)
    ensures
        due == match since_last {
            None => true,
            Some(elapsed) => elapsed >= if focused {
                READOUT_INTERVAL_MS
            } else {
                BACKGROUND_READOUT_INTERVAL_MS
            },
        },
{
    let interval = if focused {
        READOUT_INTERVAL_MS
    } else {
        BACKGROUND_READOUT_INTERVAL_MS
    };
    match since_last {
        None => true,
        Some(elapsed) => elapsed >= interval,
    }
}

/// What a hold control asks of the controller.
#[derive(Debug, PartialEq, Eq)]
pub enum HoldAction<D> {
    /// Start (or restart) a hold of this length.
    Start(D),
    /// Release the hold.
    Stop,
    /// Only remember this length as the one Start applies.
    Remember(D),
}

/// Start or stop. Starting applies the length the user last picked rather
/// than always an unlimited hold.
pub fn toggle_action<D: Copy>(active: bool, selected: D) -> (action: HoldAction<D>)
    ensures
        action == if active { HoldAction::Stop } else { HoldAction::Start(selected) },
{
    if active {
        HoldAction::Stop
    } else {
        HoldAction::Start(selected)
    }
}

/// The length picker. While idle it only chooses what Start will do; while a
/// hold runs it restarts the hold with the new length, measured from now.
pub fn select_action<D: Copy>(active: bool, picked: D) -> (action: HoldAction<D>)
    ensures
        action == if active { HoldAction::Start(picked) } else { HoldAction::Remember(picked) },
{
    if active {
        HoldAction::Start(picked)
    } else {
        HoldAction::Remember(picked)
    }
}

/// The messages actually posted: none while notifications are turned off.
pub fn posted(notifications: bool, messages: Vec<String>) -> (shown: Vec<String>)
    ensures
        shown@ == if notifications { messages@ } else { Seq::<String>::empty() },
{
    if notifications {
        messages
    } else {
        Vec::new()
    }
}

} // verus!
