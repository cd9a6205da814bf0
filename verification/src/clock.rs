//! The hold's clock: countdowns, elapsed time and progress, as the windows
//! and the sidebar show them.
//!
//! Instants are milliseconds since the Unix epoch; spans between them are
//! whole seconds, truncated toward zero.

use vstd::prelude::*;
use vstd::string::*;

use crate::text::{decimal, decimal_text, two_digit_text, two_digits};

verus! {

/// Whether closed-lid sleep is held, and if so since when and until when
/// (`None` for a hold with no end).
#[derive(Debug, Clone, Copy, PartialEq, Eq, Structural)]
pub enum HoldState {
    Inactive,
    Active { started_at: i64, ends_at: Option<i64> },
}

impl HoldState {
    pub open spec fn is_active_spec(self) -> bool {
        self is Active
    }

    pub fn is_active(&self) -> (active: bool)
        ensures
            active == self.is_active_spec(),
    {
        match self {
            HoldState::Active { .. } => true,
            HoldState::Inactive => false,
        }
    }

    pub open spec fn started_at_spec(self) -> Option<i64> {
        match self {
            HoldState::Active { started_at, .. } => Some(started_at),
            HoldState::Inactive => None,
        }
    }

    pub fn started_at(&self) -> (at: Option<i64>)
        ensures
            at == self.started_at_spec(),
    {
        match self {
            HoldState::Active { started_at, .. } => Some(*started_at),
            HoldState::Inactive => None,
        }
    }

    pub open spec fn ends_at_spec(self) -> Option<i64> {
        match self {
            HoldState::Active { ends_at, .. } => ends_at,
            HoldState::Inactive => None,
        }
    }

    pub fn ends_at(&self) -> (at: Option<i64>)
        ensures
            at == self.ends_at_spec(),
    {
        match self {
            HoldState::Active { ends_at, .. } => *ends_at,
            HoldState::Inactive => None,
        }
    }
}

/// A span of milliseconds in whole seconds, truncated toward zero.
pub open spec fn whole_seconds(ms: int) -> int {
    if ms >= 0 { ms / 1000 } else { -((-ms) / 1000) }
}

/// The whole seconds from `from` to `to`.
pub fn seconds_between(from: i64, to: i64) -> (seconds: i64)
    ensures
        seconds == whole_seconds(to - from),
{
    let span: i128 = to as i128 - from as i128;
    if span >= 0 {
        (span / 1000) as i64
    } else {
        -((-span) / 1000) as i64
    }
}

/// `1:05:09`, or `5:09` under an hour; a negative span reads as zero.
pub open spec fn stopwatch_spec(seconds: int) -> Seq<char> {
    let total = if seconds > 0 { seconds } else { 0 };
    let hours = total / 3600;
    let minutes = (total % 3600) / 60;
    let secs = total % 60;
    if hours > 0 {
        decimal(hours as nat) + ":"@ + two_digits(minutes as nat) + ":"@ + two_digits(secs as nat)
    } else {
        decimal(minutes as nat) + ":"@ + two_digits(secs as nat)
    }
}

pub fn stopwatch(seconds: i64) -> (text: String)
    ensures
        text@ == stopwatch_spec(seconds as int),
{
    let total: u64 = if seconds > 0 { seconds as u64 } else { 0 };
    let hours = total / 3600;
    let minutes = (total % 3600) / 60;
    let secs = total % 60;
    if hours > 0 {
        let mut text = decimal_text(hours);
        text.append(":");
        let m = two_digit_text(minutes);
        text.append(m.as_str());
        text.append(":");
        let s = two_digit_text(secs);
        text.append(s.as_str());
        text
    } else {
        let mut text = decimal_text(minutes);
        text.append(":");
        let s = two_digit_text(secs);
        text.append(s.as_str());
        text
    }
}

/// `1h 5m`, `45m`, or `under a minute`: the compact form for the sidebar.
/// It never claims a minute that has not fully passed.
pub open spec fn span_spec(seconds: int) -> Seq<char> {
    let total = if seconds > 0 { seconds } else { 0 };
    let hours = total / 3600;
    let minutes = (total % 3600) / 60;
    if hours == 0 && minutes == 0 {
        "under a minute"@
    } else if hours == 0 {
        decimal(minutes as nat) + "m"@
    } else {
        decimal(hours as nat) + "h "@ + decimal(minutes as nat) + "m"@
    }
}

pub fn span(seconds: i64) -> (text: String)
    ensures
        text@ == span_spec(seconds as int),
{
    let total: u64 = if seconds > 0 { seconds as u64 } else { 0 };
    let hours = total / 3600;
    let minutes = (total % 3600) / 60;
    if hours == 0 && minutes == 0 {
        String::from_str("under a minute")
    } else if hours == 0 {
        let mut text = decimal_text(minutes);
        text.append("m");
        text
    } else {
        let mut text = decimal_text(hours);
        text.append("h ");
        let m = decimal_text(minutes);
        text.append(m.as_str());
        text.append("m");
        text
    }
}

/// Under an hour the stopwatch shows only minutes and seconds.
pub proof fn lemma_stopwatch_drops_the_hour(seconds: int)
    requires
        0 <= seconds < 3600,
    ensures
        stopwatch_spec(seconds) == decimal((seconds / 60) as nat) + ":"@ + two_digits(
            (seconds % 60) as nat,
        ),
{
}

/// The compact span never claims time that has not passed: the hours and
/// minutes it shows add up to at most the span, and fall short of it by less
/// than a minute.
pub proof fn lemma_span_never_overstates(seconds: int)
    requires
        seconds >= 0,
    ensures
        ({
            let hours = seconds / 3600;
            let minutes = (seconds % 3600) / 60;
            &&& hours * 3600 + minutes * 60 <= seconds < hours * 3600 + minutes * 60 + 60
            &&& seconds < 60 ==> span_spec(seconds) == "under a minute"@
        }),
{
}

/// The compact span reads "under a minute" exactly below a minute. From a
/// minute on it names the whole minutes, and from an hour on the whole hours
/// and the minutes left over, whatever their count: an exact hour reads as
/// that many hours and no minutes. A negative span reads as under a minute.
pub proof fn lemma_span_names_hours_and_minutes(seconds: int)
    ensures
        seconds < 60 <==> span_spec(seconds) == "under a minute"@,
        60 <= seconds < 3600 ==> span_spec(seconds) == decimal((seconds / 60) as nat) + "m"@,
        seconds >= 3600 ==> span_spec(seconds) == decimal((seconds / 3600) as nat) + "h "@
            + decimal(((seconds % 3600) / 60) as nat) + "m"@,
{
    let text = span_spec(seconds);
    if seconds >= 60 {
        let hours = seconds / 3600;
        let minutes = (seconds % 3600) / 60;
        assert(hours > 0 || minutes > 0);
        reveal_strlit("m");
        let front = if hours == 0 {
            decimal(minutes as nat)
        } else {
            decimal(hours as nat) + "h "@ + decimal(minutes as nat)
        };
        assert(text == front + "m"@);
        assert((front + "m"@)[front.len() as int] == 'm');
        assert(text.last() == 'm');
        let phrase = "under a minute"@;
        reveal_strlit("under a minute");
        assert(phrase.last() == 'e');
        assert(text != phrase);
    }
}

/// How far through a timed hold is, as the numerator and denominator of the
/// progress bar's fraction: the whole seconds elapsed, kept between zero and
/// the hold's length, over that length (at least one second). `None` for an
/// idle hold or one with no end.
pub open spec fn progress_spec(hold: HoldState, now: i64) -> Option<(i64, i64)> {
    match (hold.started_at_spec(), hold.ends_at_spec()) {
        (Some(started), Some(ends)) => {
            let length = whole_seconds(ends - started);
            let total = if length > 1 { length } else { 1 };
            let elapsed = whole_seconds(now - started);
            let done = if elapsed < 0 { 0 } else if elapsed > total { total } else { elapsed };
            Some((done as i64, total as i64))
        },
        _ => None,
    }
}

pub fn progress(hold: &HoldState, now: i64) -> (fraction: Option<(i64, i64)>)
    ensures
        fraction == progress_spec(*hold, now),
        fraction matches Some((done, total)) ==> 0 <= done <= total && total >= 1,
{
    let started = match hold.started_at() {
        Some(at) => at,
        None => return None,
    };
    let ends = match hold.ends_at() {
        Some(at) => at,
        None => return None,
    };
    let length = seconds_between(started, ends);
    let total = if length > 1 { length } else { 1 };
    let elapsed = seconds_between(started, now);
    let done = if elapsed < 0 {
        0
    } else if elapsed > total {
        total
    } else {
        elapsed
    };
    Some((done, total))
}

/// Truncating toward zero never reverses the order of two spans.
proof fn lemma_whole_seconds_monotone(a: int, b: int)
    requires
        a <= b,
    ensures
        whole_seconds(a) <= whole_seconds(b),
{
    if a >= 0 {
        assert(a / 1000 <= b / 1000) by (nonlinear_arith)
            requires
                0 <= a <= b,
        ;
    } else if b < 0 {
        assert((-b) / 1000 <= (-a) / 1000) by (nonlinear_arith)
            requires
                0 < -b <= -a,
        ;
    } else {
        assert((-a) / 1000 >= 0) by (nonlinear_arith)
            requires
                -a > 0,
        ;
        assert(b / 1000 >= 0) by (nonlinear_arith)
            requires
                b >= 0,
        ;
    }
}

/// The progress bar only ever moves forward as time passes, stays within its
/// track, and is full once the end of a hold of at least a second has come.
pub proof fn lemma_progress_runs_forward(hold: HoldState, earlier: i64, later: i64)
    requires
        earlier <= later,
        progress_spec(hold, earlier) is Some,
    ensures
        ({
            let (done1, total1) = progress_spec(hold, earlier).unwrap();
            let (done2, total2) = progress_spec(hold, later).unwrap();
            &&& total1 == total2 >= 1
            &&& 0 <= done1 <= done2 <= total2
            &&& later >= hold.ends_at_spec().unwrap() && whole_seconds(
                hold.ends_at_spec().unwrap() - hold.started_at_spec().unwrap(),
            ) >= 1 ==> done2 == total2
        }),
{
    let started = hold.started_at_spec().unwrap();
    let ends = hold.ends_at_spec().unwrap();
    lemma_whole_seconds_monotone(earlier - started, later - started);
    if later >= ends {
        lemma_whole_seconds_monotone(ends - started, later - started);
    }
    let length = whole_seconds(ends - started);
    assert(-0x1_0000_0000_0000_0000 <= ends - started <= 0x1_0000_0000_0000_0000);
    assert(whole_seconds(ends - started) <= 0x1_0000_0000_0000_0000) by {
        lemma_whole_seconds_monotone(ends - started, 0x1_0000_0000_0000_0000);
    }
    assert(whole_seconds(later - started) <= 0x1_0000_0000_0000_0000) by {
        lemma_whole_seconds_monotone(later - started, 0x1_0000_0000_0000_0000);
    }
    assert(whole_seconds(earlier - started) >= -0x1_0000_0000_0000_0000) by {
        lemma_whole_seconds_monotone(-0x1_0000_0000_0000_0000, earlier - started);
    }
}

/// The hero's clock: time left on a timed hold, time elapsed on an unlimited
/// one, nothing when idle. `remaining` is the time the core reports as left,
/// in milliseconds.
pub open spec fn clock_spec(hold: HoldState, remaining: Option<i64>, now: i64) -> Option<
    (Seq<char>, Seq<char>),
> {
    match remaining {
        Some(left) => Some((stopwatch_spec(whole_seconds(left as int)), "remaining"@)),
        None => match hold.started_at_spec() {
            Some(started) => Some(
                (stopwatch_spec(whole_seconds(now - started)), "elapsed"@),
            ),
            None => None,
        },
    }
}

pub fn clock(hold: &HoldState, remaining: Option<i64>, now: i64) -> (shown: Option<
    (String, &'static str),
>)
    ensures
        match shown {
            Some((time, caption)) => clock_spec(*hold, remaining, now) == Some((time@, caption@)),
            None => clock_spec(*hold, remaining, now) is None,
        },
{
    if let Some(left) = remaining {
        return Some((stopwatch(seconds_between(0, left)), "remaining"));
    }
    match hold.started_at() {
        Some(started) => Some((stopwatch(seconds_between(started, now)), "elapsed")),
        None => None,
    }
}

/// The hero's headline and the sentence under it. `until` is the end of a
/// timed hold as the local clock shows it.
pub open spec fn describe_spec(hold: HoldState, until: Seq<char>) -> (Seq<char>, Seq<char>) {
    match hold {
        HoldState::Inactive => (
            "Sleeps normally"@,
            "Closing the lid puts your laptop to sleep, as usual."@,
        ),
        HoldState::Active { ends_at: Some(_), .. } => (
            "Staying awake"@,
            "Until "@ + until + ", then normal sleep comes back on its own."@,
        ),
        HoldState::Active { ends_at: None, .. } => (
            "Staying awake"@,
            "Until you stop it. Close the lid whenever you like."@,
        ),
    }
}

pub fn describe_with(hold: &HoldState, until: &str) -> (text: (&'static str, String))
    ensures
        (text.0@, text.1@) == describe_spec(*hold, until@),
{
    match hold {
        HoldState::Inactive => (
            "Sleeps normally",
            String::from_str("Closing the lid puts your laptop to sleep, as usual."),
        ),
        HoldState::Active { ends_at: Some(_), .. } => {
            let mut sentence = String::from_str("Until ");
            sentence.append(until);
            sentence.append(", then normal sleep comes back on its own.");
            ("Staying awake", sentence)
        },
        HoldState::Active { ends_at: None, .. } => (
            "Staying awake",
            String::from_str("Until you stop it. Close the lid whenever you like."),
        ),
    }
}

/// A reading of a twelve-hour clock: the hour without padding, a colon, the
/// minutes in two digits, a space, and AM or PM.
pub open spec fn clock_reading(hour: nat, minute: nat, pm: bool) -> Seq<char> {
    decimal(hour) + ":"@ + two_digits(minute) + if pm {
        " PM"@
    } else {
        " AM"@
    }
}

/// Whether `text` reads as some time on a twelve-hour clock, as `3:45 PM`.
pub open spec fn is_clock_reading(text: Seq<char>) -> bool {
    exists|hour: nat, minute: nat, pm: bool|
        1 <= hour <= 12 && minute < 60 && text == #[trigger] clock_reading(hour, minute, pm)
}

/// Instants this close to the epoch, in milliseconds (some 95,000 years
/// either way), lie well inside the range of dates the clock can read.
pub open spec fn on_the_clock(at: i64) -> bool {
    -3_000_000_000_000_000 <= at <= 3_000_000_000_000_000
}

/// `DateTime::from_timestamp_millis`, then `with_timezone(&Local)` and
/// `format("%-I:%M %p")`: the instant `at` on the local clock. The crate
/// answers `None` only for instants out of its range, which reaches some
/// 262,000 years either side of the common era; its `%-I` is the hour from 1
/// to 12 without padding, `%M` the minutes in two digits, and `%p` is `AM` or
/// `PM` (the crate is built without its locales). Which time it reads
/// depends on the machine's time zone, so that is not stated.
#[verifier::external_body]
fn local_clock_time(at: i64) -> (text: Option<String>)
    ensures
        on_the_clock(at) ==> text is Some,
        text matches Some(t) ==> is_clock_reading(t@),
{
    match chrono::DateTime::from_timestamp_millis(at) {
        Some(instant) => Some(instant.with_timezone(&chrono::Local).format("%-I:%M %p").to_string()),
        None => None,
    }
}

/// What the hero's sentence shows as a timed hold's end: a reading of the
/// clock whenever the end lies on it, and otherwise such a reading or
/// nothing.
pub open spec fn shows_end(hold: HoldState, until: Seq<char>) -> bool {
    match hold {
        HoldState::Active { ends_at: Some(end), .. } => if on_the_clock(end) {
            is_clock_reading(until)
        } else {
            is_clock_reading(until) || until.len() == 0
        },
        _ => until.len() == 0,
    }
}

/// The hero's headline and sentence, with a timed hold's end read off the
/// local clock. An end the clock cannot read leaves the time out.
pub fn describe(hold: &HoldState) -> (text: (&'static str, String))
    ensures
        exists|until: Seq<char>|
            (text.0@, text.1@) == describe_spec(*hold, until) && shows_end(*hold, until),
{
    let until = match hold {
        HoldState::Active { ends_at: Some(end), .. } => match local_clock_time(*end) {
            Some(reading) => reading,
            None => String::new(),
        },
        _ => String::new(),
    };
    let text = describe_with(hold, until.as_str());
    assert(shows_end(*hold, until@));
    text
}

/// The hold's line in the sidebar: what is left of a timed hold, how long an
/// unlimited one has run, or that the machine sleeps normally.
pub open spec fn sidebar_detail_spec(hold: HoldState, remaining: Option<i64>, now: i64) -> Seq<
    char,
> {
    if !hold.is_active_spec() {
        "Sleeps normally"@
    } else {
        match remaining {
            Some(left) => span_spec(whole_seconds(left as int)) + " left"@,
            None => match hold.started_at_spec() {
                Some(started) => "for "@ + span_spec(whole_seconds(now - started)),
                None => Seq::empty(),
            },
        }
    }
}

pub fn sidebar_detail(hold: &HoldState, remaining: Option<i64>, now: i64) -> (line: String)
    ensures
        line@ == sidebar_detail_spec(*hold, remaining, now),
{
    if !hold.is_active() {
        return String::from_str("Sleeps normally");
    }
    match remaining {
        Some(left) => {
            let mut line = span(seconds_between(0, left));
            line.append(" left");
            line
        },
        None => match hold.started_at() {
            Some(started) => {
                let mut line = String::from_str("for ");
                let s = span(seconds_between(started, now));
                line.append(s.as_str());
                line
            },
            None => String::new(),
        },
    }
}

} // verus!
