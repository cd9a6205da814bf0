use close_my_lid::clock::{
    clock, describe, describe_with, progress, seconds_between, sidebar_detail, span, stopwatch,
    HoldState,
};

#[test]
fn the_stopwatch_drops_the_hour_under_an_hour() {
    assert_eq!(stopwatch(309), "5:09");
    assert_eq!(stopwatch(3909), "1:05:09");
    assert_eq!(stopwatch(-4), "0:00");
}

#[test]
fn compact_spans_never_claim_a_minute_that_is_not_there() {
    assert_eq!(span(30), "under a minute");
    assert_eq!(span(45 * 60), "45m");
    assert_eq!(span(65 * 60), "1h 5m");
}

#[test]
fn progress_runs_from_start_to_end() {
    let start: i64 = 1_725_029_869_000;
    let hold = HoldState::Active {
        started_at: start,
        ends_at: Some(start + 60 * 60_000),
    };
    let fraction = |parts: Option<(i64, i64)>| parts.map(|(done, total)| done as f32 / total as f32);
    assert_eq!(fraction(progress(&hold, start)), Some(0.0));
    assert_eq!(fraction(progress(&hold, start + 30 * 60_000)), Some(0.5));
    assert_eq!(fraction(progress(&hold, start + 90 * 60_000)), Some(1.0));
    assert_eq!(progress(&HoldState::Inactive, start), None);
    assert_eq!(progress(&hold, start - 5_000), Some((0, 3600)));
}

#[test]
fn spans_truncate_toward_zero() {
    assert_eq!(seconds_between(0, 1_999), 1);
    assert_eq!(seconds_between(1_999, 0), -1);
    assert_eq!(seconds_between(i64::MIN, i64::MAX), 18_446_744_073_709_551);
}

#[test]
fn the_clock_counts_down_or_up() {
    let hold = HoldState::Active { started_at: 0, ends_at: None };
    assert_eq!(clock(&hold, None, 65_000), Some(("1:05".to_string(), "elapsed")));
    assert_eq!(clock(&hold, Some(3_909_000), 65_000), Some(("1:05:09".to_string(), "remaining")));
    assert_eq!(clock(&HoldState::Inactive, None, 65_000), None);
}

#[test]
fn the_hero_describes_the_hold() {
    assert_eq!(
        describe_with(&HoldState::Inactive, ""),
        ("Sleeps normally", "Closing the lid puts your laptop to sleep, as usual.".to_string())
    );
    let timed = HoldState::Active { started_at: 0, ends_at: Some(3_600_000) };
    assert_eq!(
        describe_with(&timed, "3:45 PM"),
        ("Staying awake", "Until 3:45 PM, then normal sleep comes back on its own.".to_string())
    );
    let open = HoldState::Active { started_at: 0, ends_at: None };
    assert_eq!(describe(&open).1, "Until you stop it. Close the lid whenever you like.");
    let (headline, sentence) = describe(&timed);
    assert_eq!(headline, "Staying awake");
    assert!(sentence.starts_with("Until ") && sentence.ends_with(", then normal sleep comes back on its own."));
    assert!(sentence.contains("M,"));
}

#[test]
fn the_sidebar_says_what_is_left_or_how_long_it_ran() {
    assert_eq!(sidebar_detail(&HoldState::Inactive, None, 0), "Sleeps normally");
    let timed = HoldState::Active { started_at: 0, ends_at: Some(3_600_000) };
    assert_eq!(sidebar_detail(&timed, Some(2_700_000), 900_000), "45m left");
    let open = HoldState::Active { started_at: 0, ends_at: None };
    assert_eq!(sidebar_detail(&open, None, 3_900_000), "for 1h 5m");
}

fn reads_as_clock(text: &str) -> bool {
    let Some((hour, rest)) = text.split_once(':') else { return false };
    let Some((minute, half)) = rest.split_once(' ') else { return false };
    let hour_ok = !hour.starts_with('0') && matches!(hour.parse::<u32>(), Ok(1..=12));
    let minute_ok = minute.len() == 2 && matches!(minute.parse::<u32>(), Ok(0..=59));
    hour_ok && minute_ok && (half == "AM" || half == "PM")
}

#[test]
fn a_timed_hold_names_its_end_on_a_twelve_hour_clock() {
    for end in [0i64, 3_600_000, 1_700_000_000_000, -86_400_000, 2_999_999_999_999_999] {
        let timed = HoldState::Active { started_at: 0, ends_at: Some(end) };
        let (_, sentence) = describe(&timed);
        let until = sentence
            .strip_prefix("Until ")
            .and_then(|rest| rest.strip_suffix(", then normal sleep comes back on its own."))
            .expect("the sentence frames the end");
        assert!(reads_as_clock(until), "{until:?}");
    }
    let beyond = HoldState::Active { started_at: 0, ends_at: Some(i64::MAX) };
    assert_eq!(describe(&beyond).1, "Until , then normal sleep comes back on its own.");
}
