use close_my_lid::supervision::{
    battery_release_message, next_wake, posted, select_action, toggle_action, HoldAction, Note,
    Release, Reminders, TickReport,
};

fn note(fire_at: i64, body: &str) -> Note {
    Note { fire_at, title: "Close My Lid".to_string(), body: body.to_string() }
}

fn bodies(notes: &[Note]) -> Vec<&str> {
    notes.iter().map(|note| note.body.as_str()).collect()
}

#[test]
fn due_messages_are_taken_in_order_and_the_rest_kept() {
    let mut reminders = Reminders::new();
    reminders.pending = vec![note(10, "a"), note(30, "b"), note(20, "c"), note(40, "d")];
    let due = reminders.take_due(25);
    assert_eq!(bodies(&due), vec!["a", "c"]);
    assert_eq!(bodies(&reminders.pending), vec!["b", "d"]);
    assert!(reminders.take_due(25).is_empty());
}

#[test]
fn an_expired_hold_delivers_everything_pending() {
    let mut reminders = Reminders::new();
    reminders.plan(Some(note(100, "5 minutes left")), Some(note(400, "ended")));
    let outcome = reminders.settle_tick(TickReport::Released { expired: true }, 5);
    assert_eq!(outcome.release, Some(Release::Expired));
    assert!(outcome.drop_lock);
    assert_eq!(outcome.announce, vec!["5 minutes left".to_string(), "ended".to_string()]);
    assert!(reminders.pending.is_empty());
}

#[test]
fn a_battery_release_drops_what_is_pending_and_says_why() {
    let mut reminders = Reminders::new();
    reminders.plan(None, Some(note(400, "ended")));
    let outcome = reminders.settle_tick(TickReport::Released { expired: false }, 5);
    assert_eq!(outcome.release, Some(Release::Battery));
    assert_eq!(
        outcome.announce,
        vec!["Battery is low, so normal closed-lid sleep is back on at 5%.".to_string()]
    );
    assert!(reminders.pending.is_empty());
    assert_eq!(
        battery_release_message(10),
        "Battery is low, so normal closed-lid sleep is back on at 10%."
    );
}

#[test]
fn a_pass_that_keeps_the_hold_changes_nothing() {
    for report in [TickReport::Kept, TickReport::Failed, TickReport::NoController] {
        let mut reminders = Reminders::new();
        reminders.plan(Some(note(100, "soon")), None);
        let outcome = reminders.settle_tick(report, 5);
        assert_eq!(outcome.release, None);
        assert!(!outcome.drop_lock);
        assert!(outcome.announce.is_empty());
        assert_eq!(bodies(&reminders.pending), vec!["soon"]);
    }
}

#[test]
fn the_loop_wakes_for_whatever_comes_first() {
    let pending = vec![note(12_000, "a"), note(9_000, "b")];
    assert_eq!(next_wake(None, &vec![], 0, 15_000), 15_000);
    assert_eq!(next_wake(Some(20_000), &pending, 1_000, 15_000), 8_000);
    assert_eq!(next_wake(Some(1_100), &pending, 1_000, 15_000), 250);
    assert_eq!(next_wake(Some(-5), &vec![], 1_000, 15_000), 250);
    assert_eq!(next_wake(Some(99_000), &vec![], 0, 15_000), 15_000);
}

#[test]
fn controls_start_stop_or_remember() {
    assert_eq!(toggle_action(true, 60), HoldAction::Stop);
    assert_eq!(toggle_action(false, 60), HoldAction::Start(60));
    assert_eq!(select_action(true, 240), HoldAction::Start(240));
    assert_eq!(select_action(false, 240), HoldAction::Remember(240));
    assert_eq!(posted(false, vec!["hi".to_string()]), Vec::<String>::new());
    assert_eq!(posted(true, vec!["hi".to_string()]), vec!["hi".to_string()]);
}
