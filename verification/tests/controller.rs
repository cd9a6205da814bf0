use close_my_lid::controller::{expiry_delay, reconcile_step, ReconcileStep, WakeWatch};

#[test]
fn a_hold_across_sleep_is_restored_on_wake() {
    let mut watch = WakeWatch::new(true);
    assert!(!watch.is_awaiting_wake_restore());
    watch.system_will_sleep(true);
    assert!(watch.is_awaiting_wake_restore());
    assert!(!watch.is_ready_to_restore());
    watch.system_did_wake(true);
    assert!(watch.is_awaiting_wake_restore() && watch.is_ready_to_restore());
    watch.restore_finished(false, true);
    assert!(watch.is_awaiting_wake_restore(), "a failed restore is retried");
    watch.restore_finished(true, true);
    assert!(!watch.is_awaiting_wake_restore() && !watch.is_ready_to_restore());
}

#[test]
fn a_restore_is_given_up_once_the_session_is_gone() {
    let mut watch = WakeWatch::new(true);
    watch.system_did_wake(true);
    watch.restore_finished(false, false);
    assert!(!watch.is_awaiting_wake_restore());
}

#[test]
fn pending_messages_are_cancelled_once_when_a_hold_ends() {
    let mut watch = WakeWatch::new(false);
    assert!(!watch.note_session_transition(false));
    watch.started();
    assert!(!watch.note_session_transition(true));
    assert!(watch.note_session_transition(false));
    assert!(!watch.note_session_transition(false));
    watch.started();
    watch.stopped();
    assert!(!watch.note_session_transition(false));
}

#[test]
fn reads_are_not_trusted_while_a_restore_waits() {
    assert_eq!(reconcile_step(true, Some(false)), ReconcileStep::RestoreAfterWake(false));
    assert_eq!(reconcile_step(false, Some(false)), ReconcileStep::ApplySystemRead(false));
    assert_eq!(reconcile_step(true, None), ReconcileStep::ApplyFailedRead);
}

#[test]
fn the_expiry_timer_overshoots_then_backs_off() {
    assert_eq!(expiry_delay(None, 0), None);
    assert_eq!(expiry_delay(Some(10_000), 4_000), Some(6_500));
    assert_eq!(expiry_delay(Some(4_000), 4_000), Some(500));
    assert_eq!(expiry_delay(Some(3_999), 4_000), Some(30_000));
}
