//! The menu bar app's reconciliation decisions: when the system's answer can
//! be trusted, when a hold has to be reasserted after a wake, when pending
//! notifications stop being true, and when the expiry timer fires.

use vstd::prelude::*;

verus! {

/// Interval of the ordinary reconciliation pass, in milliseconds.
pub const RECONCILE_INTERVAL_MS: u64 = 30_000;

/// Added to a session's end before the release timer fires, so the state
/// machine sees an end that has definitively passed rather than one it is
/// racing, in milliseconds.
pub const EXPIRY_OVERSHOOT_MS: u64 = 500;

/// What the controller remembers between reconciliation passes.
#[derive(Debug)]
pub struct WakeWatch {
    /// Whether the hold was active at the last look, so pending
    /// notifications are cancelled exactly once when it ends.
    was_active: bool,
    /// A hold was running when the machine went to sleep, so the setting has
    /// to be re-checked, and usually re-applied, on wake.
    wake_restore_pending: bool,
    /// Set only once the machine is actually awake again: reading the power
    /// settings on the way down answers for the wrong moment.
    wake_restore_ready: bool,
}

impl WakeWatch {
    pub closed spec fn was_active_spec(&self) -> bool {
        self.was_active
    }

    pub closed spec fn pending_spec(&self) -> bool {
        self.wake_restore_pending
    }

    pub closed spec fn ready_spec(&self) -> bool {
        self.wake_restore_ready
    }

    /// A restore is only ever ready while one is pending.
    pub open spec fn well_formed(&self) -> bool {
        self.ready_spec() ==> self.pending_spec()
    }

    /// Starts watching, given whether the recorded session is active.
    pub fn new(active: bool) -> (watch: Self)
        ensures
            watch.well_formed(),
            watch.was_active_spec() == active,
            !watch.pending_spec(),
            !watch.ready_spec(),
    {
        WakeWatch { was_active: active, wake_restore_pending: false, wake_restore_ready: false }
    }

    /// True while a hold is waiting to be reasserted after a wake. During
    /// that window the system's read is not trusted: the setting can come
    /// back off across a sleep and wake even though the session still runs.
    pub fn is_awaiting_wake_restore(&self) -> (awaiting: bool)
        ensures
            awaiting == self.pending_spec(),
    {
        self.wake_restore_pending
    }

    pub fn is_ready_to_restore(&self) -> (ready: bool)
        ensures
            ready == self.ready_spec(),
    {
        self.wake_restore_ready
    }

    /// A hold was started.
    pub fn started(&mut self)
        requires
            old(self).well_formed(),
        ensures
            final(self).well_formed(),
            final(self).was_active_spec(),
            final(self).pending_spec() == old(self).pending_spec(),
            final(self).ready_spec() == old(self).ready_spec(),
    {
        self.was_active = true;
    }

    /// A hold was stopped by hand, or released for a low battery.
    pub fn stopped(&mut self)
        requires
            old(self).well_formed(),
        ensures
            final(self).well_formed(),
            !final(self).was_active_spec(),
            final(self).pending_spec() == old(self).pending_spec(),
            final(self).ready_spec() == old(self).ready_spec(),
    {
        self.was_active = false;
    }

    /// The machine is going to sleep; `active` is whether a hold runs.
    pub fn system_will_sleep(&mut self, active: bool)
        requires
            old(self).well_formed(),
        ensures
            final(self).well_formed(),
            final(self).pending_spec() == active,
            !final(self).ready_spec(),
            final(self).was_active_spec() == old(self).was_active_spec(),
    {
        self.wake_restore_pending = active;
        self.wake_restore_ready = false;
    }

    /// The machine woke; `active` is whether a hold runs. A running hold is
    /// restored on the next pass.
    pub fn system_did_wake(&mut self, active: bool)
        requires
            old(self).well_formed(),
        ensures
            final(self).well_formed(),
            final(self).pending_spec() == active,
            final(self).ready_spec() == active,
            final(self).was_active_spec() == old(self).was_active_spec(),
    {
        self.wake_restore_pending = active;
        self.wake_restore_ready = active;
    }

    /// A restore after wake finished. On success nothing is left to restore;
    /// on failure the restore is only given up once there is no session left
    /// (`still_active` is whether one remains), otherwise the next pass tries
    /// again.
    pub fn restore_finished(&mut self, succeeded: bool, still_active: bool)
        requires
            old(self).well_formed(),
        ensures
            final(self).well_formed(),
            final(self).was_active_spec() == old(self).was_active_spec(),
            if succeeded || !still_active {
                !final(self).pending_spec() && !final(self).ready_spec()
            } else {
                final(self).pending_spec() == old(self).pending_spec() && final(self).ready_spec()
                    == old(self).ready_spec()
            },
    {
        if succeeded || !still_active {
            self.wake_restore_pending = false;
            self.wake_restore_ready = false;
        }
    }

    /// Notes whether the hold is active after a pass, and says whether the
    /// pending notifications have stopped being true: exactly when a hold
    /// that was active has ended.
    pub fn note_session_transition(&mut self, is_active: bool) -> (cancel: bool)
        requires
            old(self).well_formed(),
        ensures
            final(self).well_formed(),
            cancel == (old(self).was_active_spec() && !is_active),
            final(self).was_active_spec() == is_active,
            final(self).pending_spec() == old(self).pending_spec(),
            final(self).ready_spec() == old(self).ready_spec(),
    {
        let cancel = self.was_active && !is_active;
        self.was_active = is_active;
        cancel
    }
}

/// Whether to register the dead-man watchdog agent now: only once the
/// passwordless grant exists (without it the agent could not release
/// anything) and only if it is not registered already.
pub fn should_install_watchdog(granted: bool, installed: bool) -> (install: bool)
    ensures
        install == (granted && !installed),
{
    granted && !installed
}

/// What one reconciliation pass does with the system's answer.
#[derive(Debug, Clone, Copy, PartialEq, Eq, Structural)]
pub enum ReconcileStep {
    /// Reassert the hold the machine may have dropped while asleep.
    RestoreAfterWake(bool),
    /// Bring the session in line with what the system reports.
    ApplySystemRead(bool),
    /// The system could not be asked at all.
    ApplyFailedRead,
}

/// `awaiting` is whether a wake restore was pending and ready when the pass
/// began; `held` is the system's answer, if the read worked.
pub open spec fn reconcile_step_spec(awaiting: bool, held: Option<bool>) -> ReconcileStep {
    match held {
        Some(h) => if awaiting {
            ReconcileStep::RestoreAfterWake(h)
        } else {
            ReconcileStep::ApplySystemRead(h)
        },
        None => ReconcileStep::ApplyFailedRead,
    }
}

pub fn reconcile_step(awaiting: bool, held: Option<bool>) -> (step: ReconcileStep)
    ensures
        step == reconcile_step_spec(awaiting, held),
{
    match held {
        Some(h) => if awaiting {
            ReconcileStep::RestoreAfterWake(h)
        } else {
            ReconcileStep::ApplySystemRead(h)
        },
        None => ReconcileStep::ApplyFailedRead,
    }
}

/// When the expiry timer fires, in milliseconds from `now`: just after a
/// timed session's end, or, once that end has passed without the hold going,
/// at the ordinary reconciliation interval, so a release that keeps failing
/// becomes one retry per pass rather than a burst of prompts. `None` for a
/// hold with no end (or none at all).
pub open spec fn expiry_delay_spec(ends_at: Option<i64>, now: i64) -> Option<int> {
    match ends_at {
        Some(end) => if end >= now {
            Some(end - now + EXPIRY_OVERSHOOT_MS)
        } else {
            Some(RECONCILE_INTERVAL_MS as int)
        },
        None => None,
    }
}

pub fn expiry_delay(ends_at: Option<i64>, now: i64) -> (delay: Option<u128>)
    ensures
        match delay {
            Some(ms) => expiry_delay_spec(ends_at, now) == Some(ms as int),
            None => expiry_delay_spec(ends_at, now) is None,
        },
{
    match ends_at {
        Some(end) => {
            if end >= now {
                let left = (end as i128 - now as i128) as u128;
                Some(left + EXPIRY_OVERSHOOT_MS as u128)
            } else {
                Some(RECONCILE_INTERVAL_MS as u128)
            }
        },
        None => None,
    }
}

/// While a wake restore is outstanding, the system's answer is never taken
/// as the user's choice: a pass that got an answer restores the hold instead
/// of reconciling against it.
pub proof fn lemma_untrusted_reads_are_not_applied(held: Option<bool>)
    ensures
        reconcile_step_spec(true, held) !is ApplySystemRead,
        held is Some ==> reconcile_step_spec(true, held) == ReconcileStep::RestoreAfterWake(
            held.unwrap(),
        ),
{
}

/// On an ordinary pass the system's answer is taken as it was given: with no
/// wake restore awaited, an answer `held` is applied as `held`, so the two
/// answers lead to different steps; and a read that failed is handled as a
/// failed read whatever was awaited.
pub proof fn lemma_ordinary_reads_pass_through(held: bool, awaiting: bool)
    ensures
        reconcile_step_spec(false, Some(held)) == ReconcileStep::ApplySystemRead(held),
        reconcile_step_spec(false, Some(held)) != reconcile_step_spec(false, Some(!held)),
        reconcile_step_spec(awaiting, None) == ReconcileStep::ApplyFailedRead,
{
}

/// The expiry timer always waits: past the session's end while one is to
/// come, and a full reconciliation interval once it has passed.
pub proof fn lemma_expiry_timer_never_spins(end: i64, now: i64)
    ensures
        expiry_delay_spec(Some(end), now).unwrap() >= EXPIRY_OVERSHOOT_MS,
        end < now ==> expiry_delay_spec(Some(end), now) == Some(RECONCILE_INTERVAL_MS as int),
{
}

} // verus!
