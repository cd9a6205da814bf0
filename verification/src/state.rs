//! The desktop app's bookkeeping around the hold: the banner, the hold lock,
//! the length Start applies, the preferences and the pending reminders.
//!
//! The controller and the lock themselves belong to the core; what they
//! answered arrives here as plain values, and what the app should do next
//! goes back as plain values.

use vstd::prelude::*;
use vstd::string::*;

use crate::errors::GuiError;
use crate::login::{set_launch_at_login, MACOS_LOGIN_DETAIL};
use crate::prefs::GuiPrefs;
use crate::supervision::{
    notes_view, select_action, settle_outcome_spec, toggle_action, HoldAction, Note, Reminders,
    TickOutcome, TickReport,
};

verus! {

/// What the banner says when no power settings app could be started.
pub const NO_POWER_SETTINGS_DETAIL: &'static str = "No power settings app was found on this desktop.";

/// How an attempt to start a hold ended.
#[derive(Debug)]
pub enum StartOutcome {
    /// The hold lock could not be taken: another process holds the lid.
    LockRefused(GuiError),
    /// There is no controller to start a hold with.
    NoBackend(GuiError),
    /// The controller refused to start the hold.
    Refused(GuiError),
    /// The hold started; these are its later reminders.
    Started { ending_soon: Option<Note>, ended: Option<Note> },
}

/// The reminders a hold's plan leaves pending, in order.
pub open spec fn planned(ending_soon: Option<Note>, ended: Option<Note>) -> Seq<Note> {
    let first: Seq<Note> = match ending_soon {
        Some(note) => seq![note],
        None => Seq::empty(),
    };
    let last: Seq<Note> = match ended {
        Some(note) => seq![note],
        None => Seq::empty(),
    };
    first + last
}

/// Everything the window shows besides what the core reads out.
pub struct AppState<D> {
    /// Why the backend could not be built, if it could not be.
    pub startup_error: Option<GuiError>,
    /// The last thing that went wrong, until the user dismisses it or the
    /// next hold change succeeds.
    pub banner: Option<GuiError>,
    /// The length Start applies, and so the one the picker shows.
    pub selected: D,
    pub prefs: GuiPrefs,
    pub launch_at_login: bool,
    /// Whether this app owns a running hold.
    pub holding: bool,
    /// Whether this app holds the hold lock, which it does only while it owns
    /// a running hold.
    pub locked: bool,
    pub reminders: Reminders,
}

impl<D: Copy> AppState<D> {
    /// The hold lock is held only while this app owns a running hold.
    pub open spec fn well_formed(&self) -> bool {
        self.locked ==> self.holding
    }

    /// The state at launch: no banner, no lock, nothing pending.
    pub fn new(startup_error: Option<GuiError>, selected: D, prefs: GuiPrefs, launch_at_login: bool) -> (
        state: Self)
        ensures
            state.startup_error == startup_error,
            state.banner is None,
            state.selected == selected,
            state.prefs == prefs,
            state.launch_at_login == launch_at_login,
            state.well_formed(),
            !state.holding,
            !state.locked,
            state.reminders.pending@.len() == 0,
    {
        AppState {
            startup_error,
            banner: None,
            selected,
            prefs,
            launch_at_login,
            holding: false,
            locked: false,
            reminders: Reminders::new(),
        }
    }

    /// Whether a hold can be asked for at all.
    pub fn can_hold(&self) -> (can: bool)
        ensures
            can == (self.startup_error is None),
    {
        self.startup_error.is_none()
    }

    /// Start or stop. Starting applies the length last picked.
    pub fn toggle(&self) -> (action: HoldAction<D>)
        ensures
            action == if self.holding {
                HoldAction::Stop
            } else {
                HoldAction::Start(self.selected)
            },
    {
        toggle_action(self.holding, self.selected)
    }

    /// The length picker. While idle the pick becomes the length Start
    /// applies, to be remembered; while a hold runs it restarts the hold with
    /// the new length.
    pub fn select(&mut self, picked: D) -> (action: HoldAction<D>)
        ensures
            action == if old(self).holding {
                HoldAction::Start(picked)
            } else {
                HoldAction::Remember(picked)
            },
            final(self).selected == if old(self).holding { old(self).selected } else { picked },
            final(self).banner == old(self).banner,
            final(self).holding == old(self).holding,
            final(self).locked == old(self).locked,
            final(self).reminders == old(self).reminders,
    {
        let action = select_action(self.holding, picked);
        if !self.holding {
            self.selected = picked;
        }
        action
    }

    /// Whether the lock must be taken before a start: only when it is not
    /// already held, and never in a preview build.
    pub fn needs_lock(&self, preview: bool) -> (needed: bool)
        ensures
            needed == (!self.locked && !preview),
    {
        !self.locked && !preview
    }

    /// A start of `duration` ended as `outcome`; the lock was taken first
    /// where `needs_lock` asked for it. A started hold is owned by this app,
    /// keeps or takes the lock (none in a preview build), clears the banner,
    /// becomes the length Start applies, and replaces the pending reminders
    /// with its own. Any refusal goes to the banner and gives the lock back.
    /// The answer is whether to remember the length.
    pub fn start_finished(&mut self, duration: D, preview: bool, outcome: StartOutcome) -> (remember:
        bool)
        requires
            old(self).well_formed(),
        ensures
            final(self).well_formed(),
            remember == (outcome is Started),
            match outcome {
                StartOutcome::Started { ending_soon, ended } => {
                    &&& final(self).banner is None
                    &&& final(self).selected == duration
                    &&& final(self).holding
                    &&& final(self).locked == (old(self).locked || !preview)
                    &&& notes_view(final(self).reminders.pending@) == notes_view(
                        planned(ending_soon, ended),
                    )
                },
                StartOutcome::LockRefused(error) | StartOutcome::NoBackend(error)
                | StartOutcome::Refused(error) => {
                    &&& final(self).banner == Some(error)
                    &&& !final(self).locked
                    &&& final(self).holding == old(self).holding
                    &&& final(self).selected == old(self).selected
                    &&& final(self).reminders == old(self).reminders
                },
            },
            final(self).prefs == old(self).prefs,
            final(self).launch_at_login == old(self).launch_at_login,
    {
        match outcome {
            StartOutcome::Started { ending_soon, ended } => {
                self.selected = duration;
                self.reminders.plan(ending_soon, ended);
                self.holding = true;
                self.locked = self.locked || !preview;
                self.banner = None;
                true
            },
            StartOutcome::LockRefused(error) | StartOutcome::NoBackend(error)
            | StartOutcome::Refused(error) => {
                self.locked = false;
                self.banner = Some(error);
                false
            },
        }
    }

    /// The hold was released: the lock goes back only now that the system
    /// change succeeded, and the reminders are no longer true.
    fn released(&mut self)
        ensures
            !final(self).holding,
            !final(self).locked,
            final(self).reminders.pending@.len() == 0,
            final(self).banner == old(self).banner,
            final(self).selected == old(self).selected,
            final(self).prefs == old(self).prefs,
            final(self).launch_at_login == old(self).launch_at_login,
    {
        self.holding = false;
        self.locked = false;
        self.reminders.cancel();
    }

    /// A stop asked for from the window ended as `outcome`. Success releases
    /// the lock, drops the reminders and clears the banner; a refusal goes to
    /// the banner and leaves the rest, lock included, as it was.
    pub fn stop_finished(&mut self, outcome: Result<(), GuiError>)
        requires
            old(self).well_formed(),
        ensures
            final(self).well_formed(),
            match outcome {
                Ok(()) => {
                    &&& final(self).banner is None
                    &&& !final(self).holding
                    &&& !final(self).locked
                    &&& final(self).reminders.pending@.len() == 0
                },
                Err(error) => {
                    &&& final(self).banner == Some(error)
                    &&& final(self).holding == old(self).holding
                    &&& final(self).locked == old(self).locked
                    &&& final(self).reminders == old(self).reminders
                },
            },
            final(self).selected == old(self).selected,
            final(self).prefs == old(self).prefs,
            final(self).launch_at_login == old(self).launch_at_login,
    {
        match outcome {
            Ok(()) => {
                self.released();
                self.banner = None;
            },
            Err(error) => {
                self.banner = Some(error);
            },
        }
    }

    /// Whether quitting must stop a hold first: only when this app owns one,
    /// so a quit after a successful release stops nothing.
    pub fn must_stop_on_quit(&self) -> (stop: bool)
        ensures
            stop == self.holding,
    {
        self.holding
    }

    /// A stop on the way out, asked for where `must_stop_on_quit` said so,
    /// ended as `outcome`. Success releases as a stop
    /// from the window does; a refusal is handed back to be logged, since
    /// there is no window left to show it in.
    pub fn release_for_quit(&mut self, outcome: Result<(), GuiError>) -> (refusal: Option<GuiError>)
        requires
            old(self).well_formed(),
        ensures
            final(self).well_formed(),
            match outcome {
                Ok(()) => {
                    &&& refusal is None
                    &&& !final(self).holding
                    &&& !final(self).locked
                    &&& final(self).reminders.pending@.len() == 0
                },
                Err(error) => {
                    &&& refusal == Some(error)
                    &&& final(self).holding == old(self).holding
                    &&& final(self).locked == old(self).locked
                    &&& final(self).reminders == old(self).reminders
                },
            },
            final(self).banner == old(self).banner,
            final(self).selected == old(self).selected,
    {
        match outcome {
            Ok(()) => {
                self.released();
                None
            },
            Err(error) => Some(error),
        }
    }

    /// The tail of a supervision pass, once the core has reported: a released
    /// hold gives the lock back, and the reminders settle as
    /// `Reminders::settle_tick` says.
    pub fn tick_finished(&mut self, report: TickReport, threshold: u8) -> (outcome: TickOutcome)
        requires
            old(self).well_formed(),
        ensures
            final(self).well_formed(),
            final(self).holding == if report is Released { false } else { old(self).holding },
            settle_outcome_spec(
                report,
                threshold,
                old(self).reminders.pending@,
                final(self).reminders.pending@,
                outcome,
            ),
            final(self).locked == if report is Released { false } else { old(self).locked },
            final(self).banner == old(self).banner,
            final(self).selected == old(self).selected,
    {
        let outcome = self.reminders.settle_tick(report, threshold);
        if outcome.drop_lock {
            self.holding = false;
            self.locked = false;
        }
        outcome
    }

    /// Shows a refusal in the banner.
    pub fn show_error(&mut self, error: GuiError)
        ensures
            final(self).banner == Some(error),
            final(self).holding == old(self).holding,
            final(self).locked == old(self).locked,
            final(self).selected == old(self).selected,
            final(self).prefs == old(self).prefs,
            final(self).launch_at_login == old(self).launch_at_login,
    {
        self.banner = Some(error);
    }

    pub fn dismiss_banner(&mut self)
        ensures
            final(self).banner is None,
            final(self).holding == old(self).holding,
            final(self).locked == old(self).locked,
            final(self).selected == old(self).selected,
            final(self).prefs == old(self).prefs,
            final(self).launch_at_login == old(self).launch_at_login,
    {
        self.banner = None;
    }

    /// Turns notifications on or off, and gives back the preferences to save.
    pub fn set_notifications(&mut self, enabled: bool) -> (to_save: GuiPrefs)
        ensures
            final(self).prefs.notifications == enabled,
            to_save == final(self).prefs,
            final(self).banner == old(self).banner,
            final(self).holding == old(self).holding,
            final(self).locked == old(self).locked,
    {
        self.prefs.notifications = enabled;
        self.prefs
    }

    /// The power settings shortcut: when no settings app could be started,
    /// the banner says so instead of the click doing nothing.
    pub fn power_settings_opened(&mut self, opened: bool)
        ensures
            opened ==> final(self).banner == old(self).banner,
            !opened ==> (final(self).banner matches Some(GuiError::Settings { detail }) && detail@
                == NO_POWER_SETTINGS_DETAIL@),
            final(self).holding == old(self).holding,
            final(self).locked == old(self).locked,
            final(self).selected == old(self).selected,
    {
        if !opened {
            self.show_error(GuiError::Settings { detail: String::from_str(NO_POWER_SETTINGS_DETAIL) });
        }
    }

    /// Registers or unregisters the app as a login item. The checkbox follows
    /// only once the system agreed; a refusal goes to the banner and leaves
    /// the checkbox as it was.
    pub fn set_launch_at_login(&mut self, exe: &Result<String, String>, enabled: bool, on_macos: bool)
        ensures
            final(self).launch_at_login == enabled && final(self).banner == old(self).banner || (
            final(self).launch_at_login == old(self).launch_at_login && final(self).banner
                matches Some(GuiError::LoginItem { .. })),
            on_macos ==> final(self).launch_at_login == old(self).launch_at_login,
            on_macos ==> (final(self).banner matches Some(GuiError::LoginItem { detail })
                && detail@ == MACOS_LOGIN_DETAIL@),
            !on_macos && exe is Err ==> final(self).launch_at_login == old(self).launch_at_login,
            !on_macos ==> (exe matches Err(why) ==> (final(self).banner matches Some(
                GuiError::LoginItem { detail },
            ) && detail@ == why@)),
            final(self).holding == old(self).holding,
            final(self).locked == old(self).locked,
            final(self).selected == old(self).selected,
    {
        match set_launch_at_login(exe, enabled, on_macos) {
            Ok(_) => self.launch_at_login = enabled,
            Err(error) => self.show_error(error),
        }
    }
}

} // verus!
