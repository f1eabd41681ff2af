//! The periodic driver: one restore at startup, then a save whenever the
//! save interval has passed, and a last save at shutdown.
//!
//! The driver holds its clock and takes the shutdown flag as an argument:
//! neither is ambient state. Its caller sleeps, saves and restores, and
//! tells the driver the time, in milliseconds of a monotonic clock.

use vstd::prelude::*;

verus! {

/// The time between two looks at the shutdown flag, in milliseconds.
pub const TICK_MS: u64 = 100;

/// What the driver waits for.
#[derive(Clone, Copy, PartialEq, Eq, Structural, Debug)]
pub enum DriverPhase {
    /// The restore at startup.
    Restoring,
    /// The end of a tick.
    Sleeping,
    /// The end of a periodic save.
    Saving,
    /// The end of the last save.
    Closing,
    /// Nothing: the driver has stopped.
    Stopped,
}

/// What the caller is to do next.
#[derive(Clone, Copy, PartialEq, Eq, Structural, Debug)]
pub enum DriverAction {
    /// Restore the saved session.
    Restore,
    /// Sleep for one tick.
    Sleep,
    /// Save the session.
    Save,
    /// Save the session a last time.
    FinalSave,
    /// Shut down.
    Exit,
    /// Shut down with the error of the restore.
    Fail,
}

/// The state of the driver.
#[derive(Clone, Copy, PartialEq, Eq, Structural, Debug)]
pub struct Driver {
    /// The time between two saves, in seconds.
    pub save_interval: u64,
    /// The time of the last save, in milliseconds.
    pub last_save: u64,
    pub phase: DriverPhase,
}

/// The time that has passed since the last save.
pub open spec fn elapsed(d: Driver, now: u64) -> int {
    if now >= d.last_save {
        now - d.last_save
    } else {
        0
    }
}

/// Whether a save is due: the save interval has passed since the last one.
pub open spec fn save_due(d: Driver, now: u64) -> bool {
    elapsed(d, now) >= d.save_interval * 1000
}

/// The look at the shutdown flag: with the flag raised the last save
/// begins, else another tick.
pub open spec fn look(d: Driver, term: bool) -> (Driver, DriverAction) {
    if term {
        (Driver { phase: DriverPhase::Closing, ..d }, DriverAction::FinalSave)
    } else {
        (Driver { phase: DriverPhase::Sleeping, ..d }, DriverAction::Sleep)
    }
}

/// The transition of the driver: the state and the action that follow when
/// the last action has ended at the time `now`, with the shutdown flag
/// `term`, and as `ok` says. Only a restore that fails stops the driver with
/// an error: a save that fails is passed over.
pub open spec fn next(d: Driver, now: u64, term: bool, ok: bool) -> (Driver, DriverAction) {
    match d.phase {
        DriverPhase::Restoring => if ok {
            look(Driver { last_save: now, ..d }, term)
        } else {
            (Driver { phase: DriverPhase::Stopped, ..d }, DriverAction::Fail)
        },
        DriverPhase::Sleeping => if save_due(d, now) {
            (Driver { phase: DriverPhase::Saving, ..d }, DriverAction::Save)
        } else {
            look(d, term)
        },
        DriverPhase::Saving => look(Driver { last_save: now, ..d }, term),
        DriverPhase::Closing => (Driver { phase: DriverPhase::Stopped, ..d }, DriverAction::Exit),
        DriverPhase::Stopped => (d, DriverAction::Exit),
    }
}

impl Driver {
    /// The driver at startup: its first action is the restore.
    pub fn start(save_interval: u64) -> (r: (Driver, DriverAction))
        ensures
            r.0 == (Driver { save_interval, last_save: 0, phase: DriverPhase::Restoring }),
            r.1 == DriverAction::Restore,
    {
        (Driver { save_interval, last_save: 0, phase: DriverPhase::Restoring }, DriverAction::Restore)
    }

    /// Whether a save is due at the time `now`.
    pub fn is_save_due(&self, now: u64) -> (r: bool)
        ensures
            r == save_due(*self, now),
    {
        let passed: u64 = if now >= self.last_save {
            now - self.last_save
        } else {
            0
        };
        passed / 1000 >= self.save_interval
    }

    fn look(self, term: bool) -> (r: (Driver, DriverAction))
        ensures
            r == look(self, term),
    {
        if term {
            (Driver { phase: DriverPhase::Closing, ..self }, DriverAction::FinalSave)
        } else {
            (Driver { phase: DriverPhase::Sleeping, ..self }, DriverAction::Sleep)
        }
    }

    /// Takes the end of the last action and gives the next one.
    pub fn step(self, now: u64, term: bool, ok: bool) -> (r: (Driver, DriverAction))
        ensures
            r == next(self, now, term, ok),
    {
        match self.phase {
            DriverPhase::Restoring => {
                if ok {
                    Driver { last_save: now, ..self }.look(term)
                } else {
                    (Driver { phase: DriverPhase::Stopped, ..self }, DriverAction::Fail)
                }
            },
            DriverPhase::Sleeping => {
                if self.is_save_due(now) {
                    (Driver { phase: DriverPhase::Saving, ..self }, DriverAction::Save)
                } else {
                    self.look(term)
                }
            },
            DriverPhase::Saving => Driver { last_save: now, ..self }.look(term),
            DriverPhase::Closing => (
                Driver { phase: DriverPhase::Stopped, ..self },
                DriverAction::Exit,
            ),
            DriverPhase::Stopped => (self, DriverAction::Exit),
        }
    }
}

/// Once the shutdown flag is raised the driver saves once more and stops,
/// whether or not that save succeeds; it saves at most once on the way.
pub proof fn lemma_shutdown_is_clean(d: Driver, now: u64, ok: bool)
    requires
        d.phase == DriverPhase::Sleeping || d.phase == DriverPhase::Saving,
    ensures
        ({
            let first = next(d, now, true, ok);
            let second = next(first.0, now, true, ok);
            if first.1 == DriverAction::FinalSave {
                second.1 == DriverAction::Exit && second.0.phase == DriverPhase::Stopped
            } else {
                first.1 == DriverAction::Save && second.1 == DriverAction::FinalSave && next(
                    second.0,
                    now,
                    true,
                    ok,
                ).1 == DriverAction::Exit
            }
        }),
{
}

/// No save begins before the save interval has passed since the last one,
/// but for the last save.
pub proof fn lemma_save_only_when_due(d: Driver, now: u64, term: bool, ok: bool)
    ensures
        next(d, now, term, ok).1 == DriverAction::Save ==> d.phase == DriverPhase::Sleeping
            && elapsed(d, now) >= d.save_interval * 1000,
        next(d, now, term, ok).1 == DriverAction::FinalSave ==> term,
        d.phase == DriverPhase::Saving ==> next(d, now, term, ok).0.last_save == now,
{
}

} // verus!
