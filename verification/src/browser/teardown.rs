//! The teardown of a browser process: the process goes first, its profile
//! directory after it, and a directory that resists is tried again.

use vstd::prelude::*;
use crate::error::Error;

verus! {

/// How often the removal of the profile directory is tried again after it
/// has failed.
pub const REMOVAL_RETRIES: u32 = 10;

/// How long the process is given to let go of its files once it has been
/// reaped, in milliseconds.
pub const SETTLE_PAUSE_MS: u64 = 200;

/// The pause after the failed removal number `attempt`, counted from 0, in
/// milliseconds: 100, then 200, then 300 every time.
pub open spec fn removal_pause(attempt: u32) -> u64 {
    if attempt == 0 {
        100
    } else if attempt == 1 {
        200
    } else {
        300
    }
}

/// Computes the pause after a failed removal.
pub fn removal_pause_ms(attempt: u32) -> (ms: u64)
    ensures
        ms == removal_pause(attempt),
        attempt < u32::MAX ==> ms == 100 * (if attempt + 1 < 3 {
            attempt + 1
        } else {
            3
        }),
{
    if attempt == 0 {
        100
    } else if attempt == 1 {
        200
    } else {
        300
    }
}

/// Where the teardown of a browser process stands.
#[derive(Debug, Clone, Copy, PartialEq, Eq, Structural)]
pub enum Teardown {
    /// The process is running.
    Running,
    /// The process has been told to die.
    Killed,
    /// The process has been waited for.
    Reaped,
    /// The removal number `attempt` of the profile directory is due.
    Removing { attempt: u32 },
    /// The removal number `attempt` has failed; a pause is due.
    Resting { attempt: u32 },
    /// The teardown is over; `removed` tells whether the profile directory
    /// is gone.
    Done { removed: bool },
}

/// What is to be done next in a teardown.
#[derive(Debug, Clone, Copy, PartialEq, Eq, Structural)]
pub enum TeardownAction {
    /// Kill the process.
    Kill,
    /// Wait for the process to end.
    Wait,
    /// Sleep for `ms` milliseconds.
    Pause { ms: u64 },
    /// Remove the profile directory and all that is in it.
    RemoveProfile,
    /// Nothing: the teardown is over.
    Finished,
}

impl Teardown {
    /// What is to be done at this stage.
    pub open spec fn due(self) -> TeardownAction {
        match self {
            Teardown::Running => TeardownAction::Kill,
            Teardown::Killed => TeardownAction::Wait,
            Teardown::Reaped => TeardownAction::Pause { ms: SETTLE_PAUSE_MS },
            Teardown::Removing { attempt } => TeardownAction::RemoveProfile,
            Teardown::Resting { attempt } => TeardownAction::Pause { ms: removal_pause(attempt) },
            Teardown::Done { removed } => TeardownAction::Finished,
        }
    }

    /// The stage after what was due has been done and has succeeded or
    /// failed. Only the removal of the directory is affected by failure: it
    /// is tried again after a pause, [`REMOVAL_RETRIES`] times at most.
    pub open spec fn next(self, succeeded: bool) -> Teardown {
        match self {
            Teardown::Running => Teardown::Killed,
            Teardown::Killed => Teardown::Reaped,
            Teardown::Reaped => Teardown::Removing { attempt: 0 },
            Teardown::Removing { attempt } => if succeeded {
                Teardown::Done { removed: true }
            } else if attempt < REMOVAL_RETRIES {
                Teardown::Resting { attempt }
            } else {
                Teardown::Done { removed: false }
            },
            Teardown::Resting { attempt } => if attempt < REMOVAL_RETRIES {
                Teardown::Removing { attempt: (attempt + 1) as u32 }
            } else {
                Teardown::Done { removed: false }
            },
            Teardown::Done { removed } => self,
        }
    }

    /// The stage reached from this one when the actions due succeed or fail
    /// as `outcomes` tell, one after the other.
    pub open spec fn run(self, outcomes: Seq<bool>) -> Teardown
        decreases outcomes.len(),
    {
        if outcomes.len() == 0 {
            self
        } else {
            self.run(outcomes.drop_last()).next(outcomes.last())
        }
    }

    /// The teardown of a process that is running.
    pub fn new() -> (teardown: Teardown)
        ensures
            teardown == Teardown::Running,
    {
        Teardown::Running
    }

    /// Tells what is to be done now.
    pub fn action(&self) -> (action: TeardownAction)
        ensures
            action == self.due(),
    {
        match self {
            Teardown::Running => TeardownAction::Kill,
            Teardown::Killed => TeardownAction::Wait,
            Teardown::Reaped => TeardownAction::Pause { ms: SETTLE_PAUSE_MS },
            Teardown::Removing { attempt: _ } => TeardownAction::RemoveProfile,
            Teardown::Resting { attempt } => TeardownAction::Pause { ms: removal_pause_ms(*attempt) },
            Teardown::Done { removed: _ } => TeardownAction::Finished,
        }
    }

    /// Takes note that what was due has been done, and whether it succeeded.
    pub fn advance(&mut self, succeeded: bool)
        ensures
            *final(self) == old(self).next(succeeded),
    {
        let next = match *self {
            Teardown::Running => Teardown::Killed,
            Teardown::Killed => Teardown::Reaped,
            Teardown::Reaped => Teardown::Removing { attempt: 0 },
            Teardown::Removing { attempt } => if succeeded {
                Teardown::Done { removed: true }
            } else if attempt < REMOVAL_RETRIES {
                Teardown::Resting { attempt }
            } else {
                Teardown::Done { removed: false }
            },
            Teardown::Resting { attempt } => if attempt < REMOVAL_RETRIES {
                Teardown::Removing { attempt: attempt + 1 }
            } else {
                Teardown::Done { removed: false }
            },
            Teardown::Done { removed } => Teardown::Done { removed },
        };
        *self = next;
    }

    /// How the teardown ended: `None` while it is going on. A directory that
    /// could not be removed is a failure of cleanup, which is reported and
    /// never fails the caller.
    pub fn outcome(&self) -> (outcome: Option<Result<(), Error>>)
        ensures
            outcome == (match *self {
                Teardown::Done { removed } => Some(
                    if removed {
                        Ok::<(), Error>(())
                    } else {
                        Err::<(), Error>(Error::ProcessCleanupFailed)
                    },
                ),
                _ => None::<Result<(), Error>>,
            }),
    {
        match self {
            Teardown::Done { removed } => Some(
                if *removed {
                    Ok(())
                } else {
                    Err(Error::ProcessCleanupFailed)
                },
            ),
            _ => None,
        }
    }
}

/// How far a teardown has come, as a number that never falls.
pub open spec fn progress(stage: Teardown) -> int {
    match stage {
        Teardown::Running => 0,
        Teardown::Killed => 1,
        Teardown::Reaped => 2,
        Teardown::Removing { attempt } => 3 + 2 * attempt,
        Teardown::Resting { attempt } => 4 + 2 * attempt,
        Teardown::Done { removed } => 3 + 2 * (REMOVAL_RETRIES + 1),
    }
}

/// Whether a stage can be reached at all: no more removals have failed than
/// are tried.
pub open spec fn reachable(stage: Teardown) -> bool {
    match stage {
        Teardown::Removing { attempt } => attempt <= REMOVAL_RETRIES,
        Teardown::Resting { attempt } => attempt <= REMOVAL_RETRIES,
        _ => true,
    }
}

/// Every step of a teardown that is not over takes it further, and none
/// takes it beyond its end.
pub proof fn lemma_teardown_step(stage: Teardown, succeeded: bool)
    requires
        reachable(stage),
    ensures
        !(stage is Done) ==> progress(stage.next(succeeded)) > progress(stage),
        progress(stage.next(succeeded)) <= 3 + 2 * (REMOVAL_RETRIES + 1),
        reachable(stage.next(succeeded)),
{
}

/// The process is killed and waited for before its profile directory is
/// touched: whenever the removal of the directory is due, the first two
/// actions of the teardown were the kill and the wait.
pub proof fn lemma_kill_and_wait_come_first(outcomes: Seq<bool>)
    requires
        Teardown::Running.run(outcomes).due() == TeardownAction::RemoveProfile,
    ensures
        outcomes.len() >= 3,
        Teardown::Running.run(outcomes.subrange(0, 0)).due() == TeardownAction::Kill,
        Teardown::Running.run(outcomes.subrange(0, 1)).due() == TeardownAction::Wait,
{
    lemma_run_progress(outcomes);
    assert(outcomes.subrange(0, 0) =~= Seq::<bool>::empty());
    let one = outcomes.subrange(0, 1);
    assert(one.drop_last() =~= Seq::<bool>::empty());
    assert(Teardown::Running.run(one) == Teardown::Running.run(one.drop_last()).next(one.last()));
}

/// A teardown that has taken `n` steps has come at least as far as `n`, or
/// is over.
proof fn lemma_run_progress(outcomes: Seq<bool>)
    ensures
        reachable(Teardown::Running.run(outcomes)),
        progress(Teardown::Running.run(outcomes)) <= 3 + 2 * (REMOVAL_RETRIES + 1),
        Teardown::Running.run(outcomes) is Done || progress(Teardown::Running.run(outcomes))
            >= outcomes.len(),
        outcomes.len() < 3 ==> progress(Teardown::Running.run(outcomes)) == outcomes.len(),
    decreases outcomes.len(),
{
    if outcomes.len() > 0 {
        lemma_run_progress(outcomes.drop_last());
        lemma_teardown_step(Teardown::Running.run(outcomes.drop_last()), outcomes.last());
    }
}

/// A teardown ends: after 25 steps it is over, however the steps went.
pub proof fn lemma_teardown_ends(outcomes: Seq<bool>)
    requires
        outcomes.len() >= 3 + 2 * (REMOVAL_RETRIES + 1),
    ensures
        Teardown::Running.run(outcomes) is Done,
{
    lemma_run_progress(outcomes);
}

/// A teardown does not end before the removal of the profile directory has
/// been tried, and once a removal succeeds it ends with the directory gone.
pub proof fn lemma_removal_is_tried(outcomes: Seq<bool>)
    requires
        outcomes.len() > 0,
        Teardown::Running.run(outcomes) is Done,
        !(Teardown::Running.run(outcomes.drop_last()) is Done),
    ensures
        Teardown::Running.run(outcomes.drop_last()).due() == TeardownAction::RemoveProfile,
        Teardown::Running.run(outcomes) == (Teardown::Done { removed: outcomes.last() }),
{
    lemma_resting_is_within_bounds(outcomes.drop_last());
}

/// A pause between removals is only ever due after fewer failures than
/// there are retries.
proof fn lemma_resting_is_within_bounds(outcomes: Seq<bool>)
    ensures
        Teardown::Running.run(outcomes) matches Teardown::Resting { attempt } ==> attempt
            < REMOVAL_RETRIES,
    decreases outcomes.len(),
{
    if outcomes.len() > 0 {
        lemma_resting_is_within_bounds(outcomes.drop_last());
    }
}

} // verus!
