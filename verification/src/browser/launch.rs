//! The launch of a browser, step by step, and what is undone when a step
//! fails.

use vstd::prelude::*;
use vstd::string::*;
use crate::browser::browser_config::{baseline, baseline_args, push_text, strings_view};
use crate::error::Error;

verus! {

/// The flag with which a launch starts the browser without a window.
pub open spec fn launch_headless_flag() -> Seq<char> {
    "--headless=new"@
}

/// The command line of a launch: the debug port and the profile directory,
/// then the flags of every launch, and last, exactly where the browser is to
/// run without a window, the headless flag.
pub open spec fn launch_command(port: u16, profile: Seq<char>, headless: bool) -> Seq<Seq<char>> {
    baseline(port, profile) + (if headless {
        seq![launch_headless_flag()]
    } else {
        Seq::empty()
    })
}

/// Lists the arguments that a launch starts the browser with. Without a
/// window is something the browser is told: leaving the flag out starts it
/// with one.
pub fn launch_args(port: u16, profile: &str, headless: bool) -> (args: Vec<String>)
    ensures
        strings_view(args@) == launch_command(port, profile@, headless),
{
    let mut args = baseline_args(port, profile);
    if headless {
        push_text(&mut args, "--headless=new");
    }
    assert(strings_view(args@) =~= launch_command(port, profile@, headless));
    args
}

/// Where a launch stands.
#[derive(Debug, Clone, Copy, PartialEq, Eq, Structural)]
pub enum Launch {
    /// The profile directory is to be created.
    Profile,
    /// The executable is to be found.
    Executable,
    /// The debug port is to be chosen.
    Port,
    /// The process is to be started.
    Spawn,
    /// The debug endpoint is to be read from the log of the process.
    Endpoint,
    /// The connection to the debug endpoint is to be made.
    Connect,
    /// The launch has failed with `error` and is being undone; `spawned`
    /// tells whether the process had been started.
    Abort { error: Error, spawned: bool },
    /// The browser is up and connected.
    Ready,
    /// The launch has failed, and nothing of it is left.
    Failed { error: Error },
}

/// What is to be done next in a launch.
#[derive(Debug, Clone, Copy, PartialEq, Eq, Structural)]
pub enum LaunchAction {
    CreateProfile,
    FindExecutable,
    ChoosePort,
    SpawnProcess,
    ReadEndpoint,
    Connect,
    /// Tear the process down: kill it, wait for it, remove its profile
    /// directory.
    TearDown,
    /// Remove the profile directory.
    RemoveProfile,
    /// Nothing: the browser is up.
    Finished,
    /// Nothing: the launch has failed with `error`.
    GiveUp { error: Error },
}

impl Launch {
    /// What is to be done at this stage.
    pub open spec fn due(self) -> LaunchAction {
        match self {
            Launch::Profile => LaunchAction::CreateProfile,
            Launch::Executable => LaunchAction::FindExecutable,
            Launch::Port => LaunchAction::ChoosePort,
            Launch::Spawn => LaunchAction::SpawnProcess,
            Launch::Endpoint => LaunchAction::ReadEndpoint,
            Launch::Connect => LaunchAction::Connect,
            Launch::Abort { error, spawned } => if spawned {
                LaunchAction::TearDown
            } else {
                LaunchAction::RemoveProfile
            },
            Launch::Ready => LaunchAction::Finished,
            Launch::Failed { error } => LaunchAction::GiveUp { error },
        }
    }

    /// The stage after what was due has been done, with the outcome given.
    /// Any failure ends the launch. What had been set up by then is undone
    /// first: the profile directory once it exists, the process once it has
    /// been started.
    pub open spec fn next(self, outcome: Result<(), Error>) -> Launch {
        match self {
            Launch::Profile => match outcome {
                Ok(_) => Launch::Executable,
                Err(error) => Launch::Failed { error },
            },
            Launch::Executable => match outcome {
                Ok(_) => Launch::Port,
                Err(error) => Launch::Abort { error, spawned: false },
            },
            Launch::Port => match outcome {
                Ok(_) => Launch::Spawn,
                Err(error) => Launch::Abort { error, spawned: false },
            },
            Launch::Spawn => match outcome {
                Ok(_) => Launch::Endpoint,
                Err(error) => Launch::Abort { error, spawned: false },
            },
            Launch::Endpoint => match outcome {
                Ok(_) => Launch::Connect,
                Err(error) => Launch::Abort { error, spawned: true },
            },
            Launch::Connect => match outcome {
                Ok(_) => Launch::Ready,
                Err(error) => Launch::Abort { error, spawned: true },
            },
            Launch::Abort { error, spawned } => Launch::Failed { error },
            over => over,
        }
    }

    /// The stage reached from this one with the outcomes given, one after
    /// the other.
    pub open spec fn run(self, outcomes: Seq<Result<(), Error>>) -> Launch
        decreases outcomes.len(),
    {
        if outcomes.len() == 0 {
            self
        } else {
            self.run(outcomes.drop_last()).next(outcomes.last())
        }
    }

    /// A launch at its beginning.
    pub fn new() -> (launch: Launch)
        ensures
            launch == Launch::Profile,
    {
        Launch::Profile
    }

    /// Tells what is to be done now.
    pub fn action(&self) -> (action: LaunchAction)
        ensures
            action == self.due(),
    {
        match self {
            Launch::Profile => LaunchAction::CreateProfile,
            Launch::Executable => LaunchAction::FindExecutable,
            Launch::Port => LaunchAction::ChoosePort,
            Launch::Spawn => LaunchAction::SpawnProcess,
            Launch::Endpoint => LaunchAction::ReadEndpoint,
            Launch::Connect => LaunchAction::Connect,
            Launch::Abort { error: _, spawned } => if *spawned {
                LaunchAction::TearDown
            } else {
                LaunchAction::RemoveProfile
            },
            Launch::Ready => LaunchAction::Finished,
            Launch::Failed { error } => LaunchAction::GiveUp { error: *error },
        }
    }

    /// Takes the outcome of what was due.
    pub fn advance(&mut self, outcome: Result<(), Error>)
        ensures
            *final(self) == old(self).next(outcome),
    {
        let next = match *self {
            Launch::Profile => match outcome {
                Ok(_) => Launch::Executable,
                Err(error) => Launch::Failed { error },
            },
            Launch::Executable => match outcome {
                Ok(_) => Launch::Port,
                Err(error) => Launch::Abort { error, spawned: false },
            },
            Launch::Port => match outcome {
                Ok(_) => Launch::Spawn,
                Err(error) => Launch::Abort { error, spawned: false },
            },
            Launch::Spawn => match outcome {
                Ok(_) => Launch::Endpoint,
                Err(error) => Launch::Abort { error, spawned: false },
            },
            Launch::Endpoint => match outcome {
                Ok(_) => Launch::Connect,
                Err(error) => Launch::Abort { error, spawned: true },
            },
            Launch::Connect => match outcome {
                Ok(_) => Launch::Ready,
                Err(error) => Launch::Abort { error, spawned: true },
            },
            Launch::Abort { error, spawned: _ } => Launch::Failed { error },
            over => over,
        };
        *self = next;
    }
}

/// Whether the process of a launch has been started and not torn down.
pub open spec fn process_up(stage: Launch) -> bool {
    match stage {
        Launch::Endpoint => true,
        Launch::Connect => true,
        Launch::Ready => true,
        Launch::Abort { error, spawned } => spawned,
        _ => false,
    }
}

/// Whether the profile directory of a launch exists and has not been
/// removed.
pub open spec fn profile_kept(stage: Launch) -> bool {
    match stage {
        Launch::Profile => false,
        Launch::Failed { error } => false,
        _ => true,
    }
}

/// A failed launch leaves nothing behind: it is reported as failed only
/// after what it had set up has been undone. A process that was started is
/// torn down, and a profile directory that was created is removed, before
/// the failure is final.
pub proof fn lemma_failed_launch_leaves_nothing(outcomes: Seq<Result<(), Error>>)
    requires
        outcomes.len() > 0,
        Launch::Profile.run(outcomes) is Failed,
        !(Launch::Profile.run(outcomes.drop_last()) is Failed),
    ensures
        ({
            let before = Launch::Profile.run(outcomes.drop_last());
            &&& !process_up(Launch::Profile.run(outcomes))
            &&& !profile_kept(Launch::Profile.run(outcomes))
            &&& process_up(before) ==> before.due() == LaunchAction::TearDown
            &&& profile_kept(before) && !process_up(before) ==> before.due()
                == LaunchAction::RemoveProfile
        }),
{
}

/// A launch is over after eight steps at most.
pub proof fn lemma_launch_ends(outcomes: Seq<Result<(), Error>>)
    requires
        outcomes.len() >= 8,
    ensures
        Launch::Profile.run(outcomes) is Ready || Launch::Profile.run(outcomes) is Failed,
{
    lemma_launch_progress(outcomes);
}

/// How far a launch has come, as a number that never falls.
pub open spec fn launch_progress(stage: Launch) -> int {
    match stage {
        Launch::Profile => 0,
        Launch::Executable => 1,
        Launch::Port => 2,
        Launch::Spawn => 3,
        Launch::Endpoint => 4,
        Launch::Connect => 5,
        Launch::Abort { error, spawned } => 6,
        Launch::Ready => 7,
        Launch::Failed { error } => 7,
    }
}

proof fn lemma_launch_progress(outcomes: Seq<Result<(), Error>>)
    ensures
        launch_progress(Launch::Profile.run(outcomes)) >= outcomes.len() || launch_progress(
            Launch::Profile.run(outcomes),
        ) == 7,
    decreases outcomes.len(),
{
    if outcomes.len() > 0 {
        lemma_launch_progress(outcomes.drop_last());
    }
}

} // verus!
