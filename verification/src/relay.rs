//! The relay: the single consumer of the orchestrator's forwarded output.
//! Each report is mapped to a log channel; a `ScriptError`-severity report
//! additionally sets the failure flag that decides the final exit status.

use vstd::prelude::*;

use crate::messages::{OutputLevel, RobloxMessage};

verus! {

/// The observable action a report's severity maps to.
#[derive(Debug, Clone, Copy, PartialEq, Eq, Structural)]
pub enum LogChannel {
    Info,
    Warn,
    Error,
}

/// The log channel for each severity.
pub open spec fn spec_channel(level: OutputLevel) -> LogChannel {
    match level {
        OutputLevel::Print => LogChannel::Info,
        OutputLevel::Info => LogChannel::Info,
        OutputLevel::Warning => LogChannel::Warn,
        OutputLevel::Error => LogChannel::Error,
        OutputLevel::ScriptError => LogChannel::Error,
    }
}

/// The severity a report carries.
pub open spec fn spec_level(msg: RobloxMessage) -> OutputLevel {
    match msg {
        RobloxMessage::Output { level, .. } => level,
    }
}

/// The relay's state: whether a `ScriptError` has been observed.
pub struct Relay {
    pub failed: bool,
}

impl Relay {
    /// A fresh relay: no script error observed yet.
    pub fn new() -> (r: Relay)
        ensures
            !r.failed,
    {
        Relay { failed: false }
    }

    /// Processes one forwarded report: returns the log channel its severity
    /// maps to, and latches the failure flag on a `ScriptError`. The flag
    /// never resets.
    pub fn process(&mut self, msg: &RobloxMessage) -> (channel: LogChannel)
        ensures
            channel == spec_channel(spec_level(*msg)),
            final(self).failed == (old(self).failed || spec_level(*msg)
                == OutputLevel::ScriptError),
    {
        match msg {
            RobloxMessage::Output { level, .. } => {
                if *level == OutputLevel::ScriptError {
                    self.failed = true;
                }
                match *level {
                    OutputLevel::Print => LogChannel::Info,
                    OutputLevel::Info => LogChannel::Info,
                    OutputLevel::Warning => LogChannel::Warn,
                    OutputLevel::Error => LogChannel::Error,
                    OutputLevel::ScriptError => LogChannel::Error,
                }
            },
        }
    }

    /// The exit status the run ends with when it completes normally: 1 iff
    /// a `ScriptError` was observed.
    pub fn exit_code(&self) -> (r: i32)
        ensures
            r == if self.failed {
                1int
            } else {
                0int
            },
    {
        if self.failed {
            1
        } else {
            0
        }
    }
}

/// How the whole run ended, as observed by the top level.
pub enum RunEnding {
    /// The orchestrator completed normally; `failed` is the relay's flag.
    Completed { failed: bool },
    /// The orchestrator exited with an error after startup.
    RunnerError,
    /// The relay exited before the orchestrator: a background task ended
    /// unexpectedly and everything was shut down in response.
    RelayExited,
    /// An external interrupt requested shutdown; `failed` is the relay's
    /// flag at that point.
    Interrupted { failed: bool },
    /// A collaborator failed before the orchestrator loop started (no host
    /// installation, unwritable plugin directory, unreadable script, spawn
    /// failure).
    StartupError,
}

/// The process exit code for each ending: 0 for a clean run with no script
/// error, 1 when a script error was reported or a background task exited
/// unexpectedly, 2 for an unrecoverable startup failure.
pub fn final_exit_code(ending: &RunEnding) -> (r: i32)
    ensures
        r == match *ending {
            RunEnding::Completed { failed } => if failed {
                1int
            } else {
                0int
            },
            RunEnding::RunnerError => 1int,
            RunEnding::RelayExited => 1int,
            RunEnding::Interrupted { failed } => if failed {
                1int
            } else {
                0int
            },
            RunEnding::StartupError => 2int,
        },
{
    match *ending {
        RunEnding::Completed { failed } => if failed {
            1
        } else {
            0
        },
        RunEnding::RunnerError => 1,
        RunEnding::RelayExited => 1,
        RunEnding::Interrupted { failed } => if failed {
            1
        } else {
            0
        },
        RunEnding::StartupError => 2,
    }
}

} // verus!
