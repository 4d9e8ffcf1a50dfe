//! Subprocesses, described as plain values: what is to be run, and how it ended.
//!
//! Nothing here starts a process. A `Command` says what the caller is to run;
//! a `RunOutcome` or `CaptureOutcome` says how that went.

use vstd::prelude::*;

verus! {

/// How urgently a subprocess is wanted.
#[derive(Clone, Copy, Debug, PartialEq, Eq, Structural)]
pub enum Priority {
    /// Somebody is waiting for the result.
    UserWaiting,
    /// The call comes from a test.
    Testing,
}

/// A subprocess to be run.
#[derive(Clone, Debug, PartialEq, Eq)]
pub struct Command {
    /// The executable.
    pub program: String,
    /// Its arguments, in order.
    pub args: Vec<String>,
    /// The directory to run it in; `None` leaves it where the caller is.
    pub working_dir: Option<String>,
    /// How urgently it is wanted.
    pub priority: Priority,
}

/// A `Command` as mathematical values.
pub struct CommandView {
    pub program: Seq<char>,
    pub args: Seq<Seq<char>>,
    pub working_dir: Option<Seq<char>>,
    pub priority: Priority,
}

impl View for Command {
    type V = CommandView;

    open spec fn view(&self) -> CommandView {
        CommandView {
            program: self.program@,
            args: self.args.deep_view(),
            working_dir: self.working_dir.deep_view(),
            priority: self.priority,
        }
    }
}

/// How a subprocess ended when only its exit status was waited for.
#[derive(Clone, Copy, Debug, PartialEq, Eq, Structural)]
pub enum RunOutcome {
    /// It could not be run.
    Failed,
    /// It ran and exited, with status zero if `success` holds.
    Exited { success: bool },
}

/// How a subprocess ended when its standard output was collected.
#[derive(Clone, Debug, PartialEq, Eq)]
pub enum CaptureOutcome {
    /// It could not be run.
    Failed,
    /// It ran and exited, with status zero if `success` holds, and wrote `stdout`.
    Exited { success: bool, stdout: Vec<u8> },
}

/// How creating a directory, with its parents, ended.
#[derive(Clone, Copy, Debug, PartialEq, Eq, Structural)]
pub enum DirectoryOutcome {
    /// The directory is there now.
    Created,
    /// It was reported as existing already.
    AlreadyExists,
    /// It could not be created.
    Failed,
}

} // verus!
