//! Installing and starting the runner as a service of the operating system.
//!
//! The vendor's service script says in free text how the service stands.
//! `service_state` reads that text, `service_plan` says which subcommands of
//! the script follow from it, and the stages below carry the plan out, one
//! subprocess at a time.

use crate::command::{CaptureOutcome, Command, CommandView, Priority, RunOutcome};
use crate::error::{Error, Step};
use crate::path::{child, child_path};
use crate::text::{contains, decode, is_infix, text_of};
use vstd::prelude::*;

verus! {

/// How the service stands, as far as this crate tells states apart.
#[derive(Clone, Copy, Debug, PartialEq, Eq, Structural)]
pub enum ServiceState {
    /// The service is not installed: it has to be installed, then started.
    NeedsInstall,
    /// The service is installed and stopped: it has to be started.
    NeedsStart,
    /// Nothing is to be done.
    Running,
}

/// The status text says that the service is not installed.
pub open spec fn wants_install(status: Seq<char>) -> bool {
    is_infix("not installed"@, status)
}

/// The status text says that the service is not running.
pub open spec fn wants_start(status: Seq<char>) -> bool {
    wants_install(status) || is_infix("Stopped"@, status)
}

/// The state that the status text stands for.
pub open spec fn service_state(status: Seq<char>) -> ServiceState {
    if wants_install(status) {
        ServiceState::NeedsInstall
    } else if wants_start(status) {
        ServiceState::NeedsStart
    } else {
        ServiceState::Running
    }
}

/// The subcommands of the service script that a state calls for, in order.
pub open spec fn service_plan(state: ServiceState) -> Seq<Seq<char>> {
    match state {
        ServiceState::NeedsInstall => seq!["install"@, "start"@],
        ServiceState::NeedsStart => seq!["start"@],
        ServiceState::Running => seq![],
    }
}

/// The service script under `within_path`, run there with one subcommand.
pub open spec fn service_command_view(
    within_path: Seq<char>,
    subcommand: Seq<char>,
    priority: Priority,
) -> CommandView {
    CommandView {
        program: child_path(within_path, "svc.sh"@),
        args: seq![subcommand],
        working_dir: Some(within_path),
        priority,
    }
}

/// The service script under `within_path`, to be run there with one
/// subcommand.
fn service_command(within_path: &str, subcommand: &str, priority: Priority) -> (command: Command)
    ensures
        command@ == service_command_view(within_path@, subcommand@, priority),
{
    let mut args: Vec<String> = Vec::new();
    args.push(subcommand.to_owned());
    let command = Command {
        program: child(within_path, "svc.sh"),
        args,
        working_dir: Some(within_path.to_owned()),
        priority,
    };
    assert(command.args.deep_view() =~= seq![subcommand@]);
    command
}

/// The command that asks the service script for the state of the service.
/// Its output is to be collected.
pub fn collect_status(within_path: &str) -> (command: Command)
    ensures
        command@ == service_command_view(within_path@, "status"@, Priority::UserWaiting),
{
    service_command(within_path, "status", Priority::UserWaiting)
}

/// Determines whether the service has to be installed, from the status text.
pub fn needs_install(status: &str) -> (needed: bool)
    ensures
        needed == wants_install(status@),
{
    contains(status, "not installed")
}

/// Determines whether the service has to be started, from the status text.
pub fn needs_start(status: &str) -> (needed: bool)
    ensures
        needed == wants_start(status@),
{
    needs_install(status) || contains(status, "Stopped")
}

/// Reads the state of the service out of the status text.
pub fn classify(status: &str) -> (state: ServiceState)
    ensures
        state == service_state(status@),
{
    if needs_install(status) {
        ServiceState::NeedsInstall
    } else if needs_start(status) {
        ServiceState::NeedsStart
    } else {
        ServiceState::Running
    }
}

/// The service script is being asked for the state of the service.
#[derive(Debug)]
pub struct StatusCheck {
    within_path: String,
    priority: Priority,
}

/// The service script is installing or starting the service.
#[derive(Debug)]
pub struct ServiceChange {
    within_path: String,
    priority: Priority,
    start_follows: bool,
}

/// Starts making sure that the runner under `within_path` is installed as a
/// service and running.
///
/// The caller runs `command`, collects its output and hands it to
/// `StatusCheck::captured`.
pub fn install_start_as_needed(within_path: &str, priority: Priority) -> (started: (
    StatusCheck,
    Command,
))
    ensures
        started.0.within_path() == within_path@,
        started.0.priority() == priority,
        started.1@ == service_command_view(within_path@, "status"@, Priority::UserWaiting),
{
    let stage = StatusCheck { within_path: within_path.to_owned(), priority };
    (stage, collect_status(within_path))
}

/// What is to be done about the service, given how asking for its state
/// went: the subcommands to run, or the reason why nothing can be said.
pub open spec fn plan_after(outcome: CaptureOutcome) -> Result<Seq<Seq<char>>, Error> {
    match outcome {
        CaptureOutcome::Failed => Err(Error::ServiceOutputError),
        CaptureOutcome::Exited { stdout, .. } => match text_of(stdout@) {
            Some(status) => Ok(service_plan(service_state(status))),
            None => Err(Error::ServiceOutputError),
        },
    }
}

impl StatusCheck {
    /// The directory that the runner is installed in.
    pub closed spec fn within_path(&self) -> Seq<char> {
        self.within_path@
    }

    /// How urgently the subprocesses that change the service are wanted.
    pub closed spec fn priority(&self) -> Priority {
        self.priority
    }

    /// Takes what the service script said of the state of the service.
    ///
    /// Where the plan holds a subcommand, the caller runs `command`, which
    /// is the first of them, and hands how it went to `ServiceChange::ran`.
    /// Where it holds none, the work is over and no subprocess is run.
    /// A script that could not be run, or whose output is no text, ends the
    /// work with an error.
    pub fn captured(self, outcome: CaptureOutcome) -> (step: Step<(ServiceChange, Command)>)
        ensures
            match step {
                Step::Next((stage, command)) => {
                    &&& plan_after(outcome) matches Ok(plan)
                    &&& plan.len() > 0
                    &&& command@ == service_command_view(
                        self.within_path(),
                        plan[0],
                        self.priority(),
                    )
                    &&& stage.remaining() == plan.drop_first()
                    &&& stage.within_path() == self.within_path()
                    &&& stage.priority() == self.priority()
                },
                Step::Done(result) => match plan_after(outcome) {
                    Ok(plan) => plan.len() == 0 && result == Ok::<(), Error>(()),
                    Err(error) => result == Err::<(), Error>(error),
                },
            },
    {
        let stdout = match outcome {
            CaptureOutcome::Failed => return Step::Done(Err(Error::ServiceOutputError)),
            CaptureOutcome::Exited { stdout, .. } => stdout,
        };
        let state = match decode(stdout.as_slice()) {
            Some(status) => classify(status),
            None => return Step::Done(Err(Error::ServiceOutputError)),
        };
        match state {
            ServiceState::NeedsInstall => {
                let command = service_command(self.within_path.as_str(), "install", self.priority);
                let stage = ServiceChange {
                    within_path: self.within_path,
                    priority: self.priority,
                    start_follows: true,
                };
                Step::Next((stage, command))
            },
            ServiceState::NeedsStart => {
                let command = service_command(self.within_path.as_str(), "start", self.priority);
                let stage = ServiceChange {
                    within_path: self.within_path,
                    priority: self.priority,
                    start_follows: false,
                };
                Step::Next((stage, command))
            },
            ServiceState::Running => Step::Done(Ok(())),
        }
    }
}

impl ServiceChange {
    /// The directory that the runner is installed in.
    pub closed spec fn within_path(&self) -> Seq<char> {
        self.within_path@
    }

    /// How urgently the subprocesses that change the service are wanted.
    pub closed spec fn priority(&self) -> Priority {
        self.priority
    }

    /// The subcommands that are still to be run after the one that is
    /// running.
    pub closed spec fn remaining(&self) -> Seq<Seq<char>> {
        if self.start_follows {
            seq!["start"@]
        } else {
            seq![]
        }
    }

    /// Takes how the subcommand that was running went.
    ///
    /// A script that could not be run ends the work with an error. Otherwise
    /// the caller runs `command`, the next subcommand of the plan, and hands
    /// how it went to `ServiceChange::ran` again; where none is left, the
    /// work is over.
    pub fn ran(self, outcome: RunOutcome) -> (step: Step<(ServiceChange, Command)>)
        ensures
            match step {
                Step::Next((stage, command)) => {
                    &&& outcome != RunOutcome::Failed
                    &&& self.remaining().len() > 0
                    &&& command@ == service_command_view(
                        self.within_path(),
                        self.remaining()[0],
                        self.priority(),
                    )
                    &&& stage.remaining() == self.remaining().drop_first()
                    &&& stage.within_path() == self.within_path()
                    &&& stage.priority() == self.priority()
                },
                Step::Done(result) => if outcome == RunOutcome::Failed {
                    result == Err::<(), Error>(Error::ServiceStatusError)
                } else {
                    self.remaining().len() == 0 && result == Ok::<(), Error>(())
                },
            },
    {
        match outcome {
            RunOutcome::Failed => Step::Done(Err(Error::ServiceStatusError)),
            RunOutcome::Exited { .. } => {
                if self.start_follows {
                    let command = service_command(self.within_path.as_str(), "start", self.priority);
                    let stage = ServiceChange {
                        within_path: self.within_path,
                        priority: self.priority,
                        start_follows: false,
                    };
                    Step::Next((stage, command))
                } else {
                    Step::Done(Ok(()))
                }
            },
        }
    }
}

/// Which subprocesses follow from the status text: a service that is not
/// installed is installed and then started; one that is stopped, and not
/// reported as not installed, is started; for any other text no subprocess
/// is run.
pub proof fn lemma_service_plan_by_status(status: Seq<char>)
    ensures
        is_infix("not installed"@, status) ==> service_plan(service_state(status)) == seq![
            "install"@,
            "start"@,
        ],
        !is_infix("not installed"@, status) && is_infix("Stopped"@, status) ==> service_plan(
            service_state(status),
        ) == seq!["start"@],
        !is_infix("not installed"@, status) && !is_infix("Stopped"@, status) ==> service_plan(
            service_state(status),
        ) == Seq::<Seq<char>>::empty(),
{
}

} // verus!
