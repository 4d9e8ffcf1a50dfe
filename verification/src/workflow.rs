//! The whole of the work: install, register, configure, start.
//!
//! Installation happens on every run, and does nothing where the runner is
//! up to date. Registration happens once: a runner whose install directory
//! holds the marker file is registered, and is neither registered nor
//! configured again. Where registration is due it does not wait for the
//! installation; the two are handed out together and joined by the caller.
//!
//! ```text
//! ensure_actions_runner -+- registered ------> InstallationWait ------------+-> service
//!                        +- not registered --> JoinWait -> ConfigurationWait +
//! ```
//!
//! Whatever fails ends the work with its error. Nothing is undone: what a
//! run has left on disk, the next run finds.

use crate::authentication::Authentication;
use crate::command::{Command, Priority, RunOutcome};
use crate::configure_runner::{
    configure_command_view, configure_runner, configured, is_runner_registered, marker_path,
    probe_said,
};
use crate::error::{Error, Step};
use crate::find_release::release_list_request;
use crate::http::{HttpOutcome, HttpRequest};
use crate::install_runner::{install_runner_if_needed, ReleaseLookup};
use crate::org_or_repo::OrgOrRepo;
use crate::registration::{register_runner, registration_request, registration_token, token_in};
use crate::service::{install_start_as_needed, service_command_view, StatusCheck};
use vstd::prelude::*;

verus! {

/// How the work begins.
pub enum Opening<O: OrgOrRepo> {
    /// The runner is registered. The caller carries out `installation` and
    /// hands its result to `InstallationWait::installed`.
    InstallOnly { installation: (ReleaseLookup, HttpRequest), wait: InstallationWait },
    /// The runner is not registered. The caller sends `registration` and
    /// carries out `installation`, both at once, waits for both, and hands
    /// the answer to the one and the result of the other to
    /// `JoinWait::joined`.
    RegisterAndInstall {
        registration: HttpRequest,
        installation: (ReleaseLookup, HttpRequest),
        join: JoinWait<O>,
    },
}

/// The installation is under way, and nothing else.
#[derive(Debug)]
pub struct InstallationWait {
    within_path: String,
    priority: Priority,
}

/// The registration request and the installation are under way.
pub struct JoinWait<O: OrgOrRepo> {
    within_path: String,
    target: O,
    priority: Priority,
}

/// The configuration script is running.
#[derive(Debug)]
pub struct ConfigurationWait {
    within_path: String,
    priority: Priority,
}

/// `opening` is how the work for the target `o` begins, where `probe` is
/// what says whether a file is there.
///
/// The install directory is that of `o` below `home`. The runner counts as
/// registered if and only if `probe` found the marker file in it. For a
/// registered runner only the installation is handed out; for any other the
/// registration request is handed out with it.
pub open spec fn is_opening<O: OrgOrRepo, A: Authentication, P: Fn(&str) -> bool>(
    opening: Opening<O>,
    o: O,
    a: A,
    priority: Priority,
    home: Seq<char>,
    probe: P,
) -> bool {
    match opening {
        Opening::InstallOnly { installation, wait } => {
            &&& probe_said(probe, marker_path(o.install_root(home)), true)
            &&& installation.0.within_path() == o.install_root(home)
            &&& installation.0.priority() == priority
            &&& installation.1@ == release_list_request()
            &&& wait.within_path() == o.install_root(home)
            &&& wait.priority() == priority
        },
        Opening::RegisterAndInstall { registration, installation, join } => {
            &&& probe_said(probe, marker_path(o.install_root(home)), false)
            &&& registration@ == registration_request(o.api_fragment(), a.header_value())
            &&& installation.0.within_path() == o.install_root(home)
            &&& installation.0.priority() == priority
            &&& installation.1@ == release_list_request()
            &&& join.within_path() == o.install_root(home)
            &&& join.target() == o
            &&& join.priority() == priority
        },
    }
}

/// Starts bringing the runner for the target `o` to the state where it is
/// installed, registered, configured and running as a service.
///
/// `home` is the home directory, below which the runner is installed, and
/// `probe` says of a path whether a file is there. The runner counts as
/// registered if and only if `probe` finds the marker file in the install
/// directory. For a registered runner no registration request is made.
pub fn ensure_actions_runner<O: OrgOrRepo, A: Authentication, P: Fn(&str) -> bool>(
    o: O,
    a: A,
    priority: Priority,
    home: &str,
    probe: P,
) -> (opening: Opening<O>)
    requires
        forall|asked: &str|
            asked@ == marker_path(o.install_root(home@)) ==> call_requires(probe, (asked,)),
    ensures
        is_opening(opening, o, a, priority, home@, probe),
{
    let within_path = o.install_path(home);
    let installation = install_runner_if_needed(within_path.as_str(), priority);
    if is_runner_registered(within_path.as_str(), probe) {
        Opening::InstallOnly { installation, wait: InstallationWait { within_path, priority } }
    } else {
        let registration = register_runner(&o, a);
        Opening::RegisterAndInstall {
            registration,
            installation,
            join: JoinWait { within_path, target: o, priority },
        }
    }
}

/// A runner that is registered is not registered again: where the marker
/// file is there whenever it is looked for, the work begins with the
/// installation alone, and what is handed out holds no registration
/// request.
pub proof fn lemma_registered_runner_is_not_registered_again<
    O: OrgOrRepo,
    A: Authentication,
    P: Fn(&str) -> bool,
>(opening: Opening<O>, o: O, a: A, priority: Priority, home: Seq<char>, probe: P)
    requires
        is_opening(opening, o, a, priority, home, probe),
        forall|asked: &str, found: bool|
            asked@ == marker_path(o.install_root(home)) && call_ensures(probe, (asked,), found)
                ==> found,
    ensures
        opening is InstallOnly,
{
}

/// A runner that is not registered is registered first: where the marker
/// file is missing whenever it is looked for, the work begins with the
/// registration request beside the installation.
pub proof fn lemma_unregistered_runner_is_registered<
    O: OrgOrRepo,
    A: Authentication,
    P: Fn(&str) -> bool,
>(opening: Opening<O>, o: O, a: A, priority: Priority, home: Seq<char>, probe: P)
    requires
        is_opening(opening, o, a, priority, home, probe),
        forall|asked: &str, found: bool|
            asked@ == marker_path(o.install_root(home)) && call_ensures(probe, (asked,), found)
                ==> !found,
    ensures
        opening is RegisterAndInstall,
{
}

/// The token that registration and installation give together: the token
/// of the registration, if both succeeded. If one failed the error is its
/// own, and if both failed it is that of the registration.
pub open spec fn joined_token(
    registration: HttpOutcome,
    installation: Result<(), Error>,
) -> Result<Seq<char>, Error> {
    match token_in(registration) {
        Ok(token) => match installation {
            Ok(()) => Ok(token),
            Err(error) => Err(error),
        },
        Err(error) => Err(error),
    }
}

impl InstallationWait {
    /// The directory that the runner is installed in.
    pub closed spec fn within_path(&self) -> Seq<char> {
        self.within_path@
    }

    /// How urgently the subprocesses are wanted.
    pub closed spec fn priority(&self) -> Priority {
        self.priority
    }

    /// Takes the result of the installation.
    ///
    /// An installation that failed ends the work with its error. After one
    /// that succeeded the service is seen to: the caller runs `command`,
    /// collects its output and hands it to `StatusCheck::captured`; what the
    /// stages of the service end with is the result of the whole work.
    pub fn installed(self, installation: Result<(), Error>) -> (step: Step<(StatusCheck, Command)>)
        ensures
            match step {
                Step::Next((stage, command)) => {
                    &&& installation is Ok
                    &&& stage.within_path() == self.within_path()
                    &&& stage.priority() == self.priority()
                    &&& command@ == service_command_view(
                        self.within_path(),
                        "status"@,
                        Priority::UserWaiting,
                    )
                },
                Step::Done(result) => installation is Err && result == installation,
            },
    {
        match installation {
            Ok(()) => Step::Next(install_start_as_needed(self.within_path.as_str(), self.priority)),
            Err(error) => Step::Done(Err(error)),
        }
    }
}

impl<O: OrgOrRepo> JoinWait<O> {
    /// The directory that the runner is installed in.
    pub closed spec fn within_path(&self) -> Seq<char> {
        self.within_path@
    }

    /// What the runner is registered against.
    pub closed spec fn target(&self) -> O {
        self.target
    }

    /// How urgently the subprocesses are wanted.
    pub closed spec fn priority(&self) -> Priority {
        self.priority
    }

    /// Takes what registration and installation came to, once both are
    /// over: the answer to the registration request and the result of the
    /// installation.
    ///
    /// Where either failed the work ends with its error, with that of the
    /// registration where both did. Otherwise the caller runs `command`,
    /// which configures the runner with the token that the registration
    /// gave, and hands how it went to `ConfigurationWait::ran`.
    pub fn joined(self, registration: HttpOutcome, installation: Result<(), Error>) -> (step: Step<
        (ConfigurationWait, Command),
    >)
        ensures
            match step {
                Step::Next((stage, command)) => {
                    &&& joined_token(registration, installation) matches Ok(token)
                    &&& command@ == configure_command_view(
                        self.within_path(),
                        self.target().web_fragment(),
                        token,
                        self.priority(),
                    )
                    &&& stage.within_path() == self.within_path()
                    &&& stage.priority() == self.priority()
                },
                Step::Done(result) => {
                    &&& result matches Err(error)
                    &&& joined_token(registration, installation) == Err::<Seq<char>, Error>(error)
                },
            },
    {
        let token = match registration_token(registration) {
            Ok(token) => token,
            Err(error) => return Step::Done(Err(error)),
        };
        match installation {
            Ok(()) => {
                let command = configure_runner(
                    self.within_path.as_str(),
                    &token,
                    &self.target,
                    self.priority,
                );
                let stage = ConfigurationWait {
                    within_path: self.within_path,
                    priority: self.priority,
                };
                Step::Next((stage, command))
            },
            Err(error) => Step::Done(Err(error)),
        }
    }
}

impl ConfigurationWait {
    /// The directory that the runner is installed in.
    pub closed spec fn within_path(&self) -> Seq<char> {
        self.within_path@
    }

    /// How urgently the subprocesses are wanted.
    pub closed spec fn priority(&self) -> Priority {
        self.priority
    }

    /// Takes how the configuration script went.
    ///
    /// Unless it ran and exited with status zero, the work ends with an
    /// error. Otherwise the service is seen to: the caller runs `command`,
    /// collects its output and hands it to `StatusCheck::captured`; what the
    /// stages of the service end with is the result of the whole work.
    pub fn ran(self, outcome: RunOutcome) -> (step: Step<(StatusCheck, Command)>)
        ensures
            match step {
                Step::Next((stage, command)) => {
                    &&& outcome == (RunOutcome::Exited { success: true })
                    &&& stage.within_path() == self.within_path()
                    &&& stage.priority() == self.priority()
                    &&& command@ == service_command_view(
                        self.within_path(),
                        "status"@,
                        Priority::UserWaiting,
                    )
                },
                Step::Done(result) => {
                    &&& outcome != (RunOutcome::Exited { success: true })
                    &&& result == Err::<(), Error>(Error::ConfigureRunnerError)
                },
            },
    {
        match configured(outcome) {
            Ok(()) => Step::Next(install_start_as_needed(self.within_path.as_str(), self.priority)),
            Err(error) => Step::Done(Err(error)),
        }
    }
}

} // verus!
