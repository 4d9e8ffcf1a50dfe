//! Registration with the forge, as the vendor's configuration script does it.

use crate::command::{Command, CommandView, Priority, RunOutcome};
use crate::error::Error;
use crate::org_or_repo::OrgOrRepo;
use crate::path::{child, child_path};
use crate::token::Token;
use vstd::prelude::*;

verus! {

/// The file whose presence says that the runner under `within_path` is
/// registered: `.runner`, directly under it.
pub open spec fn marker_path(within_path: Seq<char>) -> Seq<char> {
    child_path(within_path, ".runner"@)
}

/// `probe` was asked about the path `path`, and `answer` is what it said.
pub open spec fn probe_said<P: Fn(&str) -> bool>(probe: P, path: Seq<char>, answer: bool) -> bool {
    exists|asked: &str| asked@ == path && #[trigger] call_ensures(probe, (asked,), answer)
}

/// Determines if the runner is already registered or not.
///
/// `probe` says of a path whether a file is there. It is asked about the
/// marker file under `within_path`, and what it says is the result: nothing
/// is remembered from one call to the next.
pub fn is_runner_registered<P: Fn(&str) -> bool>(within_path: &str, probe: P) -> (registered: bool)
    requires
        forall|asked: &str| asked@ == marker_path(within_path@) ==> call_requires(probe, (asked,)),
    ensures
        probe_said(probe, marker_path(within_path@), registered),
{
    let marker = child(within_path, ".runner");
    probe(marker.as_str())
}

/// The command that registers the runner under `install_path`: the
/// vendor's configuration script, told not to ask, with the address of the
/// target and the registration token.
pub open spec fn configure_command_view(
    install_path: Seq<char>,
    url: Seq<char>,
    token: Seq<char>,
    priority: Priority,
) -> CommandView {
    CommandView {
        program: child_path(install_path, "config.sh"@),
        args: seq!["--unattended"@, "--url"@, url, "--token"@, token],
        working_dir: None,
        priority,
    }
}

/// The command that runs `config.sh` for `target` with `token`.
///
/// The caller runs it, waits for its exit and hands how it went to
/// `configured`.
pub fn configure_runner<O: OrgOrRepo>(
    install_path: &str,
    token: &Token,
    target: &O,
    priority: Priority,
) -> (command: Command)
    ensures
        command@ == configure_command_view(
            install_path@,
            target.web_fragment(),
            token@,
            priority,
        ),
{
    let url = target.runner_fragment();
    let ghost url_view = url@;
    let mut args: Vec<String> = Vec::new();
    args.push("--unattended".to_owned());
    args.push("--url".to_owned());
    args.push(url);
    args.push("--token".to_owned());
    args.push(token.as_str().to_owned());
    let command = Command {
        program: child(install_path, "config.sh"),
        args,
        working_dir: None,
        priority,
    };
    assert(command.args.deep_view() =~= seq![
        "--unattended"@,
        "--url"@,
        url_view,
        "--token"@,
        token@,
    ]);
    command
}

/// Whether the configuration script did its work: it ran and exited with
/// status zero.
pub fn configured(outcome: RunOutcome) -> (result: Result<(), Error>)
    ensures
        result == (if outcome == (RunOutcome::Exited { success: true }) {
            Ok::<(), Error>(())
        } else {
            Err::<(), Error>(Error::ConfigureRunnerError)
        }),
{
    match outcome {
        RunOutcome::Exited { success: true } => Ok(()),
        _ => Err(Error::ConfigureRunnerError),
    }
}

} // verus!
