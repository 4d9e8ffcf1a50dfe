//! Installing the runner, or bringing an installed one up to date.
//!
//! The work is a chain of stages. Each stage stands for one thing that the
//! caller is doing outside (a request, a subprocess, a directory), and its one
//! method takes how that went and decides what comes next: the next stage
//! with what the caller is to do for it, or the end of the work.
//!
//! ```text
//! install_runner_if_needed -> ReleaseLookup -> VersionCheck -> DirectoryCreation
//!                                                   |                 |
//!                                               up to date ArchiveDownload -> Extraction
//! ```

use crate::command::{CaptureOutcome, Command, CommandView, DirectoryOutcome, Priority, RunOutcome};
use crate::error::{Error, Step};
use crate::find_release::{
    archive_in, archive_request, download_release, downloaded_archive, find_release,
    find_release_request, found_in, release_list_request, FoundRelease, FoundReleaseView,
};
use crate::http::{DownloadOutcome, HttpOutcome, HttpRequest};
use crate::path::{child, child_path};
use crate::text::{decode, is_prefix, starts_with, text_of};
use vstd::prelude::*;

verus! {

/// The command that asks the installed runner for its version.
pub open spec fn version_command_view(within_path: Seq<char>) -> CommandView {
    CommandView {
        program: child_path(within_path, "config.sh"@),
        args: seq!["--version"@],
        working_dir: None,
        priority: Priority::UserWaiting,
    }
}

/// The command that unpacks the archive at `archive` into `within_path`.
pub open spec fn extraction_command_view(
    within_path: Seq<char>,
    archive: Seq<char>,
    priority: Priority,
) -> CommandView {
    CommandView {
        program: "tar"@,
        args: seq!["xzf"@, archive],
        working_dir: Some(within_path),
        priority,
    }
}

/// The installed runner reported a version that begins with `latest`.
///
/// A runner that could not be asked, that exited with another status than
/// zero, or whose answer is not text, has reported none.
pub open spec fn reports_version(outcome: CaptureOutcome, latest: Seq<char>) -> bool {
    match outcome {
        CaptureOutcome::Failed => false,
        CaptureOutcome::Exited { success, stdout } => {
            &&& success
            &&& text_of(stdout@) matches Some(reported)
            &&& is_prefix(latest, reported)
        },
    }
}

/// A runner is up to date exactly if it ran, exited with status zero and
/// printed the newest version followed by anything at all. So a runner that
/// prints `2.300.0` and some suffix is up to date for the newest version
/// `2.300.0`, whatever the suffix, and one that prints `2.299.0` is not.
pub proof fn lemma_up_to_date_by_prefix(outcome: CaptureOutcome, latest: Seq<char>)
    ensures
        reports_version(outcome, latest) <==> {
            &&& outcome matches CaptureOutcome::Exited { success, stdout }
            &&& success
            &&& exists|suffix: Seq<char>| text_of(stdout@) == Some(latest + suffix)
        },
{
    if let CaptureOutcome::Exited { success, stdout } = outcome {
        if success {
            if reports_version(outcome, latest) {
                let reported = text_of(stdout@)->0;
                let suffix = reported.subrange(latest.len() as int, reported.len() as int);
                assert(reported =~= latest + suffix);
            }
        }
    }
}

/// The command that asks the runner installed under `within_path` for its
/// version. Its output is to be collected.
pub fn version_command(within_path: &str) -> (command: Command)
    ensures
        command@ == version_command_view(within_path@),
{
    let mut args: Vec<String> = Vec::new();
    args.push("--version".to_owned());
    let command = Command {
        program: child(within_path, "config.sh"),
        args,
        working_dir: None,
        priority: Priority::UserWaiting,
    };
    assert(command.args.deep_view() =~= seq!["--version"@]);
    command
}

/// Determines whether the runner is up to date, from what `version_command`
/// gave and the newest version.
pub fn is_runner_uptodate(outcome: &CaptureOutcome, latest_version: &str) -> (current: bool)
    ensures
        current == reports_version(*outcome, latest_version@),
{
    match outcome {
        CaptureOutcome::Failed => false,
        CaptureOutcome::Exited { success, stdout } => {
            if !*success {
                return false;
            }
            match decode(stdout.as_slice()) {
                Some(reported) => starts_with(reported, latest_version),
                None => false,
            }
        },
    }
}

/// The newest release is being looked up.
#[derive(Debug)]
pub struct ReleaseLookup {
    within_path: String,
    priority: Priority,
}

/// The installed runner is being asked for its version.
#[derive(Debug)]
pub struct VersionCheck {
    within_path: String,
    priority: Priority,
    release: FoundRelease,
}

/// The install directory is being created.
#[derive(Debug)]
pub struct DirectoryCreation {
    within_path: String,
    priority: Priority,
    release: FoundRelease,
}

/// The archive is being downloaded.
#[derive(Debug)]
pub struct ArchiveDownload {
    within_path: String,
    priority: Priority,
}

/// The archive is being unpacked.
#[derive(Debug)]
pub struct Extraction {}

/// Starts installing the runner under `within_path`, if it is not installed
/// there already, or bringing it up to date.
///
/// The caller sends `request` and hands what came back to
/// `ReleaseLookup::fetched`.
pub fn install_runner_if_needed(within_path: &str, priority: Priority) -> (started: (
    ReleaseLookup,
    HttpRequest,
))
    ensures
        started.0.within_path() == within_path@,
        started.0.priority() == priority,
        started.1@ == release_list_request(),
{
    let stage = ReleaseLookup { within_path: within_path.to_owned(), priority };
    (stage, find_release_request())
}

impl ReleaseLookup {
    /// The directory that the runner is installed in.
    pub closed spec fn within_path(&self) -> Seq<char> {
        self.within_path@
    }

    /// How urgently the subprocesses are wanted.
    pub closed spec fn priority(&self) -> Priority {
        self.priority
    }

    /// Takes the answer to the request for the list of releases.
    ///
    /// Where `found_in` gives a release, the caller runs `command`, collects
    /// its output and hands it to `VersionCheck::captured`. Where it gives an
    /// error, the work is over with that error.
    pub fn fetched(self, outcome: HttpOutcome) -> (step: Step<(VersionCheck, Command)>)
        ensures
            match step {
                Step::Next((stage, command)) => {
                    &&& found_in(outcome) == Ok::<FoundReleaseView, Error>(stage.release())
                    &&& stage.within_path() == self.within_path()
                    &&& stage.priority() == self.priority()
                    &&& command@ == version_command_view(self.within_path())
                },
                Step::Done(result) => {
                    &&& result matches Err(error)
                    &&& found_in(outcome) == Err::<FoundReleaseView, Error>(error)
                },
            },
    {
        match find_release(outcome) {
            Ok(release) => {
                let command = version_command(self.within_path.as_str());
                let stage = VersionCheck {
                    within_path: self.within_path,
                    priority: self.priority,
                    release,
                };
                Step::Next((stage, command))
            },
            Err(error) => Step::Done(Err(error)),
        }
    }
}

impl VersionCheck {
    /// The directory that the runner is installed in.
    pub closed spec fn within_path(&self) -> Seq<char> {
        self.within_path@
    }

    /// How urgently the subprocesses are wanted.
    pub closed spec fn priority(&self) -> Priority {
        self.priority
    }

    /// The newest release.
    pub closed spec fn release(&self) -> FoundReleaseView {
        self.release@
    }

    /// Takes what the installed runner said of its version.
    ///
    /// A runner that reports a version beginning with the newest one is up to
    /// date: the work is over, and nothing is created, downloaded or
    /// unpacked. Otherwise the caller creates `directory`, with its parents,
    /// and hands how that went to `DirectoryCreation::created`.
    pub fn captured(self, outcome: CaptureOutcome) -> (step: Step<(DirectoryCreation, String)>)
        ensures
            match step {
                Step::Next((stage, directory)) => {
                    &&& !reports_version(outcome, self.release().version)
                    &&& stage.within_path() == self.within_path()
                    &&& stage.priority() == self.priority()
                    &&& stage.release() == self.release()
                    &&& directory@ == self.within_path()
                },
                Step::Done(result) => {
                    &&& reports_version(outcome, self.release().version)
                    &&& result == Ok::<(), Error>(())
                },
            },
    {
        if is_runner_uptodate(&outcome, self.release.cli_version()) {
            return Step::Done(Ok(()));
        }
        let directory = self.within_path.clone();
        let stage = DirectoryCreation {
            within_path: self.within_path,
            priority: self.priority,
            release: self.release,
        };
        Step::Next((stage, directory))
    }
}

impl DirectoryCreation {
    /// The directory that the runner is installed in.
    pub closed spec fn within_path(&self) -> Seq<char> {
        self.within_path@
    }

    /// How urgently the subprocesses are wanted.
    pub closed spec fn priority(&self) -> Priority {
        self.priority
    }

    /// The newest release.
    pub closed spec fn release(&self) -> FoundReleaseView {
        self.release@
    }

    /// Takes how creating the install directory went.
    ///
    /// A directory that was there already is as good as one that was
    /// created. The caller then sends `request`, saves the answer to a file
    /// and hands what came of it to `ArchiveDownload::downloaded`.
    pub fn created(self, outcome: DirectoryOutcome) -> (step: Step<(ArchiveDownload, HttpRequest)>)
        ensures
            match step {
                Step::Next((stage, request)) => {
                    &&& outcome != DirectoryOutcome::Failed
                    &&& stage.within_path() == self.within_path()
                    &&& stage.priority() == self.priority()
                    &&& request@ == archive_request(self.release().url)
                },
                Step::Done(result) => {
                    &&& outcome == DirectoryOutcome::Failed
                    &&& result == Err::<(), Error>(Error::MakeDirectoryError)
                },
            },
    {
        match outcome {
            DirectoryOutcome::Failed => Step::Done(Err(Error::MakeDirectoryError)),
            DirectoryOutcome::Created | DirectoryOutcome::AlreadyExists => {
                let request = download_release(&self.release);
                let stage = ArchiveDownload {
                    within_path: self.within_path,
                    priority: self.priority,
                };
                Step::Next((stage, request))
            },
        }
    }
}

impl ArchiveDownload {
    /// The directory that the runner is installed in.
    pub closed spec fn within_path(&self) -> Seq<char> {
        self.within_path@
    }

    /// How urgently the subprocesses are wanted.
    pub closed spec fn priority(&self) -> Priority {
        self.priority
    }

    /// Takes what came of downloading the archive.
    ///
    /// Where it was saved, the caller runs `command`, which unpacks it in the
    /// install directory, and hands how that went to `Extraction::ran`.
    pub fn downloaded(self, outcome: DownloadOutcome) -> (step: Step<(Extraction, Command)>)
        ensures
            match step {
                Step::Next((_, command)) => {
                    &&& archive_in(outcome) matches Ok(archive)
                    &&& command@ == extraction_command_view(
                        self.within_path(),
                        archive,
                        self.priority(),
                    )
                },
                Step::Done(result) => {
                    &&& result matches Err(error)
                    &&& archive_in(outcome) == Err::<Seq<char>, Error>(error)
                },
            },
    {
        match downloaded_archive(outcome) {
            Ok(archive) => {
                let ghost archive_view = archive@;
                let mut args: Vec<String> = Vec::new();
                args.push("xzf".to_owned());
                args.push(archive);
                let command = Command {
                    program: "tar".to_owned(),
                    args,
                    working_dir: Some(self.within_path),
                    priority: self.priority,
                };
                assert(command.args.deep_view() =~= seq!["xzf"@, archive_view]);
                Step::Next((Extraction {  }, command))
            },
            Err(error) => Step::Done(Err(error)),
        }
    }
}

impl Extraction {
    /// Takes how unpacking the archive went, and gives the result of the
    /// whole installation: it failed only if the tool could not be run.
    pub fn ran(self, outcome: RunOutcome) -> (result: Result<(), Error>)
        ensures
            result == (match outcome {
                RunOutcome::Failed => Err::<(), Error>(Error::Untar),
                RunOutcome::Exited { .. } => Ok::<(), Error>(()),
            }),
    {
        match outcome {
            RunOutcome::Failed => Err(Error::Untar),
            RunOutcome::Exited { .. } => Ok(()),
        }
    }
}

} // verus!
