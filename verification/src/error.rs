//! What can go wrong, one variant for each place where it can.

use vstd::prelude::*;

verus! {

/// Why bringing the runner up failed.
#[derive(Clone, Copy, Debug, PartialEq, Eq, Structural)]
pub enum Error {
    /// A request could not be built from its address.
    InputError,
    /// The registration request did not get through.
    RegistrationError,
    /// The registration endpoint answered with a status outside 200..=299.
    RegistrationStatusError { code: u16 },
    /// The registration answer holds no token.
    DecodingError,
    /// The release list, or the archive, did not get through.
    FetchingGithubRunner,
    /// The release list endpoint answered with a status outside 200..=299.
    FetchingGithubRunnerStatus { code: u16 },
    /// The release list is not a list of releases.
    FetchingGithubRunnerDecode,
    /// There is no release, or the newest one has no archive for this platform.
    FetchingGithubRunnerNoReleases,
    /// The newest release is not named by a version.
    FetchingGithubRunnerVersion,
    /// The install directory could not be created.
    MakeDirectoryError,
    /// The configuration script could not be run, or reported failure.
    ConfigureRunnerError,
    /// The service script could not be run to install or start the service.
    ServiceStatusError,
    /// The service script could not be asked for the state of the service.
    ServiceOutputError,
    /// The archive could not be handed to the extraction tool.
    Untar,
}

/// How a workflow goes on after a decision: with a next stage, or not at all.
#[derive(Debug)]
pub enum Step<N> {
    /// The workflow goes on with the stage that is held here.
    Next(N),
    /// The workflow is over, with this result.
    Done(Result<(), Error>),
}

} // verus!
