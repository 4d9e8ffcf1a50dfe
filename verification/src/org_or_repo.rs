//! What a runner is registered against, and the names that follow from it.

use crate::path::child_path;
use vstd::prelude::*;

verus! {

/// Anything that a runner can be registered against.
pub trait OrgOrRepo: 'static {
    /// Where the forge's API speaks of the target.
    spec fn api_fragment(&self) -> Seq<char>;

    /// Where the forge shows the target to its users.
    spec fn web_fragment(&self) -> Seq<char>;

    /// Where the runner for the target is installed, below the home
    /// directory `home`.
    spec fn install_root(&self, home: Seq<char>) -> Seq<char>;

    /// The address of the target in the forge's API.
    fn fragment_specifier(&self) -> (fragment: String)
        ensures
            fragment@ == self.api_fragment(),
    ;

    /// The address of the target that the runner's configuration takes.
    fn runner_fragment(&self) -> (fragment: String)
        ensures
            fragment@ == self.web_fragment(),
    ;

    /// The directory that the runner for the target is installed in, for
    /// the home directory `home`. Runners for different targets need
    /// different directories.
    fn install_path(&self, home: &str) -> (path: String)
        ensures
            path@ == self.install_root(home@),
    ;
}

/// A repository, named by its organisation and its own name.
pub struct Repo {
    org: String,
    repo: String,
}

/// The name of the directory of the repository `repo` of `org`.
pub open spec fn directory_name(org: Seq<char>, repo: Seq<char>) -> Seq<char> {
    org + "_"@ + repo
}

/// The directory that the runner for the repository `repo` of `org` is
/// installed in, for the home directory `home`.
pub open spec fn repo_install_root(home: Seq<char>, org: Seq<char>, repo: Seq<char>) -> Seq<char> {
    child_path(child_path(home, "github-actions-runner"@), directory_name(org, repo))
}

impl Repo {
    /// The repository `repo` of the organisation `org`.
    pub fn new(org: String, repo: String) -> (target: Self)
        ensures
            target.org() == org@,
            target.repo() == repo@,
    {
        Self { org, repo }
    }

    /// The organisation.
    pub closed spec fn org(&self) -> Seq<char> {
        self.org@
    }

    /// The name of the repository within its organisation.
    pub closed spec fn repo(&self) -> Seq<char> {
        self.repo@
    }
}

impl OrgOrRepo for Repo {
    open spec fn api_fragment(&self) -> Seq<char> {
        "https://api.github.com/repos/"@ + self.org() + "/"@ + self.repo()
    }

    open spec fn web_fragment(&self) -> Seq<char> {
        "https://github.com/"@ + self.org() + "/"@ + self.repo()
    }

    open spec fn install_root(&self, home: Seq<char>) -> Seq<char> {
        repo_install_root(home, self.org(), self.repo())
    }

    fn fragment_specifier(&self) -> (fragment: String) {
        let mut fragment = "https://api.github.com/repos/".to_owned();
        fragment.append(self.org.as_str());
        fragment.append("/");
        fragment.append(self.repo.as_str());
        fragment
    }

    fn runner_fragment(&self) -> (fragment: String) {
        let mut fragment = "https://github.com/".to_owned();
        fragment.append(self.org.as_str());
        fragment.append("/");
        fragment.append(self.repo.as_str());
        fragment
    }

    fn install_path(&self, home: &str) -> (path: String) {
        let mut path = home.to_owned();
        path.append("/");
        path.append("github-actions-runner");
        path.append("/");
        path.append(self.org.as_str());
        path.append("_");
        path.append(self.repo.as_str());
        path
    }
}

/// The install directory of a repository is the home directory, the fixed
/// directory `github-actions-runner` below it, and below that a directory
/// named by the organisation, an underscore and the repository. It depends
/// on these three names and on nothing else: two targets with the same
/// names have the same directory.
pub proof fn lemma_install_path_is_determined(a: Repo, b: Repo, home: Seq<char>)
    requires
        a.org() == b.org(),
        a.repo() == b.repo(),
    ensures
        a.install_root(home) == home + "/"@ + "github-actions-runner"@ + "/"@ + (a.org() + "_"@
            + a.repo()),
        a.install_root(home) == b.install_root(home),
{
}

} // verus!
