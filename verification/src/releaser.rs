//! Who is asked for releases.

use vstd::prelude::*;

verus! {

/// A way to a remote service that hosts a workflow. Workflow authors implement
/// it for the service of their choice; asking the service is up to the program
/// around the library.
pub trait Releaser: Sized {
    /// A releaser for the project or repository of that name.
    fn new(project_id: String) -> Self;
}

/// The way to a repository on `github.com`.
#[derive(Debug, PartialEq, Eq)]
pub struct GithubReleaser {
    /// The repository, as `user_name/repository_name`.
    pub repo_name: String,
    /// Where the latest release can be downloaded, once the service named it.
    pub latest_url: Option<String>,
}

impl Releaser for GithubReleaser {
    fn new(project_id: String) -> (r: Self)
        ensures
            r.repo_name == project_id,
            r.latest_url is None,
    {
        GithubReleaser { repo_name: project_id, latest_url: None }
    }
}

impl Clone for GithubReleaser {
    fn clone(&self) -> (r: Self)
        ensures
            r == *self,
    {
        GithubReleaser { repo_name: self.repo_name.clone(), latest_url: self.latest_url.clone() }
    }
}

} // verus!
