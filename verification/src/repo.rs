//! A repository with its local mirror path, and the path observations a run
//! makes before classifying it.

use vstd::prelude::*;
use crate::errors::ConfigError;
use std::path::Path;

verus! {

/// The mirror path for a repository: the base directory joined with the
/// repository's name by a single separator.
pub open spec fn spec_mirror_path(base_dir: Seq<char>, name: Seq<char>) -> Seq<char> {
    base_dir + "/"@ + name
}

/// LocalRepo is a Git repository with a local path.
pub struct LocalRepo {
    name: String,
    ssh_url: String,
    path: String,
}

/// The mathematical content of a `LocalRepo`: its name, clone URL and
/// mirror path as character sequences.
pub struct LocalRepoView {
    pub name: Seq<char>,
    pub ssh_url: Seq<char>,
    pub path: Seq<char>,
}

impl View for LocalRepo {
    type V = LocalRepoView;

    closed spec fn view(&self) -> LocalRepoView {
        LocalRepoView { name: self.name@, ssh_url: self.ssh_url@, path: self.path@ }
    }
}

impl LocalRepo {
    /// Builds a LocalRepo with its target path within `base_dir`.
    pub fn new(name: String, ssh_url: String, base_dir: &str) -> (r: LocalRepo)
        ensures
            r@.name == name@,
            r@.ssh_url == ssh_url@,
            r@.path == spec_mirror_path(base_dir@, name@),
    {
        let mut path = String::from_str(base_dir);
        path.append("/");
        path.append(name.as_str());
        LocalRepo { name, ssh_url, path }
    }

    /// The repository's name.
    pub fn name(&self) -> (n: &str)
        ensures
            n@ == self@.name,
    {
        self.name.as_str()
    }

    /// The repository's clone URL.
    pub fn ssh_url(&self) -> (u: &str)
        ensures
            u@ == self@.ssh_url,
    {
        self.ssh_url.as_str()
    }

    /// The repository's path, for display and for the git transport.
    pub fn display_path(&self) -> (p: &str)
        ensures
            p@ == self@.path,
    {
        self.path.as_str()
    }

    /// Checks whether or not the LocalRepo's path refers to an existing
    /// directory. The result reflects whatever is on disk at the moment of
    /// the call, so nothing further is promised of it.
    pub fn existing_dir(&self) -> bool {
        let e = path_exists(self.path.as_str());
        let d = path_is_dir(self.path.as_str());
        e && d
    }

    /// Observes the LocalRepo's path: existence and directory-ness are read
    /// from disk here; whether the path opens as a valid bare store is
    /// supplied by the caller, who owns the repository-store access.
    pub fn observe(&self, opens_as_store: bool) -> (o: crate::disposition::LocalObservation)
        ensures
            o.opens_as_store == opens_as_store,
    {
        let exists = path_exists(self.path.as_str());
        let is_dir = path_is_dir(self.path.as_str());
        crate::disposition::LocalObservation { exists, is_dir, opens_as_store }
    }
}

/// Relies on std's `Path::exists`: the result reflects live filesystem
/// state, so the contract promises nothing of it.
#[verifier::external_body]
fn path_exists(p: &str) -> bool {
    Path::new(p).exists()
}

/// Relies on std's `Path::is_dir`: the result reflects live filesystem
/// state, so the contract promises nothing of it.
#[verifier::external_body]
fn path_is_dir(p: &str) -> bool {
    Path::new(p).is_dir()
}

/// What to do with the destination base directory before any mirror work.
#[derive(Clone, Copy, Debug, PartialEq, Eq, Structural)]
pub enum BaseDirPlan {
    /// The directory is already there: use it as it is.
    UseExisting,
    /// Nothing is at the path yet: create the directory first.
    Create,
}

/// Decides how to prepare the destination base directory from what was
/// observed of it: an existing directory is used, an existing
/// non-directory is a fatal configuration error, and an absent path is
/// created.
pub fn plan_base_dir(exists: bool, is_dir: bool) -> (r: Result<BaseDirPlan, ConfigError>)
    ensures
        exists && is_dir ==> r == Result::<BaseDirPlan, ConfigError>::Ok(BaseDirPlan::UseExisting),
        exists && !is_dir ==> (r matches Err(e) && e is DestinationNotADirectory),
        !exists ==> r == Result::<BaseDirPlan, ConfigError>::Ok(BaseDirPlan::Create),
{
    if exists {
        if is_dir {
            Ok(BaseDirPlan::UseExisting)
        } else {
            Err(ConfigError::DestinationNotADirectory)
        }
    } else {
        Ok(BaseDirPlan::Create)
    }
}

} // verus!
