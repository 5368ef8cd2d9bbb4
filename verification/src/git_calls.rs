//! Trusted boundary around the libgit2 bindings.
//!
//! Everything the engine learns from the on-disk object store and the network
//! flows through the declarations and wrappers in this module.  Each wrapper
//! makes a single libgit2 operation available to verified code, stating only
//! what the binding's own source and documentation promise; results that
//! depend on the state of the mirror or of the network are left unconstrained
//! so that the callers are verified for every outcome.

use vstd::prelude::*;

use crate::commit_id::CommitId;

verus! {

#[verifier::external_type_specification]
#[verifier::external_body]
pub struct ExRepository(git2::Repository);

#[verifier::external_type_specification]
#[verifier::external_body]
pub struct ExGitError(git2::Error);

#[verifier::external_type_specification]
#[verifier::external_body]
pub struct ExRemote<'a>(git2::Remote<'a>);

/// The outcome of resolving a remote-tracking branch to its tip commit.
pub enum TipLookup {
    /// The branch exists; its tip is this commit.
    Found(CommitId),
    /// The mirror has no remote-tracking ref of that name.
    Missing,
    /// The lookup failed for some other repository-level reason.
    Failed(git2::Error),
}

/// Relies on `std::path::Path::exists`: whether anything exists at the path
/// on disk.  Says nothing about what it is.
#[verifier::external_body]
pub(crate) fn path_exists(path: &str) -> bool {
    std::path::Path::new(path).exists()
}

/// Relies on `git2::Repository::open`: opens an already-existing repository
/// (normal or bare) at the path, and fails when none can be opened there.
#[verifier::external_body]
pub(crate) fn open_repository(path: &str) -> Result<git2::Repository, git2::Error> {
    git2::Repository::open(path)
}

/// Relies on `git2::Repository::init_bare`: creates a bare repository at the
/// path, creating any missing directories (the default init options set the
/// make-path flags).
#[verifier::external_body]
pub(crate) fn init_bare_repository(path: &str) -> Result<git2::Repository, git2::Error> {
    git2::Repository::init_bare(path)
}

/// Relies on `git2::Repository::remote`: registers a remote of the given name
/// and URL, with the default fetch refspec, in the repository configuration.
#[verifier::external_body]
pub(crate) fn create_remote(
    repo: &git2::Repository,
    name: &str,
    url: &str,
) -> Result<(), git2::Error> {
    match repo.remote(name, url) {
        Ok(_) => Ok(()),
        Err(e) => Err(e),
    }
}

/// Relies on `git2::build::RepoBuilder::clone` with the bare option: clones
/// the full remote repository at `url` into `path` as a bare mirror.
#[verifier::external_body]
pub(crate) fn clone_bare(url: &str, path: &str) -> Result<(), git2::Error> {
    match git2::build::RepoBuilder::new().bare(true).clone(url, std::path::Path::new(path)) {
        Ok(_) => Ok(()),
        Err(e) => Err(e),
    }
}

/// Relies on `git2::Repository::find_remote`: looks a remote up by name.
#[verifier::external_body]
pub(crate) fn find_remote<'a>(
    repo: &'a git2::Repository,
    name: &str,
) -> Result<git2::Remote<'a>, git2::Error> {
    repo.find_remote(name)
}

/// Relies on `git2::Remote::fetch`: connects to the remote, downloads the
/// objects reachable through the given refspecs, disconnects, and updates the
/// corresponding remote-tracking tips.  When `prune` is set, remote-tracking
/// refs whose upstream branch is gone are deleted during the update.
#[verifier::external_body]
pub(crate) fn fetch_refspecs(
    remote: &mut git2::Remote<'_>,
    refspecs: &Vec<String>,
    prune: bool,
) -> Result<(), git2::Error> {
    let mut options = git2::FetchOptions::new();
    options.prune(if prune { git2::FetchPrune::On } else { git2::FetchPrune::Off });
    remote.fetch(refspecs.as_slice(), Some(&mut options), None)
}

/// Relies on `git2::Repository::find_branch` (remote branch namespace),
/// `git2::Branch::into_reference`, `git2::Reference::peel_to_commit` and
/// `git2::Commit::id`: resolves a remote-tracking branch name such as
/// `origin/master` to the commit its ref points at.  A found tip is a SHA-1
/// object id of exactly 20 raw bytes; a branch the mirror does not know is
/// reported as `Missing` (libgit2's `ErrorCode::NotFound`).
#[verifier::external_body]
pub(crate) fn resolve_branch_tip(repo: &git2::Repository, full_name: &str) -> (r: TipLookup)
    ensures
        r matches TipLookup::Found(tip) ==> tip.wf(),
{
    let branch = match repo.find_branch(full_name, git2::BranchType::Remote) {
        Ok(b) => b,
        Err(e) if e.code() == git2::ErrorCode::NotFound => return TipLookup::Missing,
        Err(e) => return TipLookup::Failed(e),
    };
    match branch.into_reference().peel_to_commit() {
        Ok(commit) => TipLookup::Found(CommitId { bytes: commit.id().as_bytes().to_vec() }),
        Err(e) => TipLookup::Failed(e),
    }
}

/// Relies on `git2::Repository::find_commit` and `git2::Oid::from_bytes`:
/// whether the object store holds a commit with this identifier.  A lookup
/// failing with libgit2's `ErrorCode::NotFound` means the commit is absent,
/// not that the repository is broken.
#[verifier::external_body]
pub(crate) fn commit_exists(
    repo: &git2::Repository,
    id: &CommitId,
) -> Result<bool, git2::Error>
    requires
        id.wf(),
{
    let oid = git2::Oid::from_bytes(&id.bytes)?;
    match repo.find_commit(oid) {
        Ok(_) => Ok(true),
        Err(e) if e.code() == git2::ErrorCode::NotFound => Ok(false),
        Err(e) => Err(e),
    }
}

/// Relies on `git2::Repository::graph_descendant_of`: whether `commit` is a
/// strict descendant of `ancestor` in the commit graph.  Per its
/// documentation, a commit is not considered a descendant of itself.
#[verifier::external_body]
pub(crate) fn is_descendant_of(
    repo: &git2::Repository,
    commit: &CommitId,
    ancestor: &CommitId,
) -> (r: Result<bool, git2::Error>)
    requires
        commit.wf(),
        ancestor.wf(),
    ensures
        commit@ =~= ancestor@ ==> (r matches Ok(b) ==> !b),
{
    let c = git2::Oid::from_bytes(&commit.bytes)?;
    let a = git2::Oid::from_bytes(&ancestor.bytes)?;
    repo.graph_descendant_of(c, a)
}

} // verus!
