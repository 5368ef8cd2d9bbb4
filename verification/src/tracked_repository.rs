//! The engine's top-level handle: a local mirror of one upstream repository.

use vstd::prelude::*;

use crate::ancestry::containment_verdict;
use crate::commit_id::{commit_hex_valid, CommitId};
use crate::error::TrackerError;
use crate::git_calls::{
    commit_exists, create_remote, fetch_refspecs, find_remote, init_bare_repository,
    is_descendant_of, open_repository, path_exists, resolve_branch_tip, TipLookup,
};
use crate::text::{refspecs_for, remote_branch_name};

verus! {

/// Descriptor of a tracked repository mirror.
///
/// The descriptor itself is immutable; the mirror on disk it points at is the
/// mutable state, created once by cloning and then updated in place.
#[derive(Clone, Debug, Eq, PartialEq, PartialOrd, Ord)]
pub struct TrackedRepository {
    /// Path to the repository mirror.
    path: String,
    /// URL of the Git remote.
    remote_url: String,
    /// Name of the remote referring to `remote_url`.
    remote_name: String,
}

/// Decide one branch's answer from the outcome of resolving its tip.
///
/// This states the query's per-branch behaviour exactly, for every possible
/// resolution outcome: a branch the mirror does not know is a distinct
/// caller error, never a silent `false` — also when the queried commit is
/// absent; a commit the mirror does not hold is contained in no resolvable
/// branch; a tip that *is* the commit contains it; a tip that differs from
/// it contains it exactly when it strictly descends from it.
pub fn branch_verdict(
    repo: &git2::Repository,
    commit: &CommitId,
    commit_present: bool,
    branch_name: &String,
    lookup: TipLookup,
) -> (r: Result<bool, TrackerError>)
    requires
        commit.wf(),
        lookup matches TipLookup::Found(tip) ==> tip.wf(),
    ensures
        lookup is Missing ==> (r matches Err(e) && e matches TrackerError::BranchNotFound(n)
            && n@ == branch_name@),
        lookup matches TipLookup::Failed(ge) ==> (r matches Err(e) && e is Git),
        lookup is Found ==> (!commit_present ==> (r matches Ok(b) && !b)),
        lookup matches TipLookup::Found(tip) ==> (commit_present ==> (tip@ =~= commit@ ==> (
        r matches Ok(b)
            && b))),
        lookup is Found ==> (r matches Err(e) ==> e is Git),
        r matches Err(e) ==> !(e is BadCommitId),
{
    match lookup {
        TipLookup::Found(tip) => {
            if !commit_present {
                return Ok(false);
            }
            if tip.matches(commit) {
                return Ok(containment_verdict(true, false));
            }
            match is_descendant_of(repo, &tip, commit) {
                Ok(descends) => Ok(containment_verdict(false, descends)),
                Err(e) => Err(TrackerError::Git(e)),
            }
        },
        TipLookup::Missing => Err(TrackerError::BranchNotFound(branch_name.clone())),
        TipLookup::Failed(e) => Err(TrackerError::Git(e)),
    }
}

impl TrackedRepository {
    pub closed spec fn spec_path(&self) -> Seq<char> {
        self.path@
    }

    pub closed spec fn spec_remote_url(&self) -> Seq<char> {
        self.remote_url@
    }

    pub closed spec fn spec_remote_name(&self) -> Seq<char> {
        self.remote_name@
    }

    pub fn new(path: String, remote_url: String, remote_name: String) -> (r: Self)
        ensures
            r.spec_path() == path@,
            r.spec_remote_url() == remote_url@,
            r.spec_remote_name() == remote_name@,
    {
        Self { path, remote_url, remote_name }
    }

    /// Open the mirror.
    ///
    /// A missing path and a path that exists but holds no openable
    /// repository fail distinctly, since the callers react differently
    /// (clone versus give up): only a path with nothing at all behind it is
    /// reported as not found.
    pub fn open(&self) -> (r: Result<git2::Repository, TrackerError>)
        ensures
            r matches Err(e) ==> (e matches TrackerError::RepositoryPathNotFound(p)
                && p@ == self.spec_path()) || e is Git,
    {
        if !path_exists(self.path.as_str()) {
            return Err(TrackerError::RepositoryPathNotFound(self.path.clone()));
        }
        match open_repository(self.path.as_str()) {
            Ok(repo) => Ok(repo),
            Err(e) => Err(TrackerError::Git(e)),
        }
    }

    /// Create a fresh bare mirror: initialize the directory as a bare
    /// repository, register the upstream remote under the configured name,
    /// and fetch the tracked branches once.
    pub fn clone_repository(&self, branches: &Vec<String>) -> (r: Result<(), TrackerError>)
        ensures
            r matches Err(e) ==> !(e is BadCommitId) && !(e is BranchNotFound),
    {
        let repository = match init_bare_repository(self.path.as_str()) {
            Ok(repo) => repo,
            Err(e) => {
                return Err(TrackerError::Git(e));
            },
        };
        match create_remote(&repository, self.remote_name.as_str(), self.remote_url.as_str()) {
            Ok(()) => (),
            Err(e) => {
                return Err(TrackerError::Git(e));
            },
        }
        self.fetch(branches)
    }

    /// Bring the tracked branches' remote-tracking refs up to date.
    ///
    /// Only the tracked branches are fetched, not the whole upstream ref
    /// space, and pruning is enabled so stale remote-tracking refs for
    /// branches removed upstream are deleted locally.
    pub fn fetch(&self, branches: &Vec<String>) -> (r: Result<(), TrackerError>)
        ensures
            r matches Err(e) ==> !(e is BadCommitId) && !(e is BranchNotFound),
    {
        let repository = match self.open() {
            Ok(repo) => repo,
            Err(e) => {
                return Err(e);
            },
        };
        let mut remote = match find_remote(&repository, self.remote_name.as_str()) {
            Ok(remote) => remote,
            Err(e) => {
                return Err(TrackerError::Git(e));
            },
        };
        let refspecs = refspecs_for(self.remote_name.as_str(), branches);
        match fetch_refspecs(&mut remote, &refspecs, true) {
            Ok(()) => Ok(()),
            Err(e) => Err(TrackerError::Git(e)),
        }
    }

    /// Whether a branch tip contains the given commit: the tip is the commit
    /// itself, or strictly descends from it.
    ///
    /// The self-equality case is decided without consulting the object store,
    /// so a branch whose tip *is* the commit is always reported as containing
    /// it.
    pub fn ref_contains_object(&self, tip: &CommitId, commit: &CommitId) -> (r: Result<
        bool,
        TrackerError,
    >)
        requires
            tip.wf(),
            commit.wf(),
        ensures
            tip@ =~= commit@ ==> (r matches Ok(b) && b),
            r matches Err(e) ==> (e matches TrackerError::RepositoryPathNotFound(p)
                && p@ == self.spec_path()) || e is Git,
    {
        if tip.matches(commit) {
            return Ok(containment_verdict(true, false));
        }
        let repository = match self.open() {
            Ok(repo) => repo,
            Err(e) => {
                return Err(e);
            },
        };
        match is_descendant_of(&repository, tip, commit) {
            Ok(descends) => Ok(containment_verdict(false, descends)),
            Err(e) => Err(TrackerError::Git(e)),
        }
    }

    /// Answer, for each branch in order, whether its remote-tracking tip
    /// contains the commit named by `commit_sha`.
    ///
    /// A malformed commit identifier is rejected up front; an identifier
    /// that is well formed but names no object in the mirror yields `false`
    /// for every branch rather than an error.  Every queried branch is
    /// resolved even then, so a name without a remote-tracking ref is always
    /// the distinct `BranchNotFound` error, never a silent `false`.  Result
    /// order mirrors the input order.
    pub fn branches_contain_sha(&self, branch_names: &Vec<String>, commit_sha: &str) -> (r: Result<
        Vec<(String, bool)>,
        TrackerError,
    >)
        ensures
            (r matches Err(e) && e is BadCommitId) <==> !commit_hex_valid(commit_sha@),
            r matches Ok(v) ==> v@.len() == branch_names@.len(),
            r matches Ok(v) ==> forall|i: int|
                0 <= i < v@.len() ==> (#[trigger] v@[i]).0@ == branch_names@[i]@,
    {
        let commit = match CommitId::from_hex(commit_sha) {
            Some(id) => id,
            None => {
                return Err(TrackerError::BadCommitId);
            },
        };
        let repository = match self.open() {
            Ok(repo) => repo,
            Err(e) => {
                return Err(e);
            },
        };
        let commit_present = match commit_exists(&repository, &commit) {
            Ok(present) => present,
            Err(e) => {
                return Err(TrackerError::Git(e));
            },
        };
        let mut results: Vec<(String, bool)> = Vec::new();
        let mut i: usize = 0;
        while i < branch_names.len()
            invariant
                0 <= i <= branch_names@.len(),
                results@.len() == i,
                commit.wf(),
                commit_hex_valid(commit_sha@),
                forall|j: int|
                    0 <= j < i ==> (#[trigger] results@[j]).0@ == branch_names@[j]@,
            decreases branch_names@.len() - i,
        {
            let branch_name = &branch_names[i];
            let full_name = remote_branch_name(self.remote_name.as_str(), branch_name.as_str());
            let lookup = resolve_branch_tip(&repository, full_name.as_str());
            match branch_verdict(&repository, &commit, commit_present, branch_name, lookup) {
                Ok(has_commit) => results.push((branch_name.clone(), has_commit)),
                Err(e) => {
                    return Err(e);
                },
            }
            i = i + 1;
        }
        Ok(results)
    }
}

} // verus!
