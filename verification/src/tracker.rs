//! A read-only ancestry view over an already-open repository mirror.

use vstd::prelude::*;

use crate::ancestry::containment_verdict;
use crate::commit_id::{commit_hex_valid, hex_byte_at, CommitId};
use crate::error::TrackerError;
use crate::git_calls::{
    commit_exists, is_descendant_of, open_repository, path_exists, resolve_branch_tip, TipLookup,
};

verus! {

/// Helper struct for tracking Git objects in one open repository.
pub struct Tracker {
    repository: git2::Repository,
}

impl Tracker {
    /// Open the repository at `path` and wrap it for queries.
    ///
    /// A missing path fails distinctly from a path holding something that
    /// is not an openable repository: only a path with nothing at all
    /// behind it is reported as not found; anything else that cannot be
    /// opened is a repository error.
    pub fn from_path(path: &str) -> (r: Result<Tracker, TrackerError>)
        ensures
            r matches Err(e) ==> (e matches TrackerError::RepositoryPathNotFound(p) && p@ == path@)
                || e is Git,
    {
        if !path_exists(path) {
            return Err(TrackerError::RepositoryPathNotFound(path.to_owned()));
        }
        match open_repository(path) {
            Ok(repository) => Ok(Tracker { repository }),
            Err(e) => Err(TrackerError::Git(e)),
        }
    }

    /// Resolve a remote-tracking branch (by its full short name, such as
    /// `origin/master`) to its tip commit.
    pub fn branch_by_name(&self, name: &str) -> (r: Result<CommitId, TrackerError>)
        ensures
            r matches Ok(tip) ==> tip.wf(),
            r matches Err(e) ==> ((e matches TrackerError::BranchNotFound(n) && n@ == name@)
                || e is Git),
    {
        match resolve_branch_tip(&self.repository, name) {
            TipLookup::Found(tip) => Ok(tip),
            TipLookup::Missing => Err(TrackerError::BranchNotFound(name.to_owned())),
            TipLookup::Failed(e) => Err(TrackerError::Git(e)),
        }
    }

    /// Resolve a textual commit identifier against the object store.
    ///
    /// Returns the parsed identifier when the mirror holds such a commit,
    /// `None` when the identifier is well formed but names no local object,
    /// and `BadCommitId` when it is not a fixed-length hex string at all.
    pub fn commit_by_sha(&self, sha: &str) -> (r: Result<Option<CommitId>, TrackerError>)
        ensures
            (r matches Err(e) && e is BadCommitId) <==> !commit_hex_valid(sha@),
            r matches Err(e) ==> e is BadCommitId || e is Git,
            r matches Ok(o) ==> (o matches Some(id) ==> id.wf() && forall|i: int|
                0 <= i < 20 ==> #[trigger] id@[i] as int == hex_byte_at(sha@, i)),
    {
        let commit = match CommitId::from_hex(sha) {
            Some(id) => id,
            None => {
                return Err(TrackerError::BadCommitId);
            },
        };
        match commit_exists(&self.repository, &commit) {
            Ok(true) => Ok(Some(commit)),
            Ok(false) => Ok(None),
            Err(e) => Err(TrackerError::Git(e)),
        }
    }

    /// Whether the branch tip `tip` contains `commit`: the tip is the commit
    /// itself, or strictly descends from it.  The self-equality case is
    /// decided first, without consulting the commit graph.
    pub fn ref_contains_commit(&self, tip: &CommitId, commit: &CommitId) -> (r: Result<
        bool,
        TrackerError,
    >)
        requires
            tip.wf(),
            commit.wf(),
        ensures
            tip@ =~= commit@ ==> (r matches Ok(b) && b),
            r matches Err(e) ==> e is Git,
    {
        if tip.matches(commit) {
            return Ok(containment_verdict(true, false));
        }
        match is_descendant_of(&self.repository, tip, commit) {
            Ok(descends) => Ok(containment_verdict(false, descends)),
            Err(e) => Err(TrackerError::Git(e)),
        }
    }

    /// Whether the branch tip `tip` contains whatever the commit lookup
    /// returned.
    ///
    /// This states the query's answer for each possible lookup outcome: a
    /// commit the mirror does not hold is contained nowhere, and a resolved
    /// commit equal to the tip is always contained.
    pub fn ref_contains_resolved(&self, tip: &CommitId, resolved: &Option<CommitId>) -> (r: Result<
        bool,
        TrackerError,
    >)
        requires
            tip.wf(),
            resolved matches Some(id) ==> id.wf(),
        ensures
            resolved is None ==> (r matches Ok(b) && !b),
            resolved matches Some(id) ==> (tip@ =~= id@ ==> (r matches Ok(b) && b)),
            r matches Err(e) ==> e is Git,
    {
        match resolved {
            Some(commit) => self.ref_contains_commit(tip, commit),
            None => Ok(false),
        }
    }

    /// Whether the branch named `branch_name` contains the commit named by
    /// `commit_sha`.
    ///
    /// A well-formed identifier that names no local object is reported as not
    /// contained rather than as an error: the upstream host sometimes names
    /// merge commits that have not reached this mirror, or never will.  The
    /// branch is resolved even then, so an unknown branch name is always the
    /// distinct `BranchNotFound` error, never a silent `false`.
    pub fn branch_contains_sha(&self, branch_name: &str, commit_sha: &str) -> (r: Result<
        bool,
        TrackerError,
    >)
        ensures
            (r matches Err(e) && e is BadCommitId) <==> !commit_hex_valid(commit_sha@),
            r matches Err(e) ==> (e matches TrackerError::BranchNotFound(n) ==> n@
                == branch_name@),
    {
        let resolved = match self.commit_by_sha(commit_sha) {
            Ok(resolved) => resolved,
            Err(e) => {
                return Err(e);
            },
        };
        let tip = match self.branch_by_name(branch_name) {
            Ok(tip) => tip,
            Err(e) => {
                return Err(e);
            },
        };
        self.ref_contains_resolved(&tip, &resolved)
    }
}

} // verus!
