//! Errors surfaced by the tracking engine.

use vstd::prelude::*;

verus! {

/// What can go wrong while refreshing or querying the mirror.
#[derive(Debug)]
pub enum TrackerError {
    /// The underlying object store reported a repository error.
    Git(git2::Error),
    /// No repository mirror exists at the configured path.
    RepositoryPathNotFound(String),
    /// A queried commit identifier is not a fixed-length hex string.
    BadCommitId,
    /// A queried branch name has no remote-tracking ref in the mirror.
    BranchNotFound(String),
}

} // verus!
