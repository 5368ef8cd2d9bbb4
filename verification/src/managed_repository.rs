//! The fetch coordinator: keep a mirror of the tracked branches current.

use vstd::prelude::*;

use crate::error::TrackerError;
use crate::git_calls::{clone_bare, fetch_refspecs, find_remote, open_repository, path_exists};
use crate::text::refspecs_for;

verus! {

/// A mirror of one upstream repository together with the ordered set of
/// branches whose remote-tracking refs are kept current and queryable.
pub struct ManagedRepository {
    /// Filesystem location of the local mirror.
    pub path: String,
    /// Branch short names to fetch, in reporting order.
    pub tracked_branches: Vec<String>,
    /// Clone source, used only when the mirror does not yet exist.
    pub upstream_remote_url: String,
    /// Logical name of the upstream remote inside the mirror.
    pub upstream_remote_name: String,
}

impl ManagedRepository {
    /// Update the tracked branches' remote-tracking refs in an open mirror.
    ///
    /// Only the tracked branches are fetched — the upstream may have orders
    /// of magnitude more refs than are ever queried — and pruning is enabled
    /// so refs whose upstream branch is gone are dropped rather than frozen
    /// at a stale tip.
    fn update_branches_in(&self, repository: &git2::Repository) -> (r: Result<(), TrackerError>)
        ensures
            r matches Err(e) ==> e is Git,
    {
        let mut remote = match find_remote(repository, self.upstream_remote_name.as_str()) {
            Ok(remote) => remote,
            Err(e) => {
                return Err(TrackerError::Git(e));
            },
        };
        let refspecs = refspecs_for(self.upstream_remote_name.as_str(), &self.tracked_branches);
        match fetch_refspecs(&mut remote, &refspecs, true) {
            Ok(()) => Ok(()),
            Err(e) => Err(TrackerError::Git(e)),
        }
    }

    /// Bring the mirror up to date, creating it if it does not exist.
    ///
    /// A missing mirror is cloned in full from the upstream URL as a bare
    /// repository and left at that — a fresh clone is definitionally up to
    /// date.  An existing mirror is opened and only the tracked branches are
    /// fetched.  A path that exists but holds no openable repository is an
    /// error; nothing is deleted or repaired automatically.
    pub fn fetch_or_update(&self) -> (r: Result<(), TrackerError>)
        ensures
            r matches Err(e) ==> e is Git,
    {
        if !path_exists(self.path.as_str()) {
            return match clone_bare(self.upstream_remote_url.as_str(), self.path.as_str()) {
                Ok(()) => Ok(()),
                Err(e) => Err(TrackerError::Git(e)),
            };
        }
        let repository = match open_repository(self.path.as_str()) {
            Ok(repository) => repository,
            Err(e) => {
                return Err(TrackerError::Git(e));
            },
        };
        self.update_branches_in(&repository)
    }
}

} // verus!
