//! Turning per-branch query answers into the status lines shown to callers.

use vstd::prelude::*;

use crate::commit_id::{commit_hex_valid, CommitId};
use crate::consts::nixpkgs_remote;
use crate::error::TrackerError;
use crate::text::{remote_branch_name, remote_branch_view};
use crate::tracker::Tracker;

verus! {

/// The status line for one branch: the branch name in backticks, then a
/// check mark when the branch has the commit and a cross when it does not.
pub open spec fn status_view(branch_name: Seq<char>, has_pr: bool) -> Seq<char> {
    "`"@ + branch_name + "` "@ + (if has_pr {
        "\u{2705}"@
    } else {
        "\u{274c}"@
    })
}

/// Make a nice friendly string displaying if this branch has a PR merged into it.
pub fn to_status_string(branch_name: &str, has_pr: bool) -> (r: String)
    ensures
        r@ =~= status_view(branch_name@, has_pr),
{
    let emoji: &str = if has_pr {
        "\u{2705}"
    } else {
        "\u{274c}"
    };
    String::from_str("`").concat(branch_name).concat("` ").concat(emoji)
}

/// One branch of one upstream repository, as queried through the code host.
#[derive(Clone, Debug, Default)]
pub struct BranchStatus {
    pub repo_owner: String,
    pub repo_name: String,
    pub name: String,
}

impl BranchStatus {
    pub fn new(repo_owner: String, repo_name: String, name: String) -> (r: Self)
        ensures
            r.repo_owner@ == repo_owner@,
            r.repo_name@ == repo_name@,
            r.name@ == name@,
    {
        Self { repo_owner, repo_name, name }
    }

    /// Make a nice friendly string displaying if this branch has a PR merged into it.
    pub fn to_status_string(&self, has_pr: bool) -> (r: String)
        ensures
            r@ =~= status_view(self.name@, has_pr),
    {
        to_status_string(self.name.as_str(), has_pr)
    }
}

/// Find the branch by its name and check whether it has the resolved commit.
///
/// The branch short name is qualified with the upstream remote name before
/// the lookup, since the mirror only holds remote-tracking refs.  The branch
/// is resolved even when the commit lookup came back empty, so an unknown
/// branch is a distinct error rather than a silent `false`; a commit the
/// mirror does not hold is contained in no resolvable branch.
pub fn has_commit(tracker: &Tracker, branch_name: &str, commit: &Option<CommitId>) -> (r: Result<
    bool,
    TrackerError,
>)
    requires
        commit matches Some(id) ==> id.wf(),
    ensures
        commit is None ==> (r matches Ok(b) ==> !b),
        r matches Err(e) ==> ((e matches TrackerError::BranchNotFound(n) && n@
            == remote_branch_view("origin"@, branch_name@)) || e is Git),
{
    let full_branch_name = remote_branch_name(nixpkgs_remote(), branch_name);
    let tip = match tracker.branch_by_name(full_branch_name.as_str()) {
        Ok(tip) => tip,
        Err(e) => {
            return Err(e);
        },
    };
    tracker.ref_contains_resolved(&tip, commit)
}

/// Collect the status line of the commit named by `commit_sha` in each of the
/// nixpkgs branches in `branches`, using the repository mirror at
/// `repository_path`.
///
/// A well-formed commit identifier that the mirror does not hold yields a
/// negative status line for every branch rather than an error; the branches
/// are still resolved, so an unknown branch name is a distinct error.
pub fn collect_statuses_in(
    repository_path: &str,
    commit_sha: &str,
    branches: &Vec<String>,
) -> (r: Result<Vec<String>, TrackerError>)
    ensures
        (r matches Err(e) && e is BadCommitId) ==> !commit_hex_valid(commit_sha@),
        r matches Ok(v) ==> v@.len() == branches@.len(),
        r matches Ok(v) ==> forall|i: int|
            0 <= i < v@.len() ==> (#[trigger] v@[i])@ == status_view(branches@[i]@, true) || v@[i]@
                == status_view(branches@[i]@, false),
{
    let tracker = match Tracker::from_path(repository_path) {
        Ok(tracker) => tracker,
        Err(e) => {
            return Err(e);
        },
    };
    let commit = match tracker.commit_by_sha(commit_sha) {
        Ok(found) => found,
        Err(e) => {
            return Err(e);
        },
    };
    let mut status_results: Vec<String> = Vec::new();
    let mut i: usize = 0;
    while i < branches.len()
        invariant
            0 <= i <= branches@.len(),
            status_results@.len() == i,
            commit matches Some(id) ==> id.wf(),
            commit_hex_valid(commit_sha@),
            forall|j: int|
                0 <= j < i ==> (#[trigger] status_results@[j])@ == status_view(
                    branches@[j]@,
                    true,
                ) || status_results@[j]@ == status_view(branches@[j]@, false),
        decreases branches@.len() - i,
    {
        let branch_name = &branches[i];
        let has_pr = match has_commit(&tracker, branch_name.as_str(), &commit) {
            Ok(has_pr) => has_pr,
            Err(e) => {
                return Err(e);
            },
        };
        status_results.push(to_status_string(branch_name.as_str(), has_pr));
        i = i + 1;
    }
    Ok(status_results)
}

} // verus!
