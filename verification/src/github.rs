//! The code-host side of tracking: request targets, response models, and the
//! decisions taken on them.
//!
//! The network requests themselves are made by the surrounding process; this
//! module fixes which URLs are asked for and what each answer means.

use vstd::prelude::*;

use crate::text::{dec_rep, u64_to_string};

verus! {

/// `/repos/{owner}/{repo}/pulls/{pull_number}` for GitHub's API.
#[derive(Clone, Debug)]
pub struct PullRequest {
    pub html_url: String,
    pub number: u64,
    pub title: String,
    pub merged: bool,
    pub merged_at: Option<String>,
    pub merge_commit_sha: Option<String>,
}

/// `/random_teawie` for the teawieAPI.
#[derive(Clone, Debug)]
pub struct RandomTeawie {
    pub url: Option<String>,
    pub error: Option<String>,
}

/// Why a track request cannot even be attempted.
#[derive(Clone, Copy, Debug, PartialEq, Eq, Structural)]
pub enum PrOptionError {
    /// No pull-request number was supplied.
    Missing,
    /// The supplied number is negative.
    Negative,
}

/// Check the raw command option naming a pull request.
pub fn validate_pr_option(value: Option<i64>) -> (r: Result<u64, PrOptionError>)
    ensures
        value is None ==> (r matches Err(e) && e == PrOptionError::Missing),
        value matches Some(v) ==> (v < 0 <==> (r matches Err(e) && e == PrOptionError::Negative)),
        value matches Some(v) ==> (v >= 0 ==> (r matches Ok(id) && id == v as u64)),
{
    match value {
        None => Err(PrOptionError::Missing),
        Some(v) => {
            if v < 0 {
                Err(PrOptionError::Negative)
            } else {
                Ok(v as u64)
            }
        },
    }
}

/// How a track request proceeds once the pull request has been looked up.
pub enum MergeCommitDecision {
    /// The pull request is not merged; there is nothing to locate.
    NotMerged,
    /// The pull request is merged but the host reports no merge commit
    /// (it may be very old); it cannot be tracked.
    MissingMergeCommit,
    /// Query the mirror for this merge-commit identifier.
    Track(String),
}

/// Decide what to do with a pull request reported by the code host.
pub fn merge_commit_decision(pr: &PullRequest) -> (d: MergeCommitDecision)
    ensures
        !pr.merged ==> d is NotMerged,
        pr.merged ==> (pr.merge_commit_sha is None <==> d is MissingMergeCommit),
        pr.merged ==> (pr.merge_commit_sha matches Some(sha) ==> (d matches
            MergeCommitDecision::Track(s) && s@ == sha@)),
{
    if !pr.merged {
        return MergeCommitDecision::NotMerged;
    }
    match &pr.merge_commit_sha {
        Some(sha) => MergeCommitDecision::Track(sha.clone()),
        None => MergeCommitDecision::MissingMergeCommit,
    }
}

/// The GitHub API endpoint describing one pull request.
pub fn pull_request_url(repo_owner: &str, repo_name: &str, pr: u64) -> (r: String)
    ensures
        r@ =~= "https://api.github.com/repos/"@ + repo_owner@ + "/"@ + repo_name@ + "/pulls/"@
            + dec_rep(pr as nat),
{
    String::from_str("https://api.github.com/repos/")
        .concat(repo_owner)
        .concat("/")
        .concat(repo_name)
        .concat("/pulls/")
        .concat(u64_to_string(pr).as_str())
}

/// The GitHub API endpoint comparing a branch with a commit.
pub fn compare_url(repo_owner: &str, repo_name: &str, branch: &str, commit: &str) -> (r: String)
    ensures
        r@ =~= "https://api.github.com/repos/"@ + repo_owner@ + "/"@ + repo_name@ + "/compare/"@
            + branch@ + "..."@ + commit@,
{
    String::from_str("https://api.github.com/repos/")
        .concat(repo_owner)
        .concat("/")
        .concat(repo_name)
        .concat("/compare/")
        .concat(branch)
        .concat("...")
        .concat(commit)
}

/// The page of one nixpkgs pull request.
pub fn nixpkgs_pr_url(pr: u64) -> (r: String)
    ensures
        r@ =~= "https://github.com/NixOS/nixpkgs/pull/"@ + dec_rep(pr as nat),
{
    String::from_str("https://github.com/NixOS/nixpkgs/pull/").concat(u64_to_string(pr).as_str())
}

/// The teawieAPI endpoint serving a random teawie.
pub fn random_teawie_url() -> (r: String)
    ensures
        r@ == "https://api.getchoo.com/random_teawie"@,
{
    String::from_str("https://api.getchoo.com/random_teawie")
}

/// What a GitHub compare answer says about containment: the commit is in the
/// branch unless the histories diverged or the branch is behind.
pub fn compare_indicates_contained(status: &str, ahead_by: i32) -> (r: bool)
    ensures
        r == (status@ != "diverged"@ && ahead_by >= 0),
{
    let is_diverged = status.to_owned() == String::from_str("diverged");
    !is_diverged && ahead_by >= 0
}

} // verus!
