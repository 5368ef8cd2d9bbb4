use nixpkgs_tracker::github::{
    compare_indicates_contained, compare_url, merge_commit_decision, nixpkgs_pr_url,
    pull_request_url, random_teawie_url, validate_pr_option, MergeCommitDecision, PrOptionError,
    PullRequest,
};

fn sample_pr(merged: bool, merge_commit_sha: Option<String>) -> PullRequest {
    PullRequest {
        html_url: "https://github.com/NixOS/nixpkgs/pull/1234".to_string(),
        number: 1234,
        title: "a change".to_string(),
        merged,
        merged_at: None,
        merge_commit_sha,
    }
}

#[test]
fn builds_the_pull_request_endpoint() {
    assert_eq!(
        pull_request_url("NixOS", "nixpkgs", 1234),
        "https://api.github.com/repos/NixOS/nixpkgs/pulls/1234"
    );
}

#[test]
fn builds_the_compare_endpoint() {
    assert_eq!(
        compare_url("NixOS", "nixpkgs", "master", "abc123"),
        "https://api.github.com/repos/NixOS/nixpkgs/compare/master...abc123"
    );
}

#[test]
fn builds_the_pull_request_page() {
    assert_eq!(nixpkgs_pr_url(7), "https://github.com/NixOS/nixpkgs/pull/7");
}

#[test]
fn builds_the_teawie_endpoint() {
    assert_eq!(random_teawie_url(), "https://api.getchoo.com/random_teawie");
}

#[test]
fn missing_option_is_rejected() {
    assert_eq!(validate_pr_option(None), Err(PrOptionError::Missing));
}

#[test]
fn negative_pr_number_is_rejected() {
    assert_eq!(validate_pr_option(Some(-1)), Err(PrOptionError::Negative));
}

#[test]
fn valid_pr_number_is_accepted() {
    assert_eq!(validate_pr_option(Some(1234)), Ok(1234));
    assert_eq!(validate_pr_option(Some(0)), Ok(0));
}

#[test]
fn unmerged_pull_request_is_not_tracked() {
    let d = merge_commit_decision(&sample_pr(false, Some("abc".to_string())));
    assert!(matches!(d, MergeCommitDecision::NotMerged));
}

#[test]
fn merged_pull_request_without_commit_cannot_be_tracked() {
    let d = merge_commit_decision(&sample_pr(true, None));
    assert!(matches!(d, MergeCommitDecision::MissingMergeCommit));
}

#[test]
fn merged_pull_request_is_tracked_by_its_merge_commit() {
    let sha = "0123456789abcdef0123456789abcdef01234567";
    let d = merge_commit_decision(&sample_pr(true, Some(sha.to_string())));
    match d {
        MergeCommitDecision::Track(s) => assert_eq!(s, sha),
        _ => panic!("expected a Track decision"),
    }
}

#[test]
fn compare_status_decides_containment() {
    assert!(compare_indicates_contained("identical", 0));
    assert!(compare_indicates_contained("behind", 2));
    assert!(!compare_indicates_contained("diverged", 3));
    assert!(!compare_indicates_contained("ahead", -1));
}
