use std::time::{SystemTime, UNIX_EPOCH};

use nixpkgs_tracker::commit_id::CommitId;
use nixpkgs_tracker::error::TrackerError;
use nixpkgs_tracker::managed_repository::ManagedRepository;
use nixpkgs_tracker::status::collect_statuses_in;
use nixpkgs_tracker::tracked_repository::TrackedRepository;
use nixpkgs_tracker::tracker::Tracker;

/// A directory name that no other test and no previous run uses.
fn unique_dir(name: &str) -> String {
    let nanos = SystemTime::now()
        .duration_since(UNIX_EPOCH)
        .unwrap()
        .as_nanos();
    format!("/tmp/nixpkgs-tracker-tests/{name}-{nanos}")
}

/// Create a commit with an empty tree on the current HEAD branch.
fn commit_empty(repo: &git2::Repository, message: &str, parents: &[&git2::Commit]) -> git2::Oid {
    let signature = git2::Signature::new("tester", "tester@example.invalid", &git2::Time::new(1700000000, 0)).unwrap();
    let tree_id = {
        let mut index = repo.index().unwrap();
        index.write_tree().unwrap()
    };
    let tree = repo.find_tree(tree_id).unwrap();
    repo.commit(Some("HEAD"), &signature, &signature, message, &tree, parents)
        .unwrap()
}

/// An upstream repository with `master` holding c1 <- c2 and `staging` at c1.
fn make_upstream(name: &str) -> (String, git2::Oid, git2::Oid) {
    let path = unique_dir(name);
    let repo = git2::Repository::init(&path).unwrap();
    repo.set_head("refs/heads/master").unwrap();
    let c1 = commit_empty(&repo, &format!("{name} first"), &[]);
    let parent = repo.find_commit(c1).unwrap();
    repo.branch("staging", &parent, true).unwrap();
    let c2 = commit_empty(&repo, &format!("{name} second"), &[&parent]);
    (path, c1, c2)
}

fn tracked_branches() -> Vec<String> {
    vec!["master".to_string(), "staging".to_string()]
}

fn hex(oid: git2::Oid) -> String {
    format!("{oid}")
}

fn make_mirror(name: &str, upstream: &str) -> (String, TrackedRepository) {
    let path = unique_dir(name);
    let repository =
        TrackedRepository::new(path.clone(), upstream.to_string(), "origin".to_string());
    repository
        .clone_repository(&tracked_branches())
        .expect("creating the mirror succeeds");
    (path, repository)
}

fn contains(repository: &TrackedRepository, sha: &str) -> Vec<(String, bool)> {
    repository
        .branches_contain_sha(&tracked_branches(), sha)
        .expect("the query succeeds")
}

#[test]
fn tip_equal_to_the_commit_is_contained() {
    let (upstream, _c1, c2) = make_upstream("boundary-upstream");
    let (_path, repository) = make_mirror("boundary-mirror", &upstream);
    let results = contains(&repository, &hex(c2));
    assert_eq!(
        results,
        vec![("master".to_string(), true), ("staging".to_string(), false)]
    );
}

#[test]
fn strict_descendant_tips_contain_the_commit() {
    let (upstream, c1, _c2) = make_upstream("descendant-upstream");
    let (_path, repository) = make_mirror("descendant-mirror", &upstream);
    let results = contains(&repository, &hex(c1));
    assert_eq!(
        results,
        vec![("master".to_string(), true), ("staging".to_string(), true)]
    );
}

#[test]
fn unrelated_commit_is_nowhere_and_not_an_error() {
    let (upstream, _c1, _c2) = make_upstream("unrelated-upstream");
    let (_path, repository) = make_mirror("unrelated-mirror", &upstream);

    // A commit from a completely disjoint history, never fetched here.
    let (other_path, _o1, o2) = make_upstream("unrelated-other");
    let _keep = other_path;
    let results = contains(&repository, &hex(o2));
    assert_eq!(
        results,
        vec![("master".to_string(), false), ("staging".to_string(), false)]
    );

    // A well-formed identifier that names no object anywhere.
    let results = contains(&repository, "00112233445566778899aabbccddeeff00112233");
    assert_eq!(
        results,
        vec![("master".to_string(), false), ("staging".to_string(), false)]
    );
}

#[test]
fn unknown_branch_is_a_distinct_error() {
    let (upstream, _c1, c2) = make_upstream("missing-branch-upstream");
    let (_path, repository) = make_mirror("missing-branch-mirror", &upstream);
    let unknown = vec!["not-tracked".to_string()];
    match repository.branches_contain_sha(&unknown, &hex(c2)) {
        Err(TrackerError::BranchNotFound(name)) => assert_eq!(name, "not-tracked"),
        other => panic!("expected a BranchNotFound error, got {other:?}"),
    }
}

#[test]
fn unknown_branch_is_reported_even_for_an_absent_commit() {
    let (upstream, _c1, _c2) = make_upstream("missing-both-upstream");
    let (_path, repository) = make_mirror("missing-both-mirror", &upstream);
    let unknown = vec!["not-tracked".to_string()];
    match repository.branches_contain_sha(&unknown, "00112233445566778899aabbccddeeff00112233") {
        Err(TrackerError::BranchNotFound(name)) => assert_eq!(name, "not-tracked"),
        other => panic!("expected a BranchNotFound error, got {other:?}"),
    }
}

#[test]
fn tracker_reports_unknown_branch_for_an_absent_commit() {
    let (upstream, _c1, _c2) = make_upstream("tracker-unknown-upstream");
    let (path, _repository) = make_mirror("tracker-unknown-mirror", &upstream);
    let tracker = Tracker::from_path(&path).unwrap();
    match tracker.branch_contains_sha("origin/not-tracked", "00112233445566778899aabbccddeeff00112233")
    {
        Err(TrackerError::BranchNotFound(name)) => assert_eq!(name, "origin/not-tracked"),
        other => panic!("expected a BranchNotFound error, got {other:?}"),
    }
}

#[test]
fn tracker_tolerates_an_absent_commit_on_a_known_branch() {
    let (upstream, _c1, _c2) = make_upstream("tracker-absent-upstream");
    let (path, _repository) = make_mirror("tracker-absent-mirror", &upstream);
    let tracker = Tracker::from_path(&path).unwrap();
    let contained = tracker
        .branch_contains_sha("origin/master", "00112233445566778899aabbccddeeff00112233")
        .expect("an absent commit is tolerated");
    assert!(!contained);
}

#[test]
fn a_path_holding_no_repository_is_not_reported_as_missing() {
    let (upstream, _c1, _c2) = make_upstream("invalid-path-upstream");
    // A file that certainly exists and is no repository: the upstream's own
    // HEAD file.
    let file_path = format!("{upstream}/.git/HEAD");
    match Tracker::from_path(&file_path) {
        Err(TrackerError::Git(_)) => (),
        Err(other) => panic!("expected a Git error, got {other:?}"),
        Ok(_) => panic!("expected opening a plain file to fail"),
    }
}

#[test]
fn malformed_commit_identifier_is_rejected() {
    let (upstream, _c1, _c2) = make_upstream("bad-sha-upstream");
    let (_path, repository) = make_mirror("bad-sha-mirror", &upstream);
    match repository.branches_contain_sha(&tracked_branches(), "not-a-sha") {
        Err(TrackerError::BadCommitId) => (),
        other => panic!("expected a BadCommitId error, got {other:?}"),
    }
}

#[test]
fn fetching_twice_leaves_tips_unchanged() {
    let (upstream, _c1, c2) = make_upstream("idempotent-upstream");
    let mirror_path = unique_dir("idempotent-mirror");
    let managed = ManagedRepository {
        path: mirror_path.clone(),
        tracked_branches: tracked_branches(),
        upstream_remote_url: upstream.clone(),
        upstream_remote_name: "origin".to_string(),
    };
    managed.fetch_or_update().expect("initial clone succeeds");
    let tip_after_clone = Tracker::from_path(&mirror_path)
        .unwrap()
        .branch_by_name("origin/master")
        .unwrap();

    managed.fetch_or_update().expect("refreshing succeeds");
    managed.fetch_or_update().expect("refreshing again succeeds");
    let tip_after_fetches = Tracker::from_path(&mirror_path)
        .unwrap()
        .branch_by_name("origin/master")
        .unwrap();

    let expected = CommitId::from_hex(&hex(c2)).unwrap();
    assert!(tip_after_clone.matches(&expected));
    assert!(tip_after_fetches.matches(&expected));
}

#[test]
fn cloning_and_fetching_resolve_the_same_tips() {
    let (upstream, c1, c2) = make_upstream("equivalence-upstream");

    // One mirror made entirely by the coordinator, starting from nothing.
    let first_path = unique_dir("equivalence-first");
    let first = ManagedRepository {
        path: first_path.clone(),
        tracked_branches: tracked_branches(),
        upstream_remote_url: upstream.clone(),
        upstream_remote_name: "origin".to_string(),
    };
    first.fetch_or_update().expect("clone from nothing succeeds");

    // Another mirror cloned externally, then refreshed by the coordinator.
    let second_path = unique_dir("equivalence-second");
    git2::build::RepoBuilder::new()
        .bare(true)
        .clone(&upstream, std::path::Path::new(&second_path))
        .expect("the external clone succeeds");
    let second = ManagedRepository {
        path: second_path.clone(),
        tracked_branches: tracked_branches(),
        upstream_remote_url: upstream.clone(),
        upstream_remote_name: "origin".to_string(),
    };
    second.fetch_or_update().expect("refreshing the clone succeeds");

    for (branch, expected) in [("origin/master", c2), ("origin/staging", c1)] {
        let want = CommitId::from_hex(&hex(expected)).unwrap();
        let first_tip = Tracker::from_path(&first_path)
            .unwrap()
            .branch_by_name(branch)
            .unwrap();
        let second_tip = Tracker::from_path(&second_path)
            .unwrap()
            .branch_by_name(branch)
            .unwrap();
        assert!(first_tip.matches(&want));
        assert!(second_tip.matches(&want));
    }
}

#[test]
fn branch_deleted_upstream_is_pruned_not_frozen() {
    let (upstream, _c1, _c2) = make_upstream("prune-upstream");
    let mirror_path = unique_dir("prune-mirror");
    let managed = ManagedRepository {
        path: mirror_path.clone(),
        tracked_branches: tracked_branches(),
        upstream_remote_url: upstream.clone(),
        upstream_remote_name: "origin".to_string(),
    };
    managed.fetch_or_update().expect("initial clone succeeds");
    assert!(Tracker::from_path(&mirror_path)
        .unwrap()
        .branch_by_name("origin/staging")
        .is_ok());

    // The branch goes away upstream; the next refresh must drop the stale
    // remote-tracking ref rather than leave it frozen at an old tip.
    let upstream_repo = git2::Repository::open(&upstream).unwrap();
    upstream_repo
        .find_branch("staging", git2::BranchType::Local)
        .unwrap()
        .delete()
        .unwrap();
    managed.fetch_or_update().expect("refreshing succeeds");

    match Tracker::from_path(&mirror_path)
        .unwrap()
        .branch_by_name("origin/staging")
    {
        Err(TrackerError::BranchNotFound(name)) => assert_eq!(name, "origin/staging"),
        other => panic!("expected the stale branch to be gone, got {other:?}"),
    }
}

#[test]
fn status_lines_cover_every_branch_in_order() {
    let (upstream, c1, _c2) = make_upstream("status-upstream");
    let (path, _repository) = make_mirror("status-mirror", &upstream);
    let statuses = collect_statuses_in(&path, &hex(c1), &tracked_branches()).unwrap();
    assert_eq!(
        statuses,
        vec![
            "`master` \u{2705}".to_string(),
            "`staging` \u{2705}".to_string(),
        ]
    );

    let absent = collect_statuses_in(
        &path,
        "00112233445566778899aabbccddeeff00112233",
        &tracked_branches(),
    )
    .unwrap();
    assert_eq!(
        absent,
        vec![
            "`master` \u{274c}".to_string(),
            "`staging` \u{274c}".to_string(),
        ]
    );
}

#[test]
fn cloning_from_a_missing_upstream_reports_the_store_error() {
    let mirror_path = unique_dir("bad-upstream-mirror");
    let upstream_path = unique_dir("no-such-upstream");
    let repository =
        TrackedRepository::new(mirror_path, upstream_path, "origin".to_string());
    match repository.clone_repository(&tracked_branches()) {
        Err(TrackerError::Git(_)) => (),
        Err(other) => panic!("expected a Git error, got {other:?}"),
        Ok(()) => panic!("expected the clone to fail"),
    }
}

#[test]
fn opening_a_missing_mirror_fails_distinctly() {
    let path = unique_dir("never-created");
    match Tracker::from_path(&path) {
        Err(TrackerError::RepositoryPathNotFound(p)) => assert_eq!(p, path),
        Err(other) => panic!("expected RepositoryPathNotFound, got {other:?}"),
        Ok(_) => panic!("expected RepositoryPathNotFound, got an open repository"),
    }
}
