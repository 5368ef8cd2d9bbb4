use nixpkgs_tracker::config::{parse_branch_list, Config};

#[test]
fn splits_a_branch_list_on_commas() {
    assert_eq!(
        parse_branch_list("master,staging,nixos-unstable"),
        vec![
            "master".to_string(),
            "staging".to_string(),
            "nixos-unstable".to_string(),
        ]
    );
}

#[test]
fn splitting_keeps_empty_segments() {
    assert_eq!(
        parse_branch_list("a,,b"),
        vec!["a".to_string(), "".to_string(), "b".to_string()]
    );
    assert_eq!(
        parse_branch_list("a,"),
        vec!["a".to_string(), "".to_string()]
    );
}

#[test]
fn splitting_the_empty_string_yields_one_empty_segment() {
    assert_eq!(parse_branch_list(""), vec!["".to_string()]);
}

#[test]
fn a_single_branch_needs_no_comma() {
    assert_eq!(parse_branch_list("master"), vec!["master".to_string()]);
}

#[test]
fn config_keeps_the_branch_list() {
    let config = Config::new(
        "/srv/nixpkgs".to_string(),
        parse_branch_list("master,staging"),
        None,
        None,
    );
    assert_eq!(
        config.nixpkgs_branches(),
        &vec!["master".to_string(), "staging".to_string()]
    );
}
