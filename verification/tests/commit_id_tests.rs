use nixpkgs_tracker::commit_id::CommitId;

const SAMPLE_SHA: &str = "0123456789abcdef0123456789abcdef01234567";

#[test]
fn parses_a_full_hex_identifier() {
    let id = CommitId::from_hex(SAMPLE_SHA).expect("a 40-digit hex string parses");
    let again = CommitId::from_hex(SAMPLE_SHA).unwrap();
    assert!(id.matches(&again));
}

#[test]
fn parses_uppercase_hex() {
    let lower = CommitId::from_hex("aabbccddeeff00112233445566778899aabbccdd").unwrap();
    let upper = CommitId::from_hex("AABBCCDDEEFF00112233445566778899AABBCCDD").unwrap();
    assert!(lower.matches(&upper));
}

#[test]
fn rejects_short_input() {
    assert!(CommitId::from_hex("0123456789abcdef").is_none());
}

#[test]
fn rejects_long_input() {
    assert!(CommitId::from_hex("0123456789abcdef0123456789abcdef012345678").is_none());
}

#[test]
fn rejects_empty_input() {
    assert!(CommitId::from_hex("").is_none());
}

#[test]
fn rejects_non_hex_character() {
    assert!(CommitId::from_hex("0123456789abcdef0123456789abcdef0123456g").is_none());
}

#[test]
fn rejects_non_ascii_input() {
    assert!(CommitId::from_hex("01234567é9abcdef0123456789abcdef0123456").is_none());
}

#[test]
fn distinct_identifiers_do_not_match() {
    let a = CommitId::from_hex(SAMPLE_SHA).unwrap();
    let b = CommitId::from_hex("0123456789abcdef0123456789abcdef01234568").unwrap();
    assert!(!a.matches(&b));
    assert!(!b.matches(&a));
}
