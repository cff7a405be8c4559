use rustup_mirror::strset::StrSet;
use rustup_mirror::strutil::{contains_substr, ends_with_str, percent_decode_spaces, str_eq};

#[test]
fn string_equality_goes_by_content() {
    assert!(str_eq("abc", "abc"));
    assert!(!str_eq("abc", "abd"));
    assert!(!str_eq("abc", "ab"));
    assert!(str_eq("", ""));
}

#[test]
fn substring_search_finds_inner_runs() {
    assert!(contains_substr("x86_64-pc-windows-msvc", "windows"));
    assert!(!contains_substr("x86_64-unknown-linux-gnu", "windows"));
    assert!(contains_substr("anything", ""));
    assert!(!contains_substr("ab", "abc"));
}

#[test]
fn suffix_test_matches_exact_tail() {
    assert!(ends_with_str("rust.tar.gz.sha256", ".sha256"));
    assert!(!ends_with_str("rust.tar.gz", ".sha256"));
    assert!(!ends_with_str("256", ".sha256"));
}

#[test]
fn percent_decoding_touches_only_spaces() {
    assert_eq!(percent_decode_spaces("a%20b%20c"), "a b c");
    assert_eq!(percent_decode_spaces("a%2Bb"), "a%2Bb");
    assert_eq!(percent_decode_spaces("%20"), " ");
    assert_eq!(percent_decode_spaces("%2"), "%2");
    assert_eq!(percent_decode_spaces(""), "");
}

#[test]
fn string_set_membership_and_idempotent_insert() {
    let mut s = StrSet::new();
    assert!(!s.contains("a"));
    s.insert("a".to_string());
    s.insert("b".to_string());
    s.insert("a".to_string());
    assert!(s.contains("a"));
    assert!(s.contains("b"));
    assert!(!s.contains("c"));
    assert_eq!(s.items().len(), 2);
}

#[test]
fn string_set_union_keeps_both_sides() {
    let mut s = StrSet::from_items(vec!["a".to_string(), "b".to_string()]);
    let t = StrSet::from_items(vec!["b".to_string(), "c".to_string()]);
    s.insert_all(&t);
    assert!(s.contains("a"));
    assert!(s.contains("b"));
    assert!(s.contains("c"));
    assert_eq!(s.items().len(), 3);
}
