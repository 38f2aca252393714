//! The string helpers the plan builders lean on.

use cbm_harness::text::{contains_text, path_join, truncate_chars, u64_to_dec_string};

#[test]
fn paths_join_with_one_separator() {
    assert_eq!(path_join("a", "b"), "a/b");
    assert_eq!(path_join("./solana-conformance", "impl/lib"), "./solana-conformance/impl/lib");
    assert_eq!(path_join("", "x"), "/x");
}

#[test]
fn substring_search() {
    assert!(contains_text("Failed tests: 3", "Failed tests:"));
    assert!(contains_text("xFailed tests:", "Failed tests:"));
    assert!(!contains_text("failed tests:", "Failed tests:"));
    assert!(!contains_text("Failed test", "Failed tests:"));
    assert!(contains_text("anything", ""));
    assert!(!contains_text("", "a"));
    assert!(contains_text("", ""));
    assert!(contains_text("aaab", "aab"));
}

#[test]
fn char_truncation() {
    assert_eq!(truncate_chars("hello", 160), "hello");
    assert_eq!(truncate_chars("hello", 2), "he");
    assert_eq!(truncate_chars("", 5), "");
    assert_eq!(truncate_chars("hello", 0), "");
}

#[test]
fn decimal_rendering_has_no_leading_zeros() {
    assert_eq!(u64_to_dec_string(100), "100");
    assert_eq!(u64_to_dec_string(101), "101");
    assert_eq!(u64_to_dec_string(123456789), "123456789");
}
