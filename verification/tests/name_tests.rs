use find_rs::name::match_name;
use find_rs::name::wildcard_match;

#[test]
fn test_exact_match() {
    assert!(match_name("main.rs", "main.rs", false));
    assert!(!match_name("main.rs", "main.py", false));
}

#[test]
fn test_case_insensitive() {
    assert!(match_name("MAIN.RS", "main.rs", true));
    assert!(!match_name("MAIN.RS", "main.rs", false));
}

#[test]
fn test_wildcard_star() {
    assert!(match_name("main.rs", "*.rs", false));
    assert!(match_name("test.txt", "*.txt", false));
    assert!(!match_name("test.rs", "*.txt", false));
    assert!(match_name("dx_1", "dx_*", false));
    assert!(match_name("dx_2", "dx_*", false));
    assert!(!match_name("tx_1", "dx_*", false));
}

#[test]
fn test_wildcard_question() {
    assert!(match_name("a.txt", "?.txt", false));
    assert!(!match_name("ab.txt", "?.txt", false));
    assert!(match_name("ab.txt", "??.txt", false));
}

#[test]
fn test_mixed_wildcards() {
    assert!(match_name("abc123.txt", "abc*.txt", false));
    assert!(match_name("abc123.txt", "abc???.txt", false));
    assert!(!match_name("abc12.txt", "abc???.txt", false));
}

#[test]
fn test_star_matches_every_name() {
    assert!(match_name("a", "*", false));
    assert!(match_name("anything.at.all", "*", false));
    assert!(match_name("UPPER", "*", true));
    assert!(match_name("", "*", false));
}

#[test]
fn test_question_matches_exactly_one_character() {
    assert!(match_name("x", "?", false));
    assert!(match_name("X", "?", true));
    assert!(!match_name("", "?", false));
    assert!(!match_name("xy", "?", false));
}

#[test]
fn test_literal_is_whole_name_not_substring() {
    assert!(!match_name("main.rs", "main", false));
    assert!(!match_name("main", "main.rs", false));
    assert!(match_name("main", "main", false));
}

#[test]
fn test_case_fold_is_applied_to_both_operands() {
    assert!(match_name("MiXeD.TxT", "mIxEd.tXt", true));
    assert!(match_name("SOME.RS", "*.rs", true));
    assert!(match_name("some.rs", "*.RS", true));
    assert!(!match_name("SOME.RS", "*.rs", false));
}

#[test]
fn test_consecutive_and_edge_stars() {
    assert!(match_name("abc", "**", false));
    assert!(match_name("abc", "*abc", false));
    assert!(match_name("abc", "abc*", false));
    assert!(match_name("abc", "*b*", false));
    assert!(!match_name("abc", "*d*", false));
    assert!(match_name("", "***", false));
}

#[test]
fn test_wildcard_match_direct() {
    assert!(wildcard_match("hello.rs", "h*o.?s", false));
    assert!(!wildcard_match("hello.rs", "h*o.?x", false));
    assert!(wildcard_match("HELLO", "he*", true));
    assert!(!wildcard_match("HELLO", "he*", false));
}

#[test]
fn test_case_fold_is_ascii_only() {
    assert!(match_name("ABC_1.RS", "abc_?.rs", true));
    assert!(match_name("1+1", "1+1", true));
    // the fold is the simple, locale-independent ASCII one: characters
    // outside A-Z are left alone
    assert!(!match_name("\u{c4}", "\u{e4}", true));
}
