use find_rs::regex_match::convert_wildcard_to_regex;
use find_rs::regex_match::match_regex;
use find_rs::regex_match::simple_pattern_match;
use find_rs::regex_match::validate_regex;
use find_rs::regex_match::RegexCache;
use find_rs::types::FindError;

#[test]
fn test_regex_is_anchored_to_whole_name() {
    let mut cache = RegexCache::new();
    assert!(match_regex(&mut cache, "test.txt", ".*\\.txt", false));
    assert!(!match_regex(&mut cache, "test.py", ".*\\.txt", false));
    // an unanchored engine would accept the substring match here
    assert!(!match_regex(&mut cache, "main.rs.bak", "main\\.rs", false));
    assert!(match_regex(&mut cache, "main.rs", "main\\.rs", false));
}

#[test]
fn test_invalid_regex_matches_nothing_and_reports() {
    let mut cache = RegexCache::new();
    assert!(!match_regex(&mut cache, "anything", "[", false));
    assert!(!match_regex(&mut cache, "", "[", false));
    assert!(matches!(validate_regex(&mut cache, "[", false), Err(FindError::Regex(_))));
    assert!(validate_regex(&mut cache, ".*\\.txt", false).is_ok());
}

#[test]
fn test_regex_case_insensitive_flag() {
    let mut cache = RegexCache::new();
    assert!(match_regex(&mut cache, "TEST.TXT", ".*\\.txt", true));
    assert!(!match_regex(&mut cache, "TEST.TXT", ".*\\.txt", false));
}

#[test]
fn test_regex_alternation_stays_anchored() {
    let mut cache = RegexCache::new();
    assert!(match_regex(&mut cache, "a.rs", ".*\\.rs|.*\\.py", false));
    assert!(match_regex(&mut cache, "a.py", ".*\\.rs|.*\\.py", false));
    assert!(!match_regex(&mut cache, "a.rsx", ".*\\.rs|.*\\.py", false));
    assert!(!match_regex(&mut cache, "xa.py!", "a\\.rs|a\\.py", false));
}

#[test]
fn test_cached_pattern_answers_repeat_queries() {
    let mut cache = RegexCache::new();
    assert!(match_regex(&mut cache, "one.txt", ".*\\.txt", false));
    assert!(match_regex(&mut cache, "two.txt", ".*\\.txt", false));
    assert!(!match_regex(&mut cache, "three.rs", ".*\\.txt", false));
    assert!(match_regex(&mut cache, "MIXED.TXT", ".*\\.txt", true));
}

#[test]
fn test_convert_wildcard_to_regex_escapes_and_translates() {
    assert_eq!(convert_wildcard_to_regex("*.rs"), ".*\\.rs");
    assert_eq!(convert_wildcard_to_regex("a?c"), "a.c");
    assert_eq!(convert_wildcard_to_regex("plain"), "plain");
    assert_eq!(convert_wildcard_to_regex("a+b(c)"), "a\\+b\\(c\\)");
}

#[test]
fn test_simple_pattern_match_behaves_like_wildcards() {
    let mut cache = RegexCache::new();
    assert!(simple_pattern_match(&mut cache, "main.rs", "*.rs", false));
    assert!(!simple_pattern_match(&mut cache, "main.py", "*.rs", false));
    assert!(simple_pattern_match(&mut cache, "a.txt", "?.txt", false));
    assert!(!simple_pattern_match(&mut cache, "ab.txt", "?.txt", false));
    assert!(simple_pattern_match(&mut cache, "MAIN.RS", "main.rs", true));
    assert!(simple_pattern_match(&mut cache, "main.rs", "main?rs", false));
    // the dot must be escaped: "a.rs" does not match the literal "axrs"
    assert!(!simple_pattern_match(&mut cache, "axrs", "a.rs", false));
}
