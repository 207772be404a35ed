use find_rs::types::parse_size_spec;
use find_rs::types::parse_time_spec;
use find_rs::types::FindError;
use find_rs::types::SizeSpec;
use find_rs::types::TimeSpec;

#[test]
fn test_parse_size_plus_one_megabyte() {
    let spec = parse_size_spec("+1M").unwrap();
    assert_eq!(spec, SizeSpec::GreaterThan(1048576));
    assert!(spec.matches(2 * 1024 * 1024));
    assert!(!spec.matches(1024));
}

#[test]
fn test_parse_size_operators_and_units() {
    assert_eq!(parse_size_spec("-500K").unwrap(), SizeSpec::LessThan(512000));
    assert_eq!(parse_size_spec("100").unwrap(), SizeSpec::Equal(100));
    assert_eq!(parse_size_spec("=100").unwrap(), SizeSpec::Equal(100));
    assert_eq!(parse_size_spec("+2g").unwrap(), SizeSpec::GreaterThan(2147483648));
    assert_eq!(parse_size_spec("3k").unwrap(), SizeSpec::Equal(3072));
    assert_eq!(parse_size_spec("0").unwrap(), SizeSpec::Equal(0));
}

#[test]
fn test_parse_size_trims_whitespace() {
    assert_eq!(parse_size_spec("  +1k \n").unwrap(), SizeSpec::GreaterThan(1024));
}

#[test]
fn test_parse_size_rejects_bad_text() {
    assert!(matches!(parse_size_spec(""), Err(FindError::SizeSpec(_))));
    assert!(matches!(parse_size_spec("abc"), Err(FindError::SizeSpec(_))));
    assert!(matches!(parse_size_spec("12x"), Err(FindError::SizeSpec(_))));
    assert!(matches!(parse_size_spec("++1"), Err(FindError::SizeSpec(_))));
    assert!(matches!(parse_size_spec("k"), Err(FindError::SizeSpec(_))));
    assert!(matches!(parse_size_spec("1 0"), Err(FindError::SizeSpec(_))));
    assert!(matches!(parse_size_spec("-1.5M"), Err(FindError::SizeSpec(_))));
}

#[test]
fn test_parse_size_rejects_overflow() {
    assert!(matches!(parse_size_spec("99999999999999999999999"), Err(FindError::SizeSpec(_))));
    assert!(matches!(parse_size_spec("99999999999999999g"), Err(FindError::SizeSpec(_))));
    assert_eq!(parse_size_spec("18446744073709551615").unwrap(), SizeSpec::Equal(u64::MAX));
}

#[test]
fn test_size_spec_matches_boundaries() {
    let g = SizeSpec::GreaterThan(100);
    assert!(!g.matches(100));
    assert!(g.matches(101));
    let l = SizeSpec::LessThan(100);
    assert!(!l.matches(100));
    assert!(l.matches(99));
    let e = SizeSpec::Equal(100);
    assert!(e.matches(100));
    assert!(!e.matches(99));
    assert!(!e.matches(101));
}

#[test]
fn test_parse_time_units() {
    assert_eq!(parse_time_spec("10s").unwrap(), TimeSpec::Equal(10_000));
    assert_eq!(parse_time_spec("-30m").unwrap(), TimeSpec::OlderThan(1_800_000));
    assert_eq!(parse_time_spec("24h").unwrap(), TimeSpec::Equal(86_400_000));
    assert_eq!(parse_time_spec("+7d").unwrap(), TimeSpec::NewerThan(604_800_000));
    assert_eq!(parse_time_spec("2w").unwrap(), TimeSpec::Equal(1_209_600_000));
    assert_eq!(parse_time_spec("1M").unwrap(), TimeSpec::Equal(2_592_000_000));
    assert_eq!(parse_time_spec("1y").unwrap(), TimeSpec::Equal(31_536_000_000));
}

#[test]
fn test_parse_time_rejects_bad_text() {
    assert!(matches!(parse_time_spec(""), Err(FindError::TimeSpec(_))));
    assert!(matches!(parse_time_spec("7"), Err(FindError::TimeSpec(_))));
    assert!(matches!(parse_time_spec("7q"), Err(FindError::TimeSpec(_))));
    assert!(matches!(parse_time_spec("s"), Err(FindError::TimeSpec(_))));
    assert!(matches!(parse_time_spec("+d"), Err(FindError::TimeSpec(_))));
    assert!(matches!(parse_time_spec("7S"), Err(FindError::TimeSpec(_))));
    assert!(matches!(parse_time_spec("99999999999999999999y"), Err(FindError::TimeSpec(_))));
}

#[test]
fn test_time_spec_equal_tolerance_window() {
    let spec = TimeSpec::Equal(10_000);
    assert!(spec.matches(10_000));
    assert!(!spec.matches(8_500));
    assert!(spec.matches(9_000));
    assert!(spec.matches(11_000));
    assert!(!spec.matches(8_999));
    assert!(!spec.matches(11_001));
}

#[test]
fn test_time_spec_newer_older_are_strict() {
    let newer = TimeSpec::NewerThan(5_000);
    assert!(newer.matches(4_999));
    assert!(!newer.matches(5_000));
    let older = TimeSpec::OlderThan(5_000);
    assert!(older.matches(5_001));
    assert!(!older.matches(5_000));
}

#[test]
fn test_time_spec_equal_near_zero_does_not_underflow() {
    let spec = TimeSpec::Equal(500);
    assert!(spec.matches(0));
    assert!(spec.matches(1_500));
    assert!(!spec.matches(1_501));
}
