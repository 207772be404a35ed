use find_rs::finder::age_from;
use find_rs::finder::filter_entries;
use find_rs::finder::filter_hidden;
use find_rs::finder::match_file_type;
use find_rs::finder::match_mtime;
use find_rs::finder::match_size;
use find_rs::finder::outcome_passes;
use find_rs::finder::size_outcome;
use find_rs::finder::time_outcome;
use find_rs::finder::Outcome;
use find_rs::finder::WalkEntry;
use find_rs::regex_match::RegexCache;
use find_rs::types::EntryKind;
use find_rs::types::FileActions;
use find_rs::types::FilterType;
use find_rs::types::SearchCriteria;
use find_rs::types::SizeSpec;
use find_rs::types::TimeSpec;

fn entry(path: &str, name: &str, depth: usize, kind: EntryKind) -> WalkEntry {
    WalkEntry {
        path: path.to_string(),
        file_name: Some(name.to_string()),
        depth,
        kind,
        size: Some(10),
        age_ms: Some(1_000),
    }
}

fn no_criteria() -> SearchCriteria {
    SearchCriteria {
        name: None,
        regex: None,
        insensitive: false,
        size: None,
        mtime: None,
        filter_type: None,
        all: false,
        depth: None,
        follow_symlinks: false,
    }
}

fn sample_tree() -> Vec<WalkEntry> {
    vec![
        entry("root", "root", 0, EntryKind::Directory),
        entry("root/.hidden.rs", ".hidden.rs", 1, EntryKind::File),
        entry("root/a.rs", "a.rs", 1, EntryKind::File),
        entry("root/b.rs", "b.rs", 1, EntryKind::File),
        entry("root/sub", "sub", 1, EntryKind::Directory),
        entry("root/sub/c.rs", "c.rs", 2, EntryKind::File),
    ]
}

#[test]
fn test_find_rs_files() {
    // files main.rs, lib.rs, test.txt, .hidden.rs, src/main.rs and
    // src/lib.rs, searched with the name pattern "*.rs"
    let entries = vec![
        entry("dir", "dir", 0, EntryKind::Directory),
        entry("dir/.hidden.rs", ".hidden.rs", 1, EntryKind::File),
        entry("dir/lib.rs", "lib.rs", 1, EntryKind::File),
        entry("dir/main.rs", "main.rs", 1, EntryKind::File),
        entry("dir/src", "src", 1, EntryKind::Directory),
        entry("dir/src/lib.rs", "lib.rs", 2, EntryKind::File),
        entry("dir/src/main.rs", "main.rs", 2, EntryKind::File),
        entry("dir/test.txt", "test.txt", 1, EntryKind::File),
    ];
    let mut cache = RegexCache::new();
    let mut criteria = no_criteria();
    criteria.name = Some("*.rs".to_string());
    let matches = filter_entries(&entries, &criteria, &mut cache);
    assert_eq!(matches, vec!["dir/lib.rs", "dir/main.rs", "dir/src/lib.rs", "dir/src/main.rs"]);
}

#[test]
fn test_end_to_end_sorted_matches() {
    // files a.rs, b.rs, .hidden.rs, sub/c.rs; criteria name "*.rs" with
    // default hidden exclusion: a.rs, b.rs, sub/c.rs match, in order
    let mut cache = RegexCache::new();
    let mut criteria = no_criteria();
    criteria.name = Some("*.rs".to_string());
    let matches = filter_entries(&sample_tree(), &criteria, &mut cache);
    assert_eq!(matches, vec!["root/a.rs", "root/b.rs", "root/sub/c.rs"]);
}

#[test]
fn test_hidden_entries_are_included_with_all() {
    let mut cache = RegexCache::new();
    let mut criteria = no_criteria();
    criteria.name = Some("*.rs".to_string());
    criteria.all = true;
    let matches = filter_entries(&sample_tree(), &criteria, &mut cache);
    assert_eq!(matches, vec!["root/.hidden.rs", "root/a.rs", "root/b.rs", "root/sub/c.rs"]);
}

#[test]
fn test_depth_zero_yields_only_the_root_entry() {
    let mut cache = RegexCache::new();
    let mut criteria = no_criteria();
    criteria.depth = Some(0);
    let matches = filter_entries(&sample_tree(), &criteria, &mut cache);
    assert_eq!(matches, vec!["root"]);
}

#[test]
fn test_filtering_is_deterministic() {
    let mut cache = RegexCache::new();
    let mut criteria = no_criteria();
    criteria.regex = Some(".*\\.rs".to_string());
    let first = filter_entries(&sample_tree(), &criteria, &mut cache);
    let second = filter_entries(&sample_tree(), &criteria, &mut cache);
    assert_eq!(first, second);
    assert_eq!(first, vec!["root/a.rs", "root/b.rs", "root/sub/c.rs"]);
}

#[test]
fn test_type_filter_selects_directories() {
    let mut cache = RegexCache::new();
    let mut criteria = no_criteria();
    criteria.filter_type = Some(FilterType::Directory);
    let matches = filter_entries(&sample_tree(), &criteria, &mut cache);
    assert_eq!(matches, vec!["root", "root/sub"]);
}

#[test]
fn test_device_categories_never_match_unclassified_entries() {
    assert!(match_file_type(EntryKind::File, FilterType::File));
    assert!(match_file_type(EntryKind::Symlink, FilterType::Symlink));
    assert!(match_file_type(EntryKind::BlockDevice, FilterType::BlockDevice));
    assert!(!match_file_type(EntryKind::Unknown, FilterType::BlockDevice));
    assert!(!match_file_type(EntryKind::Unknown, FilterType::CharDevice));
    assert!(!match_file_type(EntryKind::Unknown, FilterType::Pipe));
    assert!(!match_file_type(EntryKind::Unknown, FilterType::Socket));
    assert!(!match_file_type(EntryKind::File, FilterType::Directory));
}

#[test]
fn test_size_filter_on_entries() {
    let mut cache = RegexCache::new();
    let mut criteria = no_criteria();
    criteria.size = Some(SizeSpec::GreaterThan(5));
    let mut small = entry("small", "small", 0, EntryKind::File);
    small.size = Some(5);
    let mut big = entry("big", "big", 0, EntryKind::File);
    big.size = Some(6);
    let matches = filter_entries(&vec![small, big], &criteria, &mut cache);
    assert_eq!(matches, vec!["big"]);
}

#[test]
fn test_failed_metadata_read_excludes_the_entry() {
    let mut cache = RegexCache::new();
    let mut criteria = no_criteria();
    criteria.size = Some(SizeSpec::LessThan(1_000_000));
    let mut unreadable = entry("gone", "gone", 0, EntryKind::File);
    unreadable.size = None;
    let matches = filter_entries(&vec![unreadable], &criteria, &mut cache);
    assert!(matches.is_empty());
}

#[test]
fn test_three_valued_outcomes_collapse_to_no_match() {
    assert_eq!(size_outcome(None, &SizeSpec::Equal(1)), Outcome::Indeterminate);
    assert_eq!(size_outcome(Some(1), &SizeSpec::Equal(1)), Outcome::Match);
    assert_eq!(size_outcome(Some(2), &SizeSpec::Equal(1)), Outcome::NoMatch);
    assert_eq!(time_outcome(None, &TimeSpec::OlderThan(1)), Outcome::Indeterminate);
    assert_eq!(time_outcome(Some(2), &TimeSpec::OlderThan(1)), Outcome::Match);
    assert!(outcome_passes(Outcome::Match));
    assert!(!outcome_passes(Outcome::NoMatch));
    assert!(!outcome_passes(Outcome::Indeterminate));
    assert!(!match_size(None, &SizeSpec::Equal(1)));
    assert!(!match_mtime(None, &TimeSpec::NewerThan(1_000_000)));
    assert!(match_mtime(Some(1), &TimeSpec::NewerThan(1_000_000)));
}

#[test]
fn test_age_of_future_or_missing_mtime_is_zero() {
    assert_eq!(age_from(1_000, None), None);
    assert_eq!(age_from(1_000, Some(None)), Some(0));
    assert_eq!(age_from(1_000, Some(Some(2_000))), Some(0));
    assert_eq!(age_from(2_000, Some(Some(500))), Some(1_500));
}

#[test]
fn test_hidden_filter_looks_at_base_name_only() {
    let dotted = entry("dir/.config", ".config", 1, EntryKind::File);
    assert!(!filter_hidden(&dotted, false));
    assert!(filter_hidden(&dotted, true));
    let inside_hidden_dir = entry(".git/config", "config", 2, EntryKind::File);
    assert!(filter_hidden(&inside_hidden_dir, false));
    let unnamed = WalkEntry {
        path: "odd".to_string(),
        file_name: None,
        depth: 0,
        kind: EntryKind::File,
        size: None,
        age_ms: None,
    };
    assert!(filter_hidden(&unnamed, false));
}

#[test]
fn test_non_utf8_name_matches_no_pattern() {
    let mut cache = RegexCache::new();
    let mut criteria = no_criteria();
    criteria.name = Some("*".to_string());
    let unnamed = WalkEntry {
        path: "odd".to_string(),
        file_name: None,
        depth: 0,
        kind: EntryKind::File,
        size: None,
        age_ms: None,
    };
    let matches = filter_entries(&vec![unnamed], &criteria, &mut cache);
    assert!(matches.is_empty());
}

#[test]
fn test_mtime_filter_on_entries() {
    let mut cache = RegexCache::new();
    let mut criteria = no_criteria();
    criteria.mtime = Some(TimeSpec::NewerThan(10_000));
    let mut fresh = entry("fresh", "fresh", 0, EntryKind::File);
    fresh.age_ms = Some(500);
    let mut stale = entry("stale", "stale", 0, EntryKind::File);
    stale.age_ms = Some(20_000);
    let matches = filter_entries(&vec![fresh, stale], &criteria, &mut cache);
    assert_eq!(matches, vec!["fresh"]);
}

#[test]
fn test_has_action_decides_the_default() {
    let none = FileActions { print: None, delete: false, force: false, exec_cmd: None };
    assert!(!none.has_action());
    let print = FileActions {
        print: Some("%p".to_string()),
        delete: false,
        force: false,
        exec_cmd: None,
    };
    assert!(print.has_action());
    let del = FileActions { print: None, delete: true, force: true, exec_cmd: None };
    assert!(del.has_action());
    let run = FileActions {
        print: None,
        delete: false,
        force: false,
        exec_cmd: Some("echo {}".to_string()),
    };
    assert!(run.has_action());
}
