//! The finder: the composed predicate chain over traversal entries,
//! and the driver that walks a configured traversal and collects the
//! matching paths in traversal order.
//!
//! Every metadata-dependent predicate has a three-valued outcome —
//! match, no match, or indeterminate because the metadata could not be
//! read — and indeterminate collapses to "no match" at the filter
//! boundary: a filesystem error excludes the entry, never aborts the
//! walk.

use vstd::prelude::*;

use crate::name::match_name;
use crate::name::spec_match_name;
use crate::regex_match::anchored_source;
use crate::regex_match::match_regex;
use crate::regex_match::regex_compiles;
use crate::regex_match::spec_match_regex;
use crate::regex_match::validate_regex;
use crate::regex_match::RegexCache;
use crate::types::Cli;
use crate::types::EntryKind;
use crate::types::FilterType;
use crate::types::FindError;
use crate::types::SearchCriteria;
use crate::types::SizeSpec;
use crate::types::TimeSpec;
use crate::walker::entry_depth;
use crate::walker::entry_file_name_utf8;
use crate::walker::entry_kind;
use crate::walker::entry_mtime_unix_ms;
use crate::walker::entry_path_string;
use crate::walker::entry_size;
use crate::walker::now_unix_ms;
use crate::walker::walker_into_iter;
use crate::walker::walker_next;

verus! {

/// One traversal entry, as the predicate chain sees it: the path, the
/// base name (`None` when not valid UTF-8), the depth below the root,
/// the classified type, and the lazily read metadata — `None` when the
/// read failed.
#[derive(Clone, Debug)]
pub struct WalkEntry {
    /// The full path, as printed.
    pub path: String,
    /// The base file name; `None` when it is not valid UTF-8.
    pub file_name: Option<String>,
    /// Path components below the root; the root entry is 0.
    pub depth: usize,
    /// The classified file type.
    pub kind: EntryKind,
    /// Size in bytes; `None` when the metadata read failed.
    pub size: Option<u64>,
    /// Age in milliseconds; `None` when the metadata read failed.
    pub age_ms: Option<u64>,
}

/// The three-valued outcome of a metadata-dependent predicate.
#[derive(Clone, Copy, Debug, PartialEq, Eq, Structural)]
pub enum Outcome {
    /// The metadata was read and satisfies the criterion.
    Match,
    /// The metadata was read and does not satisfy the criterion.
    NoMatch,
    /// The metadata could not be read.
    Indeterminate,
}

/// Collapsing at the filter boundary: only a definite match passes.
pub open spec fn spec_outcome_passes(o: Outcome) -> bool {
    o is Match
}

/// Collapses a three-valued outcome to the filter's answer:
/// indeterminate counts as no match.
pub fn outcome_passes(o: Outcome) -> (r: bool)
    ensures
        r == spec_outcome_passes(o),
{
    match o {
        Outcome::Match => true,
        Outcome::NoMatch => false,
        Outcome::Indeterminate => false,
    }
}

/// The outcome of the size criterion on a metadata read.
pub open spec fn spec_size_outcome(size: Option<u64>, s: SizeSpec) -> Outcome {
    match size {
        Some(b) => if s.spec_matches(b) {
            Outcome::Match
        } else {
            Outcome::NoMatch
        },
        None => Outcome::Indeterminate,
    }
}

/// Evaluates the size criterion against a (possibly failed) metadata
/// read.
pub fn size_outcome(size: Option<u64>, s: &SizeSpec) -> (r: Outcome)
    ensures
        r == spec_size_outcome(size, *s),
{
    match size {
        Some(b) => if s.matches(b) {
            Outcome::Match
        } else {
            Outcome::NoMatch
        },
        None => Outcome::Indeterminate,
    }
}

/// The outcome of the time criterion on a (possibly failed) age
/// computation.
pub open spec fn spec_time_outcome(age_ms: Option<u64>, t: TimeSpec) -> Outcome {
    match age_ms {
        Some(a) => if t.spec_matches(a) {
            Outcome::Match
        } else {
            Outcome::NoMatch
        },
        None => Outcome::Indeterminate,
    }
}

/// Evaluates the time criterion against a (possibly failed) age
/// computation.
pub fn time_outcome(age_ms: Option<u64>, t: &TimeSpec) -> (r: Outcome)
    ensures
        r == spec_time_outcome(age_ms, *t),
{
    match age_ms {
        Some(a) => if t.matches(a) {
            Outcome::Match
        } else {
            Outcome::NoMatch
        },
        None => Outcome::Indeterminate,
    }
}

/// Decides the size filter for one entry: a failed metadata read is
/// no match.
pub fn match_size(size: Option<u64>, s: &SizeSpec) -> (r: bool)
    ensures
        r == spec_outcome_passes(spec_size_outcome(size, *s)),
{
    outcome_passes(size_outcome(size, s))
}

/// Decides the time filter for one entry: a failed metadata read is
/// no match.
pub fn match_mtime(age_ms: Option<u64>, t: &TimeSpec) -> (r: bool)
    ensures
        r == spec_outcome_passes(spec_time_outcome(age_ms, *t)),
{
    outcome_passes(time_outcome(age_ms, t))
}

/// The age of an entry: now minus its modification time.  A missing
/// modification time, or one in the future, counts as age zero; a
/// failed metadata read stays indeterminate.
pub open spec fn spec_age_ms(now: u64, mtime: Option<Option<u64>>) -> Option<u64> {
    match mtime {
        None => None,
        Some(None) => Some(0u64),
        Some(Some(m)) => Some(if m > now {
            0u64
        } else {
            (now - m) as u64
        }),
    }
}

/// Computes an entry's age from the clock and its modification time.
pub fn age_from(now: u64, mtime: Option<Option<u64>>) -> (r: Option<u64>)
    ensures
        r == spec_age_ms(now, mtime),
{
    match mtime {
        None => None,
        Some(None) => Some(0),
        Some(Some(m)) => Some(if m > now {
            0
        } else {
            now - m
        }),
    }
}

/// Whether an entry's classified type satisfies the asked-for
/// category.  A category the classification could not name
/// (`Unknown`) satisfies none.
pub open spec fn spec_type_matches(k: EntryKind, f: FilterType) -> bool {
    match f {
        FilterType::File => k is File,
        FilterType::Directory => k is Directory,
        FilterType::Symlink => k is Symlink,
        FilterType::BlockDevice => k is BlockDevice,
        FilterType::CharDevice => k is CharDevice,
        FilterType::Pipe => k is Pipe,
        FilterType::Socket => k is Socket,
    }
}

/// Decides the type filter for one classified entry.
pub fn match_file_type(k: EntryKind, f: FilterType) -> (r: bool)
    ensures
        r == spec_type_matches(k, f),
{
    match f {
        FilterType::File => k == EntryKind::File,
        FilterType::Directory => k == EntryKind::Directory,
        FilterType::Symlink => k == EntryKind::Symlink,
        FilterType::BlockDevice => k == EntryKind::BlockDevice,
        FilterType::CharDevice => k == EntryKind::CharDevice,
        FilterType::Pipe => k == EntryKind::Pipe,
        FilterType::Socket => k == EntryKind::Socket,
    }
}

/// Whether the hidden-entry filter keeps an entry: everything is kept
/// when `all` is set; otherwise an entry whose own base name starts
/// with a dot is excluded.  Only the base name is examined, and a
/// non-UTF-8 name is kept.
pub open spec fn spec_hidden_kept(e: WalkEntry, all: bool) -> bool {
    all || match e.file_name {
        Some(n) => !(n@.len() > 0 && n@[0] == '.'),
        None => true,
    }
}

/// Decides the hidden-entry filter for one entry.
pub fn filter_hidden(e: &WalkEntry, all: bool) -> (r: bool)
    ensures
        r == spec_hidden_kept(*e, all),
{
    if all {
        return true;
    }
    match &e.file_name {
        Some(n) => {
            let s = n.as_str();
            if s.unicode_len() == 0 {
                true
            } else {
                s.get_char(0) != '.'
            }
        },
        None => true,
    }
}

/// Whether an entry's depth lies within the configured bound.  The
/// traversal itself already enforces the bound; the engine checks it
/// again so that the property is part of the verified chain.
pub open spec fn spec_depth_ok(e: WalkEntry, c: SearchCriteria) -> bool {
    match c.depth {
        Some(d) => e.depth <= d as usize,
        None => true,
    }
}

/// The type clause of the criteria: vacuously true when no type filter
/// is configured.
pub open spec fn spec_type_clause(e: WalkEntry, c: SearchCriteria) -> bool {
    match c.filter_type {
        Some(f) => spec_type_matches(e.kind, f),
        None => true,
    }
}

/// The name clause of the criteria: a non-UTF-8 name never matches a
/// pattern.
pub open spec fn spec_name_clause(e: WalkEntry, c: SearchCriteria) -> bool {
    match c.name {
        Some(p) => match e.file_name {
            Some(n) => spec_match_name(n@, p@, c.insensitive),
            None => false,
        },
        None => true,
    }
}

/// The regex clause of the criteria: a non-UTF-8 name never matches.
pub open spec fn spec_regex_clause(e: WalkEntry, c: SearchCriteria) -> bool {
    match c.regex {
        Some(p) => match e.file_name {
            Some(n) => spec_match_regex(n@, p@, c.insensitive),
            None => false,
        },
        None => true,
    }
}

/// The size clause of the criteria.
pub open spec fn spec_size_clause(e: WalkEntry, c: SearchCriteria) -> bool {
    match c.size {
        Some(s) => spec_outcome_passes(spec_size_outcome(e.size, s)),
        None => true,
    }
}

/// The time clause of the criteria.
pub open spec fn spec_time_clause(e: WalkEntry, c: SearchCriteria) -> bool {
    match c.mtime {
        Some(t) => spec_outcome_passes(spec_time_outcome(e.age_ms, t)),
        None => true,
    }
}

/// The whole predicate chain on one entry: every configured filter
/// must pass, an absent filter is vacuously true.
pub open spec fn spec_matches_criteria(e: WalkEntry, c: SearchCriteria) -> bool {
    &&& spec_type_clause(e, c)
    &&& spec_name_clause(e, c)
    &&& spec_regex_clause(e, c)
    &&& spec_size_clause(e, c)
    &&& spec_time_clause(e, c)
}

/// Whether the finder selects an entry: it lies within the depth
/// bound, survives the hidden-entry filter, and satisfies every
/// configured criterion.
pub open spec fn spec_entry_selected(e: WalkEntry, c: SearchCriteria) -> bool {
    &&& spec_depth_ok(e, c)
    &&& spec_hidden_kept(e, c.all)
    &&& spec_matches_criteria(e, c)
}

/// Evaluates the predicate chain on one entry, cheapest clause first,
/// stopping at the first that fails.
pub fn matches_criteria(e: &WalkEntry, c: &SearchCriteria, cache: &mut RegexCache) -> (r: bool)
    requires
        old(cache).wf(),
    ensures
        final(cache).wf(),
        r == spec_matches_criteria(*e, *c),
{
    match &c.filter_type {
        Some(f) => {
            if !match_file_type(e.kind, *f) {
                return false;
            }
        },
        None => {},
    }
    match &c.name {
        Some(p) => {
            match &e.file_name {
                Some(n) => {
                    if !match_name(n.as_str(), p.as_str(), c.insensitive) {
                        return false;
                    }
                },
                None => {
                    return false;
                },
            }
        },
        None => {},
    }
    match &c.regex {
        Some(p) => {
            match &e.file_name {
                Some(n) => {
                    if !match_regex(cache, n.as_str(), p.as_str(), c.insensitive) {
                        return false;
                    }
                },
                None => {
                    return false;
                },
            }
        },
        None => {},
    }
    match &c.size {
        Some(s) => {
            if !match_size(e.size, s) {
                return false;
            }
        },
        None => {},
    }
    match &c.mtime {
        Some(t) => {
            if !match_mtime(e.age_ms, t) {
                return false;
            }
        },
        None => {},
    }
    true
}

/// Decides whether the finder selects an entry.
pub fn entry_selected(e: &WalkEntry, c: &SearchCriteria, cache: &mut RegexCache) -> (r: bool)
    requires
        old(cache).wf(),
    ensures
        final(cache).wf(),
        r == spec_entry_selected(*e, *c),
{
    let depth_ok = match &c.depth {
        Some(d) => e.depth <= (*d as usize),
        None => true,
    };
    if !depth_ok {
        return false;
    }
    if !filter_hidden(e, c.all) {
        return false;
    }
    matches_criteria(e, c, cache)
}

/// The views of a sequence of path strings.
pub open spec fn paths_view(v: Seq<String>) -> Seq<Seq<char>> {
    v.map_values(|s: String| s@)
}

/// The paths of the selected entries, in order.
pub open spec fn spec_selected_paths(es: Seq<WalkEntry>, c: SearchCriteria) -> Seq<Seq<char>>
    decreases es.len(),
{
    if es.len() == 0 {
        Seq::empty()
    } else {
        let rest = spec_selected_paths(es.drop_last(), c);
        if spec_entry_selected(es.last(), c) {
            rest.push(es.last().path@)
        } else {
            rest
        }
    }
}

/// Filters an already-materialized sequence of entries, keeping the
/// selected ones' paths in order.  This is the finder's pure core:
/// the same entries and criteria always yield the same paths.
pub fn filter_entries(entries: &Vec<WalkEntry>, c: &SearchCriteria, cache: &mut RegexCache) -> (r:
    Vec<String>)
    requires
        old(cache).wf(),
    ensures
        final(cache).wf(),
        paths_view(r@) == spec_selected_paths(entries@, *c),
{
    let mut out: Vec<String> = Vec::new();
    let mut i: usize = 0;
    proof {
        assert(entries@.take(0) =~= Seq::<WalkEntry>::empty());
        assert(paths_view(out@) =~= spec_selected_paths(entries@.take(0), *c));
    }
    while i < entries.len()
        invariant
            old(cache).wf() ==> cache.wf(),
            cache.wf(),
            i <= entries@.len(),
            paths_view(out@) == spec_selected_paths(entries@.take(i as int), *c),
        decreases entries@.len() - i,
    {
        let ghost prev = out@;
        let e = &entries[i];
        if entry_selected(e, c, cache) {
            out.push(e.path.clone());
        }
        proof {
            assert(entries@.take(i + 1).drop_last() =~= entries@.take(i as int));
            assert(entries@.take(i + 1).last() == entries@[i as int]);
            assert(paths_view(out@) =~= spec_selected_paths(entries@.take(i + 1), *c));
        }
        i = i + 1;
    }
    proof {
        assert(entries@.take(entries@.len() as int) =~= entries@);
    }
    out
}

/// Reads one traversal entry into a `WalkEntry` and decides whether
/// the finder selects it.  Metadata is read lazily: only when the
/// criteria ask for it and the cheap filters have already passed, and
/// each metadata-backed predicate performs its own read.
fn evaluate_entry(de: &walkdir::DirEntry, c: &SearchCriteria, cache: &mut RegexCache) -> (r: (
    WalkEntry,
    bool,
))
    requires
        old(cache).wf(),
    ensures
        final(cache).wf(),
        r.1 == spec_entry_selected(r.0, *c),
{
    let path = entry_path_string(de);
    let file_name = entry_file_name_utf8(de);
    let depth = entry_depth(de);
    let kind = entry_kind(de);
    let mut e = WalkEntry { path, file_name, depth, kind, size: None, age_ms: None };
    let depth_ok = match &c.depth {
        Some(d) => e.depth <= (*d as usize),
        None => true,
    };
    let cheap = depth_ok && filter_hidden(&e, c.all) && {
        let type_ok = match &c.filter_type {
            Some(f) => match_file_type(e.kind, *f),
            None => true,
        };
        type_ok
    };
    if cheap {
        if c.size.is_some() {
            e.size = entry_size(de);
        }
        if c.mtime.is_some() {
            let m = entry_mtime_unix_ms(de);
            let now = now_unix_ms();
            e.age_ms = age_from(now, m);
        }
    }
    let sel = entry_selected(&e, c, cache);
    (e, sel)
}

/// Drives a configured traversal and collects the matching paths, in
/// the traversal's order.
///
/// When a regex criterion is configured it is compiled first, before
/// any traversal, and an invalid pattern aborts with
/// `FindError::Regex` — exactly then is the result an error.  The
/// collected paths are the selected ones of the entries the traversal
/// yielded: there is a sequence of entries (the yielded ones, in
/// order) whose selection gives exactly the result.  Entries that
/// error during traversal are skipped silently.
pub fn find_files(walker: walkdir::WalkDir, cli: &Cli, cache: &mut RegexCache) -> (r: Result<
    Vec<String>,
    FindError,
>)
    requires
        old(cache).wf(),
    ensures
        final(cache).wf(),
        (r is Err) == (match cli.criteria.regex {
            Some(p) => !regex_compiles(anchored_source(p@, cli.criteria.insensitive)),
            None => false,
        }),
        r matches Err(e) ==> e matches FindError::Regex(_),
        r matches Ok(paths) ==> exists|es: Seq<WalkEntry>|
            paths_view(paths@) == spec_selected_paths(es, cli.criteria),
{
    match &cli.criteria.regex {
        Some(p) => {
            match validate_regex(cache, p.as_str(), cli.criteria.insensitive) {
                Ok(()) => {},
                Err(err) => {
                    return Err(err);
                },
            }
        },
        None => {},
    }
    let mut it = walker_into_iter(walker);
    let mut out: Vec<String> = Vec::new();
    let ghost mut seen: Seq<WalkEntry> = Seq::empty();
    proof {
        assert(paths_view(out@) =~= spec_selected_paths(seen, cli.criteria));
    }
    let mut fuel: u64 = u64::MAX;
    while fuel > 0
        invariant
            cache.wf(),
            paths_view(out@) == spec_selected_paths(seen, cli.criteria),
        decreases fuel,
    {
        match walker_next(&mut it) {
            None => {
                break ;
            },
            Some(None) => {
                // an entry that errored during traversal: skipped
            },
            Some(Some(de)) => {
                let ghost prev_out = out@;
                let ghost prev_seen = seen;
                let (e, sel) = evaluate_entry(&de, &cli.criteria, cache);
                let ghost ep = e.path@;
                proof {
                    seen = prev_seen.push(e);
                    assert(seen.drop_last() =~= prev_seen);
                    assert(seen.last() == e);
                }
                if sel {
                    out.push(e.path);
                    proof {
                        assert(paths_view(out@) =~= paths_view(prev_out).push(ep));
                    }
                }
                proof {
                    assert(paths_view(out@) =~= spec_selected_paths(seen, cli.criteria));
                }
            },
        }
        fuel = fuel - 1;
    }
    proof {
        assert(exists|es: Seq<WalkEntry>|
            paths_view(out@) == spec_selected_paths(es, cli.criteria)) by {
            assert(paths_view(out@) == spec_selected_paths(seen, cli.criteria));
        }
    }
    Ok(out)
}


/// The depth-boundary law: an entry beyond the configured depth bound
/// is never selected; with a bound of zero only the root entry itself
/// (depth 0) can be a match, never any child.
pub proof fn lemma_depth_bound(e: WalkEntry, c: SearchCriteria, d: u8)
    requires
        c.depth == Some(d),
        spec_entry_selected(e, c),
    ensures
        e.depth <= d as usize,
{
}

} // verus!
