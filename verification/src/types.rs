//! Configuration values for the matching engine: size and time
//! specifications with their textual grammars, the file-type filter,
//! search criteria, actions, and the error taxonomy.

use vstd::prelude::*;

verus! {

/// A size criterion, in exact bytes.
///
/// `GreaterThan(n)` matches sizes strictly above `n`, `LessThan(n)`
/// strictly below, `Equal(n)` exactly `n`.
#[derive(Clone, Copy, Debug, PartialEq, Eq, Structural)]
pub enum SizeSpec {
    GreaterThan(u64),
    LessThan(u64),
    Equal(u64),
}

impl SizeSpec {
    /// What it means for a file of `size` bytes to satisfy this criterion.
    pub open spec fn spec_matches(self, size: u64) -> bool {
        match self {
            SizeSpec::GreaterThan(n) => size > n,
            SizeSpec::LessThan(n) => size < n,
            SizeSpec::Equal(n) => size == n,
        }
    }

    /// Decides whether a file of exactly `size` bytes satisfies this criterion.
    pub fn matches(&self, size: u64) -> (r: bool)
        ensures
            r == self.spec_matches(size),
    {
        match self {
            SizeSpec::GreaterThan(n) => size > *n,
            SizeSpec::LessThan(n) => size < *n,
            SizeSpec::Equal(n) => size == *n,
        }
    }
}

/// A modification-age criterion, in milliseconds of age (now minus
/// modification time).
///
/// `NewerThan(l)` matches ages strictly below `l`, `OlderThan(l)`
/// strictly above, and `Equal(l)` ages within one second of `l`.
#[derive(Clone, Copy, Debug, PartialEq, Eq, Structural)]
pub enum TimeSpec {
    NewerThan(u64),
    OlderThan(u64),
    Equal(u64),
}

/// The tolerance of `TimeSpec::Equal`, in milliseconds.
pub const EQUAL_TOLERANCE_MS: u64 = 1000;

impl TimeSpec {
    /// What it means for a file of age `age_ms` milliseconds to satisfy
    /// this criterion.  `Equal` allows one second of slack on both
    /// sides, inclusively.
    pub open spec fn spec_matches(self, age_ms: u64) -> bool {
        match self {
            TimeSpec::NewerThan(l) => age_ms < l,
            TimeSpec::OlderThan(l) => age_ms > l,
            TimeSpec::Equal(l) => l - EQUAL_TOLERANCE_MS <= age_ms as int <= l
                + EQUAL_TOLERANCE_MS,
        }
    }

    /// Decides whether a file whose age is exactly `age_ms` milliseconds
    /// satisfies this criterion.
    pub fn matches(&self, age_ms: u64) -> (r: bool)
        ensures
            r == self.spec_matches(age_ms),
    {
        match self {
            TimeSpec::NewerThan(l) => age_ms < *l,
            TimeSpec::OlderThan(l) => age_ms > *l,
            TimeSpec::Equal(l) => age_ms >= l.saturating_sub(EQUAL_TOLERANCE_MS) && age_ms
                <= l.saturating_add(EQUAL_TOLERANCE_MS),
        }
    }
}

/// The file-type categories a search can ask for.
#[derive(Clone, Copy, Debug, PartialEq, Eq, Structural)]
pub enum FilterType {
    File,
    Directory,
    Symlink,
    BlockDevice,
    CharDevice,
    Pipe,
    Socket,
}

/// The classified type of one traversal entry.
///
/// `Unknown` stands for every category the classification at hand
/// cannot name; a `FilterType` never accepts it.
#[derive(Clone, Copy, Debug, PartialEq, Eq, Structural)]
pub enum EntryKind {
    File,
    Directory,
    Symlink,
    BlockDevice,
    CharDevice,
    Pipe,
    Socket,
    Unknown,
}

/// The error taxonomy: configuration-time failures and the failures of
/// the surrounding action layer.
#[derive(Clone, Debug, PartialEq, Eq)]
pub enum FindError {
    /// An I/O failure, with its description.
    Io(String),
    /// An invalid regular-expression pattern.
    Regex(String),
    /// An invalid size specification text.
    SizeSpec(String),
    /// An invalid time specification text.
    TimeSpec(String),
    /// No applicable action.
    NoAction,
    /// A path that cannot be searched.
    PathError(String),
    /// A failed command execution.
    CommandError(String),
    /// An invalid print format string.
    FormatError(String),
}

/// The search criteria, owned by the caller and read by every matching
/// function.
///
/// At most one of `name` and `regex` is meant to be set; the exclusion
/// is enforced when the configuration is built (see
/// [`SearchCriteria::matcher_exclusive`]), not inside the matching
/// engine, which is total.
#[derive(Clone, Debug)]
pub struct SearchCriteria {
    /// Wildcard or literal file-name pattern.
    pub name: Option<String>,
    /// Regular-expression file-name pattern.
    pub regex: Option<String>,
    /// Case-insensitive matching.
    pub insensitive: bool,
    /// Size criterion.
    pub size: Option<SizeSpec>,
    /// Modification-age criterion.
    pub mtime: Option<TimeSpec>,
    /// File-type criterion.
    pub filter_type: Option<FilterType>,
    /// Include hidden entries.
    pub all: bool,
    /// Maximum traversal depth below the root; depth 0 is the root
    /// entry itself.
    pub depth: Option<u8>,
    /// Follow symbolic links while traversing.
    pub follow_symlinks: bool,
}

impl SearchCriteria {
    /// The configuration-time invariant: a name pattern and a regex
    /// pattern are mutually exclusive.
    pub open spec fn matcher_exclusive(self) -> bool {
        self.name is None || self.regex is None
    }
}

/// The actions to perform on the matched paths.
#[derive(Clone, Debug)]
pub struct FileActions {
    /// Print with a format string.
    pub print: Option<String>,
    /// Delete, with confirmation unless forced.
    pub delete: bool,
    /// Delete without confirmation.
    pub force: bool,
    /// Run a command on each match.
    pub exec_cmd: Option<String>,
}

impl FileActions {
    /// Whether any action is configured.
    pub open spec fn spec_has_action(self) -> bool {
        self.print is Some || self.exec_cmd is Some || self.delete
    }

    /// Decides whether any action is configured; when none is, the
    /// caller falls back to printing each path.
    pub fn has_action(&self) -> (r: bool)
        ensures
            r == self.spec_has_action(),
    {
        self.print.is_some() || self.exec_cmd.is_some() || self.delete
    }
}

/// One invocation's whole configuration: the root to search, the
/// criteria, and the actions.
#[derive(Clone, Debug)]
pub struct Cli {
    /// The directory to search in.
    pub path: String,
    /// The search criteria.
    pub criteria: SearchCriteria,
    /// The actions on matches.
    pub actions: FileActions,
}

// ---------------------------------------------------------------------
// The textual grammars of size and time specifications.
//
// A size specification is `^([+-=]?)(\d+)([kKmMgG]?)$`: an optional
// operator, a decimal number, an optional binary unit.  A time
// specification is `^([+-=]?)(\d+)([smhdwMy])$`: the unit is required.
// Surrounding ASCII whitespace is ignored.
// ---------------------------------------------------------------------

/// ASCII whitespace, the only whitespace the specification texts may
/// carry around their content.
pub open spec fn is_ascii_space(c: char) -> bool {
    c == ' ' || c == '\t' || c == '\n' || c == '\r'
}

/// `s` with its leading ASCII whitespace removed.
pub open spec fn trim_front(s: Seq<char>) -> Seq<char>
    decreases s.len(),
{
    if s.len() > 0 && is_ascii_space(s[0]) {
        trim_front(s.skip(1))
    } else {
        s
    }
}

/// `s` with its trailing ASCII whitespace removed.
pub open spec fn trim_back(s: Seq<char>) -> Seq<char>
    decreases s.len(),
{
    if s.len() > 0 && is_ascii_space(s.last()) {
        trim_back(s.drop_last())
    } else {
        s
    }
}

/// `s` with whitespace removed on both sides.
pub open spec fn trimmed(s: Seq<char>) -> Seq<char> {
    trim_back(trim_front(s))
}

/// A decimal digit.
pub open spec fn is_digit(c: char) -> bool {
    '0' <= c && c <= '9'
}

/// The value of one decimal digit; other characters count as zero.
pub open spec fn digit_val(c: char) -> nat {
    if is_digit(c) {
        ((c as u8) - 48) as nat
    } else {
        0
    }
}

/// Whether every character of `s` is a decimal digit.
pub open spec fn all_digits(s: Seq<char>) -> bool {
    forall|i: int| 0 <= i < s.len() ==> is_digit(s[i])
}

/// The value of a decimal numeral, most significant digit first.
pub open spec fn digits_val(s: Seq<char>) -> nat
    decreases s.len(),
{
    if s.len() == 0 {
        0
    } else {
        digits_val(s.drop_last()) * 10 + digit_val(s.last())
    }
}

/// A numeral's value is at least the value of any of its prefixes.
pub proof fn lemma_digits_val_prefix(s: Seq<char>, k: int)
    requires
        0 <= k <= s.len(),
    ensures
        digits_val(s.take(k)) <= digits_val(s),
    decreases s.len(),
{
    if k < s.len() {
        lemma_digits_val_prefix(s.drop_last(), k);
        assert(s.drop_last().take(k) =~= s.take(k));
    } else {
        assert(s.take(k) =~= s);
    }
}

/// Whether the specification text opens with an explicit operator.
pub open spec fn spec_has_op(t: Seq<char>) -> bool {
    t.len() > 0 && (t[0] == '+' || t[0] == '-' || t[0] == '=')
}

/// The operator character of a specification text; `=` when absent.
pub open spec fn spec_op(t: Seq<char>) -> char {
    if spec_has_op(t) {
        t[0]
    } else {
        '='
    }
}

/// The text after the operator.
pub open spec fn spec_body(t: Seq<char>) -> Seq<char> {
    if spec_has_op(t) {
        t.skip(1)
    } else {
        t
    }
}

/// A size unit character.
pub open spec fn is_size_unit(c: char) -> bool {
    c == 'k' || c == 'K' || c == 'm' || c == 'M' || c == 'g' || c == 'G'
}

/// The byte multiplier of a size unit character.
pub open spec fn size_unit_mult(c: char) -> nat {
    if c == 'k' || c == 'K' {
        1024
    } else if c == 'm' || c == 'M' {
        1048576
    } else {
        1073741824
    }
}

/// Whether the size body ends in a unit character.
pub open spec fn size_has_unit(b: Seq<char>) -> bool {
    b.len() > 0 && is_size_unit(b.last())
}

/// The numeral part of a size body.
pub open spec fn size_num(b: Seq<char>) -> Seq<char> {
    if size_has_unit(b) {
        b.drop_last()
    } else {
        b
    }
}

/// The multiplier of a size body; 1 without a unit.
pub open spec fn size_mult(b: Seq<char>) -> nat {
    if size_has_unit(b) {
        size_unit_mult(b.last())
    } else {
        1
    }
}

/// What parsing a size specification yields: `None` exactly on texts
/// that break the grammar or whose value does not fit in `u64` bytes.
pub open spec fn spec_parse_size(s: Seq<char>) -> Option<SizeSpec> {
    let t = trimmed(s);
    let b = spec_body(t);
    let num = size_num(b);
    let mult = size_mult(b);
    if num.len() == 0 || !all_digits(num) {
        None
    } else if digits_val(num) > u64::MAX {
        None
    } else if digits_val(num) * mult > u64::MAX {
        None
    } else {
        let val = (digits_val(num) * mult) as u64;
        if spec_op(t) == '+' {
            Some(SizeSpec::GreaterThan(val))
        } else if spec_op(t) == '-' {
            Some(SizeSpec::LessThan(val))
        } else {
            Some(SizeSpec::Equal(val))
        }
    }
}

/// A time unit character.  The month and the year have fixed
/// multipliers: 30 and 365 days.
pub open spec fn is_time_unit(c: char) -> bool {
    c == 's' || c == 'm' || c == 'h' || c == 'd' || c == 'w' || c == 'M' || c == 'y'
}

/// The millisecond multiplier of a time unit character.
pub open spec fn time_unit_mult_ms(c: char) -> nat {
    if c == 's' {
        1000
    } else if c == 'm' {
        60000
    } else if c == 'h' {
        3600000
    } else if c == 'd' {
        86400000
    } else if c == 'w' {
        604800000
    } else if c == 'M' {
        2592000000
    } else {
        31536000000
    }
}

/// What parsing a time specification yields: `None` exactly on texts
/// that break the grammar or whose value does not fit in `u64`
/// milliseconds.
pub open spec fn spec_parse_time(s: Seq<char>) -> Option<TimeSpec> {
    let t = trimmed(s);
    let b = spec_body(t);
    if b.len() == 0 || !is_time_unit(b.last()) {
        None
    } else {
        let num = b.drop_last();
        let mult = time_unit_mult_ms(b.last());
        if num.len() == 0 || !all_digits(num) {
            None
        } else if digits_val(num) > u64::MAX {
            None
        } else if digits_val(num) * mult > u64::MAX {
            None
        } else {
            let val = (digits_val(num) * mult) as u64;
            if spec_op(t) == '+' {
                Some(TimeSpec::NewerThan(val))
            } else if spec_op(t) == '-' {
                Some(TimeSpec::OlderThan(val))
            } else {
                Some(TimeSpec::Equal(val))
            }
        }
    }
}

/// Whether `c` is ASCII whitespace.
fn is_space_exec(c: char) -> (r: bool)
    ensures
        r == is_ascii_space(c),
{
    c == ' ' || c == '\t' || c == '\n' || c == '\r'
}

/// The bounds of `v` with surrounding ASCII whitespace removed:
/// `v[lo..hi]` is the trimmed text.
fn trim_bounds(v: &Vec<char>) -> (r: (usize, usize))
    ensures
        r.0 <= r.1 <= v@.len(),
        v@.subrange(r.0 as int, r.1 as int) == trimmed(v@),
{
    let n = v.len();
    let mut lo: usize = 0;
    proof {
        assert(v@.skip(0) =~= v@);
    }
    while lo < n && is_space_exec(v[lo])
        invariant
            lo <= n,
            n == v@.len(),
            trim_front(v@) == trim_front(v@.skip(lo as int)),
        decreases n - lo,
    {
        proof {
            assert(v@.skip(lo as int)[0] == v@[lo as int]);
            assert(v@.skip(lo as int).skip(1) =~= v@.skip(lo as int + 1));
        }
        lo = lo + 1;
    }
    proof {
        assert(trim_front(v@.skip(lo as int)) == v@.skip(lo as int));
    }
    let ghost u = v@.skip(lo as int);
    let mut hi: usize = n;
    proof {
        assert(u.take((n - lo) as int) =~= u);
    }
    while hi > lo && is_space_exec(v[hi - 1])
        invariant
            lo <= hi <= n,
            n == v@.len(),
            u == v@.skip(lo as int),
            trim_back(u) == trim_back(u.take(hi - lo)),
        decreases hi,
    {
        proof {
            let k = (hi - lo) as int;
            assert(u.take(k).last() == v@[hi - 1]);
            assert(u.take(k).drop_last() =~= u.take(k - 1));
        }
        hi = hi - 1;
    }
    proof {
        assert(trim_back(u.take((hi - lo) as int)) == u.take((hi - lo) as int));
        assert(u.take((hi - lo) as int) =~= v@.subrange(lo as int, hi as int));
    }
    (lo, hi)
}

/// Parses a size specification such as `+1M`, `-500K` or `100`.
///
/// Returns the parsed criterion exactly when the text fits the grammar
/// `^([+-=]?)(\d+)([kKmMgG]?)$` (after trimming ASCII whitespace) and
/// the byte value fits in `u64`; every other text yields
/// `FindError::SizeSpec`.
pub fn parse_size_spec(s: &str) -> (r: Result<SizeSpec, FindError>)
    ensures
        match spec_parse_size(s@) {
            Some(v) => r matches Ok(u) && u == v,
            None => r matches Err(e) && (e matches FindError::SizeSpec(_)),
        },
{
    let v = crate::name::chars_of(s);
    let (lo, hi) = trim_bounds(&v);
    let ghost t = trimmed(s@);
    let mut idx = lo;
    let mut op: char = '=';
    if idx < hi && (v[idx] == '+' || v[idx] == '-' || v[idx] == '=') {
        op = v[idx];
        idx = idx + 1;
    }
    proof {
        assert(op == spec_op(t));
        assert(v@.subrange(idx as int, hi as int) =~= spec_body(t));
    }
    let ghost b = spec_body(t);
    let mut dend = hi;
    let mut mult: u64 = 1;
    if dend > idx {
        let c = v[dend - 1];
        if c == 'k' || c == 'K' {
            mult = 1024;
            dend = dend - 1;
        } else if c == 'm' || c == 'M' {
            mult = 1048576;
            dend = dend - 1;
        } else if c == 'g' || c == 'G' {
            mult = 1073741824;
            dend = dend - 1;
        }
    }
    proof {
        assert(mult == size_mult(b));
        assert(v@.subrange(idx as int, dend as int) =~= size_num(b));
    }
    let ghost num = size_num(b);
    if dend == idx {
        return Err(FindError::SizeSpec("empty size specification".to_owned()));
    }
    let mut acc: u64 = 0;
    let mut i = idx;
    while i < dend
        invariant
            idx <= i <= dend <= v@.len(),
            v@ == s@,
            num == size_num(spec_body(trimmed(s@))),
            mult == size_mult(spec_body(trimmed(s@))),
            op == spec_op(trimmed(s@)),
            num == v@.subrange(idx as int, dend as int),
            all_digits(num.take(i - idx)),
            acc == digits_val(num.take(i - idx)),
        decreases dend - i,
    {
        let c = v[i];
        proof {
            assert(num[i - idx] == v@[i as int]);
        }
        if !('0' <= c && c <= '9') {
            return Err(FindError::SizeSpec("size is not a number".to_owned()));
        }
        let d = (c as u8) - 48;
        proof {
            assert(num.take(i + 1 - idx).drop_last() =~= num.take(i - idx));
            assert(num.take(i + 1 - idx).last() == c);
            assert(d as nat == digit_val(c));
        }
        let step = match acc.checked_mul(10) {
            Some(x) => x.checked_add(d as u64),
            None => None,
        };
        match step {
            Some(y) => {
                acc = y;
            },
            None => {
                proof {
                    lemma_digits_val_prefix(num, i + 1 - idx);
                }
                return Err(FindError::SizeSpec("size number is too large".to_owned()));
            },
        }
        i = i + 1;
    }
    proof {
        assert(num.take(dend - idx) =~= num);
    }
    match acc.checked_mul(mult) {
        Some(total) => {
            if op == '+' {
                Ok(SizeSpec::GreaterThan(total))
            } else if op == '-' {
                Ok(SizeSpec::LessThan(total))
            } else {
                Ok(SizeSpec::Equal(total))
            }
        },
        None => Err(FindError::SizeSpec("size is too large".to_owned())),
    }
}

/// Parses a time specification such as `+7d`, `-30m` or `24h`.
///
/// Returns the parsed criterion exactly when the text fits the grammar
/// `^([+-=]?)(\d+)([smhdwMy])$` (after trimming ASCII whitespace) and
/// the millisecond value fits in `u64`; every other text yields
/// `FindError::TimeSpec`.  A month counts as 30 days and a year as 365.
pub fn parse_time_spec(s: &str) -> (r: Result<TimeSpec, FindError>)
    ensures
        match spec_parse_time(s@) {
            Some(v) => r matches Ok(u) && u == v,
            None => r matches Err(e) && (e matches FindError::TimeSpec(_)),
        },
{
    let v = crate::name::chars_of(s);
    let (lo, hi) = trim_bounds(&v);
    let ghost t = trimmed(s@);
    let mut idx = lo;
    let mut op: char = '=';
    if idx < hi && (v[idx] == '+' || v[idx] == '-' || v[idx] == '=') {
        op = v[idx];
        idx = idx + 1;
    }
    proof {
        assert(op == spec_op(t));
        assert(v@.subrange(idx as int, hi as int) =~= spec_body(t));
    }
    let ghost b = spec_body(t);
    if hi == idx {
        return Err(FindError::TimeSpec("empty time specification".to_owned()));
    }
    let uc = v[hi - 1];
    let mult: u64 = if uc == 's' {
        1000
    } else if uc == 'm' {
        60000
    } else if uc == 'h' {
        3600000
    } else if uc == 'd' {
        86400000
    } else if uc == 'w' {
        604800000
    } else if uc == 'M' {
        2592000000
    } else if uc == 'y' {
        31536000000
    } else {
        return Err(FindError::TimeSpec("missing time unit".to_owned()));
    };
    proof {
        assert(uc == b.last());
        assert(mult == time_unit_mult_ms(b.last()));
        assert(v@.subrange(idx as int, hi - 1 as int) =~= b.drop_last());
    }
    let ghost num = b.drop_last();
    let dend = hi - 1;
    if dend == idx {
        return Err(FindError::TimeSpec("empty time number".to_owned()));
    }
    let mut acc: u64 = 0;
    let mut i = idx;
    while i < dend
        invariant
            idx <= i <= dend <= v@.len(),
            v@ == s@,
            spec_body(trimmed(s@)).len() > 0,
            num == spec_body(trimmed(s@)).drop_last(),
            mult == time_unit_mult_ms(spec_body(trimmed(s@)).last()),
            is_time_unit(spec_body(trimmed(s@)).last()),
            op == spec_op(trimmed(s@)),
            num == v@.subrange(idx as int, dend as int),
            all_digits(num.take(i - idx)),
            acc == digits_val(num.take(i - idx)),
        decreases dend - i,
    {
        let c = v[i];
        proof {
            assert(num[i - idx] == v@[i as int]);
        }
        if !('0' <= c && c <= '9') {
            return Err(FindError::TimeSpec("time is not a number".to_owned()));
        }
        let d = (c as u8) - 48;
        proof {
            assert(num.take(i + 1 - idx).drop_last() =~= num.take(i - idx));
            assert(num.take(i + 1 - idx).last() == c);
            assert(d as nat == digit_val(c));
        }
        let step = match acc.checked_mul(10) {
            Some(x) => x.checked_add(d as u64),
            None => None,
        };
        match step {
            Some(y) => {
                acc = y;
            },
            None => {
                proof {
                    lemma_digits_val_prefix(num, i + 1 - idx);
                }
                return Err(FindError::TimeSpec("time number is too large".to_owned()));
            },
        }
        i = i + 1;
    }
    proof {
        assert(num.take(dend - idx) =~= num);
    }
    match acc.checked_mul(mult) {
        Some(total) => {
            if op == '+' {
                Ok(TimeSpec::NewerThan(total))
            } else if op == '-' {
                Ok(TimeSpec::OlderThan(total))
            } else {
                Ok(TimeSpec::Equal(total))
            }
        },
        None => Err(FindError::TimeSpec("time is too large".to_owned())),
    }
}

} // verus!
