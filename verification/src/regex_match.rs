//! Regular-expression file-name matching with a compilation cache.
//!
//! A user pattern is anchored to the whole file name (`^(?:pattern)$`)
//! and compiled with the `(?i)` flag when matching case-insensitively;
//! the anchoring is built here, in verified code.  Compilation and
//! matching are the `regex` crate's, behind trusted wrappers.  An
//! invalid pattern fails closed: it matches nothing, and
//! [`validate_regex`] surfaces the diagnostic.  Compiled patterns are
//! cached by their full source text for the cache's lifetime and never
//! evicted.

use vstd::prelude::*;

use crate::name::chars_of;
use crate::types::FindError;

verus! {

/// Whether the `regex` crate compiles the pattern source `src`.
/// Compilation succeeds or fails by the source text alone.
pub uninterp spec fn regex_compiles(src: Seq<char>) -> bool;

/// Whether the pattern compiled from `src` matches (somewhere in) the
/// text `t`; a function of the source and the text alone.
pub uninterp spec fn regex_accepts(src: Seq<char>, t: Seq<char>) -> bool;

/// A compiled pattern paired with the source it was compiled from.
/// Its only constructor is `compile_regex`.
pub struct CompiledRegex {
    source: String,
    regex: regex::Regex,
}

#[verifier::external_type_specification]
#[verifier::external_body]
pub struct ExRegex(regex::Regex);

/// Relies on `regex::Regex::new`: whether compilation succeeds depends
/// on the pattern text alone.
#[verifier::external_body]
fn compile_regex(source: &String) -> (r: Option<CompiledRegex>)
    ensures
        (r is Some) <==> regex_compiles(source@),
        r matches Some(e) ==> e.source@ == source@,
{
    match regex::Regex::new(source.as_str()) {
        Ok(re) => Some(CompiledRegex { source: source.clone(), regex: re }),
        Err(_) => None,
    }
}

/// Relies on `regex::Regex::is_match`: whether a compiled pattern
/// matches a text depends on the pattern's source and the text alone.
/// The pattern in `e` was compiled from `e.source` by `compile_regex`.
#[verifier::external_body]
fn compiled_matches(e: &CompiledRegex, text: &str) -> (r: bool)
    ensures
        r == regex_accepts(e.source@, text@),
{
    e.regex.is_match(text)
}

/// Relies on `String`'s `FromIterator` over `char`: the collected
/// string holds exactly the characters of `v`, in order.
#[verifier::external_body]
fn string_from_chars(v: &Vec<char>) -> (r: String)
    ensures
        r@ == v@,
{
    v.iter().collect()
}

/// The cache of compiled patterns, keyed by full source text.
///
/// It grows on first use of each source and is never evicted; one
/// cache is meant to live as long as the process.
pub struct RegexCache {
    entries: Vec<CompiledRegex>,
}

impl RegexCache {
    /// Every cached entry's source does compile.
    pub closed spec fn wf(self) -> bool {
        forall|i: int|
            0 <= i < self.entries.len() ==> regex_compiles(#[trigger] self.entries[i].source@)
    }

    /// An empty cache.
    pub fn new() -> (r: Self)
        ensures
            r.wf(),
    {
        RegexCache { entries: Vec::new() }
    }

    /// Compiles `source` unless it is already cached.  Returns whether
    /// the source compiles.
    fn ensure_compiled(&mut self, source: &String) -> (r: bool)
        requires
            old(self).wf(),
        ensures
            final(self).wf(),
            r == regex_compiles(source@),
            r ==> exists|i: int|
                0 <= i < final(self).entries.len() && (#[trigger] final(self).entries[i].source@)
                    == source@,
    {
        let n = self.entries.len();
        let mut i: usize = 0;
        while i < n
            invariant
                self.wf(),
                n == self.entries.len(),
                i <= n,
            decreases n - i,
        {
            if self.entries[i].source == *source {
                return true;
            }
            i = i + 1;
        }
        match compile_regex(source) {
            Some(e) => {
                self.entries.push(e);
                proof {
                    assert(self.entries[self.entries.len() - 1].source@ == source@);
                }
                true
            },
            None => false,
        }
    }

    /// Matches `text` against the pattern source `source`, compiling
    /// it on first use.  `None` exactly when the source does not
    /// compile.
    fn is_match(&mut self, source: &String, text: &str) -> (r: Option<bool>)
        requires
            old(self).wf(),
        ensures
            final(self).wf(),
            (r is Some) <==> regex_compiles(source@),
            r matches Some(b) ==> b == regex_accepts(source@, text@),
    {
        if !self.ensure_compiled(source) {
            return None;
        }
        let n = self.entries.len();
        let mut i: usize = 0;
        while i < n
            invariant
                self.wf(),
                n == self.entries.len(),
                i <= n,
                exists|k: int|
                    i <= k < self.entries.len() && (#[trigger] self.entries[k].source@)
                        == source@,
            decreases n - i,
        {
            if self.entries[i].source == *source {
                let b = compiled_matches(&self.entries[i], text);
                return Some(b);
            }
            i = i + 1;
        }
        proof {
            assert(false);
        }
        None
    }
}

/// The metacharacters of the regex syntax, the ones its escaping must
/// protect.
pub open spec fn is_meta(c: char) -> bool {
    c == '\\' || c == '.' || c == '+' || c == '*' || c == '?' || c == '(' || c == ')' || c == '|'
        || c == '[' || c == ']' || c == '{' || c == '}' || c == '^' || c == '$' || c == '#'
        || c == '&' || c == '-' || c == '~'
}

/// How one wildcard-pattern character reads as regex source: `*`
/// becomes `.*`, `?` becomes `.`, a metacharacter is escaped, anything
/// else stands for itself.
pub open spec fn wildcard_regex_chunk(c: char) -> Seq<char> {
    if c == '*' {
        seq!['.', '*']
    } else if c == '?' {
        seq!['.']
    } else if is_meta(c) {
        seq!['\\', c]
    } else {
        seq![c]
    }
}

/// The regex source equivalent to a whole wildcard pattern.
pub open spec fn wildcard_regex_source(p: Seq<char>) -> Seq<char>
    decreases p.len(),
{
    if p.len() == 0 {
        Seq::empty()
    } else {
        wildcard_regex_source(p.drop_last()) + wildcard_regex_chunk(p.last())
    }
}

/// The anchoring applied to every pattern source: `^(?:` ... `)$`,
/// after `(?i)` when matching case-insensitively.
pub open spec fn anchor_prefix(ci: bool) -> Seq<char> {
    if ci {
        seq!['(', '?', 'i', ')', '^', '(', '?', ':']
    } else {
        seq!['^', '(', '?', ':']
    }
}

/// The full source handed to the regex engine for a user pattern.
pub open spec fn anchored_source(p: Seq<char>, ci: bool) -> Seq<char> {
    anchor_prefix(ci) + p + seq![')', '$']
}

/// What the regex engine decides for a full source and a file name:
/// the source compiles and the compiled pattern accepts the name.
/// An invalid source decides nothing and so matches nothing.
pub open spec fn spec_regex_decision(src: Seq<char>, f: Seq<char>) -> bool {
    regex_compiles(src) && regex_accepts(src, f)
}

/// What `match_regex` decides for a file name, a user pattern and a
/// case flag.
pub open spec fn spec_match_regex(f: Seq<char>, p: Seq<char>, ci: bool) -> bool {
    spec_regex_decision(anchored_source(p, ci), f)
}

/// What `simple_pattern_match` decides: the wildcard pattern read as
/// regex source, anchored, and handed to the engine.
pub open spec fn spec_simple_pattern_match(f: Seq<char>, p: Seq<char>, ci: bool) -> bool {
    spec_regex_decision(anchored_source(wildcard_regex_source(p), ci), f)
}

/// Builds the anchored source for `inner`, with the case flag folded
/// in, as characters.
fn build_anchored(inner: &Vec<char>, ci: bool) -> (r: Vec<char>)
    ensures
        r@ == anchored_source(inner@, ci),
{
    let mut v: Vec<char> = Vec::new();
    if ci {
        v.push('(');
        v.push('?');
        v.push('i');
        v.push(')');
    }
    v.push('^');
    v.push('(');
    v.push('?');
    v.push(':');
    let mut i: usize = 0;
    while i < inner.len()
        invariant
            i <= inner@.len(),
            v@ == anchor_prefix(ci) + inner@.take(i as int),
        decreases inner@.len() - i,
    {
        v.push(inner[i]);
        proof {
            assert(v@ =~= anchor_prefix(ci) + inner@.take(i as int + 1));
        }
        i = i + 1;
    }
    v.push(')');
    v.push('$');
    proof {
        assert(inner@.take(inner@.len() as int) =~= inner@);
        assert(v@ =~= anchored_source(inner@, ci));
    }
    v
}

/// Converts a wildcard pattern (`*`, `?`, literals) to the equivalent
/// regex source: metacharacters are escaped, `*` becomes `.*` and `?`
/// becomes `.`.
pub fn convert_wildcard_to_regex(pattern: &str) -> (r: String)
    ensures
        r@ == wildcard_regex_source(pattern@),
{
    let p = chars_of(pattern);
    let mut v: Vec<char> = Vec::new();
    let mut i: usize = 0;
    while i < p.len()
        invariant
            i <= p@.len(),
            p@ == pattern@,
            v@ == wildcard_regex_source(p@.take(i as int)),
        decreases p@.len() - i,
    {
        let c = p[i];
        if c == '*' {
            v.push('.');
            v.push('*');
        } else if c == '?' {
            v.push('.');
        } else {
            if c == '\\' || c == '.' || c == '+' || c == '(' || c == ')' || c == '|' || c == '['
                || c == ']' || c == '{' || c == '}' || c == '^' || c == '$' || c == '#' || c == '&'
                || c == '-' || c == '~' {
                v.push('\\');
            }
            v.push(c);
        }
        proof {
            assert(p@.take(i as int + 1).drop_last() =~= p@.take(i as int));
            assert(p@.take(i as int + 1).last() == c);
            assert(v@ =~= wildcard_regex_source(p@.take(i as int + 1)));
        }
        i = i + 1;
    }
    proof {
        assert(p@.take(p@.len() as int) =~= p@);
    }
    string_from_chars(&v)
}

/// Decides whether the whole of `file_name` matches the regular
/// expression `pattern`, compiling it (with `(?i)` when
/// `case_insensitive`) on first use.  An invalid pattern matches
/// nothing.
pub fn match_regex(
    cache: &mut RegexCache,
    file_name: &str,
    pattern: &str,
    case_insensitive: bool,
) -> (r: bool)
    requires
        old(cache).wf(),
    ensures
        final(cache).wf(),
        r == spec_match_regex(file_name@, pattern@, case_insensitive),
{
    let p = chars_of(pattern);
    let src = build_anchored(&p, case_insensitive);
    let source = string_from_chars(&src);
    match cache.is_match(&source, file_name) {
        Some(b) => b,
        None => false,
    }
}

/// Decides whether the whole of `text` matches the wildcard pattern
/// `pattern` read as a regular expression, compiling the converted
/// pattern on first use.
pub fn simple_pattern_match(
    cache: &mut RegexCache,
    text: &str,
    pattern: &str,
    case_insensitive: bool,
) -> (r: bool)
    requires
        old(cache).wf(),
    ensures
        final(cache).wf(),
        r == spec_simple_pattern_match(text@, pattern@, case_insensitive),
{
    let converted = convert_wildcard_to_regex(pattern);
    let inner = chars_of(converted.as_str());
    proof {
        assert(inner@ == wildcard_regex_source(pattern@));
    }
    let src = build_anchored(&inner, case_insensitive);
    let source = string_from_chars(&src);
    match cache.is_match(&source, text) {
        Some(b) => b,
        None => false,
    }
}

/// Checks, before any traversal begins, that `pattern` is a valid
/// regular expression under the anchoring and case flag that matching
/// will use; an invalid pattern is reported as `FindError::Regex`.
pub fn validate_regex(cache: &mut RegexCache, pattern: &str, case_insensitive: bool) -> (r: Result<
    (),
    FindError,
>)
    requires
        old(cache).wf(),
    ensures
        final(cache).wf(),
        (r is Ok) <==> regex_compiles(anchored_source(pattern@, case_insensitive)),
        r matches Err(e) ==> e matches FindError::Regex(_),
{
    let p = chars_of(pattern);
    let src = build_anchored(&p, case_insensitive);
    let source = string_from_chars(&src);
    if cache.ensure_compiled(&source) {
        Ok(())
    } else {
        Err(FindError::Regex(pattern.to_owned()))
    }
}

} // verus!
