//! File-name matching: literal comparison and wildcard patterns.
//!
//! A pattern that contains a metacharacter (`*` or `?`) is a wildcard
//! pattern: `*` matches zero or more characters and `?` matches exactly
//! one.  Any other pattern is a literal and must equal the whole file
//! name.  Case-insensitive matching folds both operands with a simple,
//! locale-independent ASCII fold before comparing.

use vstd::prelude::*;

verus! {

/// The ASCII simple case fold of one character: `'A'..='Z'` maps to
/// `'a'..='z'`; every other character is unchanged.
pub open spec fn fold_char(c: char) -> char {
    if 'A' <= c && c <= 'Z' {
        ((c as u8) + 32) as char
    } else {
        c
    }
}

/// The ASCII simple case fold of a whole string.
pub open spec fn fold(s: Seq<char>) -> Seq<char> {
    s.map_values(|c: char| fold_char(c))
}

/// `s`, folded only when `ci` asks for case-insensitive comparison.
pub open spec fn fold_if(s: Seq<char>, ci: bool) -> Seq<char> {
    if ci {
        fold(s)
    } else {
        s
    }
}

/// Whether `p` contains a wildcard metacharacter (`*` or `?`).
pub open spec fn has_wildcard(p: Seq<char>) -> bool {
    exists|i: int| 0 <= i < p.len() && (p[i] == '*' || p[i] == '?')
}

/// Wildcard matching of a whole text against a whole pattern:
/// `*` matches any (possibly empty) stretch of characters, `?` matches
/// exactly one character, and every other pattern character matches
/// only itself.
pub open spec fn wild_match(t: Seq<char>, p: Seq<char>) -> bool
    decreases p.len(), t.len(),
{
    if p.len() == 0 {
        t.len() == 0
    } else if p[0] == '*' {
        wild_match(t, p.skip(1)) || (t.len() > 0 && wild_match(t.skip(1), p))
    } else {
        t.len() > 0 && (p[0] == '?' || p[0] == t[0]) && wild_match(t.skip(1), p.skip(1))
    }
}

/// What `match_name` decides: wildcard matching when the pattern holds a
/// metacharacter, exact (whole-name) equality otherwise, both on the
/// folded operands when case-insensitive.
pub open spec fn spec_match_name(f: Seq<char>, p: Seq<char>, ci: bool) -> bool {
    if has_wildcard(p) {
        wild_match(fold_if(f, ci), fold_if(p, ci))
    } else {
        fold_if(f, ci) == fold_if(p, ci)
    }
}

/// Folds one character to ASCII lower case.
pub fn fold_char_exec(c: char) -> (r: char)
    ensures
        r == fold_char(c),
{
    if 'A' <= c && c <= 'Z' {
        ((c as u8) + 32) as char
    } else {
        c
    }
}

/// The characters of `s`, in order.
pub fn chars_of(s: &str) -> (r: Vec<char>)
    ensures
        r@ == s@,
{
    let n = s.unicode_len();
    let mut r: Vec<char> = Vec::new();
    let mut i: usize = 0;
    while i < n
        invariant
            n == s@.len(),
            i <= n,
            r@.len() == i,
            forall|j: int| 0 <= j < i ==> r@[j] == s@[j],
        decreases n - i,
    {
        r.push(s.get_char(i));
        i = i + 1;
    }
    assert(r@ =~= s@);
    r
}

/// The ASCII fold of every character of `v`.
pub fn fold_chars(v: &Vec<char>) -> (r: Vec<char>)
    ensures
        r@ == fold(v@),
{
    let mut r: Vec<char> = Vec::new();
    let mut i: usize = 0;
    while i < v.len()
        invariant
            i <= v@.len(),
            r@.len() == i,
            forall|j: int| 0 <= j < i ==> r@[j] == fold_char(v@[j]),
        decreases v@.len() - i,
    {
        r.push(fold_char_exec(v[i]));
        i = i + 1;
    }
    assert(r@ =~= fold(v@));
    r
}

/// Whether `v` holds a `*` or a `?`.
fn has_wildcard_exec(v: &Vec<char>) -> (r: bool)
    ensures
        r == has_wildcard(v@),
{
    let mut i: usize = 0;
    while i < v.len()
        invariant
            i <= v@.len(),
            forall|j: int| 0 <= j < i ==> !(v@[j] == '*' || v@[j] == '?'),
        decreases v@.len() - i,
    {
        if v[i] == '*' || v[i] == '?' {
            return true;
        }
        i = i + 1;
    }
    false
}

/// A row of `m + 1` `false` entries.
fn false_row(m: usize) -> (r: Vec<bool>)
    ensures
        r@.len() == m + 1,
        forall|k: int| 0 <= k <= m ==> r@[k] == false,
{
    let mut r: Vec<bool> = Vec::new();
    let mut j: usize = 0;
    while j < m
        invariant
            r@.len() == j,
            j <= m,
            forall|k: int| 0 <= k < j ==> r@[k] == false,
        decreases m - j,
    {
        r.push(false);
        j = j + 1;
    }
    r.push(false);
    r
}

/// Wildcard matching of `t` against `p`, by a table over the suffixes of
/// both: entry `j` of `row` says whether the suffix of `t` from `i` on
/// matches the suffix of `p` from `j` on.
fn wild_match_exec(t: &Vec<char>, p: &Vec<char>) -> (r: bool)
    ensures
        r == wild_match(t@, p@),
{
    let n = t.len();
    let m = p.len();

    // Row for i == n (the empty text suffix).
    let mut row: Vec<bool> = false_row(m);
    row[m] = true;
    let mut j: usize = m;
    while j > 0
        invariant
            row@.len() == m + 1,
            m == p@.len(),
            n == t@.len(),
            j <= m,
            forall|k: int| j <= k <= m ==> row@[k] == wild_match(t@.skip(n as int), p@.skip(k)),
        decreases j,
    {
        j = j - 1;
        proof {
            assert(p@.skip(j as int)[0] == p@[j as int]);
            assert(p@.skip(j as int).skip(1) =~= p@.skip(j as int + 1));
            assert(t@.skip(n as int).len() == 0);
        }
        let val: bool = p[j] == '*' && row[j + 1];
        row[j] = val;
    }

    // Rows for i == n-1 down to 0.
    let mut i: usize = n;
    while i > 0
        invariant
            row@.len() == m + 1,
            m == p@.len(),
            n == t@.len(),
            i <= n,
            forall|k: int| 0 <= k <= m ==> row@[k] == wild_match(t@.skip(i as int), p@.skip(k)),
        decreases i,
    {
        i = i - 1;
        let mut cur: Vec<bool> = false_row(m);
        proof {
            assert(t@.skip(i as int).len() == n - i);
        }
        let mut j: usize = m;
        while j > 0
            invariant
                cur@.len() == m + 1,
                row@.len() == m + 1,
                m == p@.len(),
                n == t@.len(),
                i < n,
                j <= m,
                forall|k: int| 0 <= k <= m ==> row@[k] == wild_match(t@.skip(i as int + 1), p@.skip(k)),
                cur@[m as int] == wild_match(t@.skip(i as int), p@.skip(m as int)),
                forall|k: int| j <= k < m ==> cur@[k] == wild_match(t@.skip(i as int), p@.skip(k)),
            decreases j,
        {
            j = j - 1;
            proof {
                assert(p@.skip(j as int)[0] == p@[j as int]);
                assert(p@.skip(j as int).skip(1) =~= p@.skip(j as int + 1));
                assert(t@.skip(i as int)[0] == t@[i as int]);
                assert(t@.skip(i as int).skip(1) =~= t@.skip(i as int + 1));
                assert(t@.skip(i as int).len() == n - i);
            }
            let val: bool = if p[j] == '*' {
                cur[j + 1] || row[j]
            } else {
                (p[j] == '?' || p[j] == t[i]) && row[j + 1]
            };
            cur[j] = val;
        }
        row = cur;
    }
    proof {
        assert(t@.skip(0) =~= t@);
        assert(p@.skip(0) =~= p@);
    }
    row[0]
}

/// Wildcard matching of a file name against a pattern that may hold `*`
/// and `?`, folding both operands to ASCII lower case when
/// `case_insensitive` is set.
pub fn wildcard_match(text: &str, pattern: &str, case_insensitive: bool) -> (r: bool)
    ensures
        r == wild_match(fold_if(text@, case_insensitive), fold_if(pattern@, case_insensitive)),
{
    let t = chars_of(text);
    let p = chars_of(pattern);
    if case_insensitive {
        let tf = fold_chars(&t);
        let pf = fold_chars(&p);
        wild_match_exec(&tf, &pf)
    } else {
        wild_match_exec(&t, &p)
    }
}

/// Whether the characters of `a` and `b` are equal.
fn chars_eq(a: &Vec<char>, b: &Vec<char>) -> (r: bool)
    ensures
        r == (a@ == b@),
{
    if a.len() != b.len() {
        assert(a@ != b@);
        return false;
    }
    let mut i: usize = 0;
    while i < a.len()
        invariant
            a@.len() == b@.len(),
            i <= a@.len(),
            forall|j: int| 0 <= j < i ==> a@[j] == b@[j],
        decreases a@.len() - i,
    {
        if a[i] != b[i] {
            assert(a@ != b@);
            return false;
        }
        i = i + 1;
    }
    proof {
        assert(a@ =~= b@);
    }
    true
}

/// Decides whether `file_name` matches `pattern`.
///
/// A pattern with a `*` or `?` is matched as a wildcard pattern; any
/// other pattern must equal the whole file name.  With
/// `case_insensitive` both operands are first folded to ASCII lower
/// case, so case-insensitive matching is exact matching of the folded
/// operands.
pub fn match_name(file_name: &str, pattern: &str, case_insensitive: bool) -> (r: bool)
    ensures
        r == spec_match_name(file_name@, pattern@, case_insensitive),
{
    let p = chars_of(pattern);
    if has_wildcard_exec(&p) {
        wildcard_match(file_name, pattern, case_insensitive)
    } else {
        let f = chars_of(file_name);
        if case_insensitive {
            let ff = fold_chars(&f);
            let pf = fold_chars(&p);
            chars_eq(&ff, &pf)
        } else {
            chars_eq(&f, &p)
        }
    }
}

/// A pattern without metacharacters matches exactly by equality: case
/// sensitively the names equal to it, case insensitively the names
/// whose ASCII fold equals its ASCII fold.
pub proof fn lemma_literal_match_is_equality(f: Seq<char>, p: Seq<char>)
    requires
        !has_wildcard(p),
    ensures
        spec_match_name(f, p, false) == (f == p),
        spec_match_name(f, p, true) == (fold(f) == fold(p)),
{
}

/// The pattern `*` alone matches every text.
pub proof fn lemma_star_matches_any(t: Seq<char>)
    ensures
        wild_match(t, seq!['*']),
    decreases t.len(),
{
    let p = seq!['*'];
    assert(p.skip(1) =~= Seq::<char>::empty());
    if t.len() == 0 {
        assert(wild_match(t, p.skip(1)));
    } else {
        lemma_star_matches_any(t.skip(1));
    }
}

/// The pattern `?` alone matches exactly the one-character texts.
pub proof fn lemma_question_matches_singletons(t: Seq<char>)
    ensures
        wild_match(t, seq!['?']) <==> t.len() == 1,
{
    let p = seq!['?'];
    assert(p.skip(1) =~= Seq::<char>::empty());
    if t.len() > 0 {
        assert(wild_match(t.skip(1), p.skip(1)) <==> t.skip(1).len() == 0);
    }
}

/// The name-matching law for the sole pattern `*`: every non-empty file
/// name matches, case sensitively or not.
pub proof fn lemma_match_name_star(f: Seq<char>, ci: bool)
    requires
        f.len() != 0,
    ensures
        spec_match_name(f, seq!['*'], ci),
{
    let p = seq!['*'];
    assert(has_wildcard(p)) by {
        assert(p[0] == '*');
    }
    assert(fold(p) =~= p);
    lemma_star_matches_any(fold_if(f, ci));
}

/// The name-matching law for the sole pattern `?`: exactly the
/// one-character file names match, case sensitively or not.
pub proof fn lemma_match_name_question(f: Seq<char>, ci: bool)
    ensures
        spec_match_name(f, seq!['?'], ci) <==> f.len() == 1,
{
    let p = seq!['?'];
    assert(has_wildcard(p)) by {
        assert(p[0] == '?');
    }
    assert(fold(p) =~= p);
    lemma_question_matches_singletons(fold_if(f, ci));
    assert(fold_if(f, ci).len() == f.len());
}

} // verus!
