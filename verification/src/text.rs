//! Character-level string utilities: whitespace trimming, case folding,
//! character search, and string equality, with their specifications.

use vstd::prelude::*;

verus! {

/// Whether `c` has the Unicode `White_Space` property: exactly what
/// `char::is_whitespace` returns.
pub open spec fn is_space(c: char) -> bool {
    c == '\u{0009}' || c == '\u{000A}' || c == '\u{000B}' || c == '\u{000C}' || c == '\u{000D}'
        || c == '\u{0020}' || c == '\u{0085}' || c == '\u{00A0}' || c == '\u{1680}'
        || c == '\u{2000}' || c == '\u{2001}' || c == '\u{2002}' || c == '\u{2003}'
        || c == '\u{2004}' || c == '\u{2005}' || c == '\u{2006}' || c == '\u{2007}'
        || c == '\u{2008}' || c == '\u{2009}' || c == '\u{200A}' || c == '\u{2028}'
        || c == '\u{2029}' || c == '\u{202F}' || c == '\u{205F}' || c == '\u{3000}'
}

/// Relies on `char::is_whitespace`: true exactly for the characters with the
/// Unicode `White_Space` property, the table `is_space` writes out.
#[verifier::external_body]
fn is_space_char(c: char) -> (r: bool)
    ensures
        r == is_space(c),
{
    c.is_whitespace()
}

/// What `str::to_uppercase` returns for a string's characters. The Unicode
/// case-folding tables are not written out here; the function is given a
/// name and every contract speaks through it.
pub uninterp spec fn upper_of(s: Seq<char>) -> Seq<char>;

/// Relies on `str::to_uppercase`: the result depends on the characters alone.
#[verifier::external_body]
fn to_upper(s: &str) -> (r: String)
    ensures
        r@ == upper_of(s@),
{
    s.to_uppercase()
}

/// The sequence with leading whitespace characters removed.
pub open spec fn drop_leading_spaces(s: Seq<char>) -> Seq<char>
    decreases s.len(),
{
    if s.len() > 0 && is_space(s[0]) {
        drop_leading_spaces(s.drop_first())
    } else {
        s
    }
}

/// The sequence with trailing whitespace characters removed.
pub open spec fn drop_trailing_spaces(s: Seq<char>) -> Seq<char>
    decreases s.len(),
{
    if s.len() > 0 && is_space(s[s.len() - 1]) {
        drop_trailing_spaces(s.drop_last())
    } else {
        s
    }
}

/// The sequence with both leading and trailing whitespace removed,
/// as `str::trim` produces.
pub open spec fn trim_spec(s: Seq<char>) -> Seq<char> {
    drop_trailing_spaces(drop_leading_spaces(s))
}

/// The normal form every comparison uses: trim, then fold to upper case.
pub open spec fn norm_spec(s: Seq<char>) -> Seq<char> {
    upper_of(trim_spec(s))
}

/// A sequence without leading whitespace loses nothing to another pass.
proof fn lemma_drop_leading_no_leading_space(s: Seq<char>)
    ensures
        drop_leading_spaces(s).len() > 0 ==> !is_space(drop_leading_spaces(s)[0]),
    decreases s.len(),
{
    if s.len() > 0 && is_space(s[0]) {
        lemma_drop_leading_no_leading_space(s.drop_first());
    }
}

/// A sequence without trailing whitespace loses nothing to another pass.
proof fn lemma_drop_trailing_no_trailing_space(s: Seq<char>)
    ensures
        drop_trailing_spaces(s).len() > 0 ==> !is_space(
            drop_trailing_spaces(s)[drop_trailing_spaces(s).len() - 1],
        ),
    decreases s.len(),
{
    if s.len() > 0 && is_space(s[s.len() - 1]) {
        lemma_drop_trailing_no_trailing_space(s.drop_last());
    }
}

/// Removing trailing whitespace keeps the first character, when one is left.
proof fn lemma_drop_trailing_keeps_first(s: Seq<char>)
    ensures
        drop_trailing_spaces(s).len() > 0 ==> drop_trailing_spaces(s)[0] == s[0],
    decreases s.len(),
{
    if s.len() > 0 && is_space(s[s.len() - 1]) {
        lemma_drop_trailing_keeps_first(s.drop_last());
    }
}

/// Trimming is idempotent: a trimmed sequence trims to itself.
pub proof fn lemma_trim_idempotent(s: Seq<char>)
    ensures
        trim_spec(trim_spec(s)) == trim_spec(s),
{
    let u = drop_leading_spaces(s);
    let v = drop_trailing_spaces(u);
    lemma_drop_leading_no_leading_space(s);
    lemma_drop_trailing_keeps_first(u);
    assert(drop_leading_spaces(v) == v);
    lemma_drop_trailing_no_trailing_space(u);
    assert(drop_trailing_spaces(v) == v);
}

/// Removes leading whitespace from a string slice.
pub fn trim_start_exec(s: &str) -> (r: &str)
    ensures
        r@ == drop_leading_spaces(s@),
    decreases s@.len(),
{
    let n = s.unicode_len();
    if n > 0 && is_space_char(s.get_char(0)) {
        let rest = s.substring_char(1, n);
        proof {
            assert(rest@ =~= s@.drop_first());
        }
        trim_start_exec(rest)
    } else {
        s
    }
}

/// Removes trailing whitespace from a string slice.
pub fn trim_end_exec(s: &str) -> (r: &str)
    ensures
        r@ == drop_trailing_spaces(s@),
    decreases s@.len(),
{
    let n = s.unicode_len();
    if n > 0 && is_space_char(s.get_char(n - 1)) {
        let rest = s.substring_char(0, n - 1);
        proof {
            assert(rest@ =~= s@.drop_last());
        }
        trim_end_exec(rest)
    } else {
        s
    }
}

/// Removes leading and trailing whitespace, as `str::trim` does.
pub fn trim_exec(s: &str) -> (r: &str)
    ensures
        r@ == trim_spec(s@),
{
    trim_end_exec(trim_start_exec(s))
}

/// Trims and upper-cases a string: the normal form used by every comparison.
pub fn normalize(s: &str) -> (r: String)
    ensures
        r@ == norm_spec(s@),
{
    to_upper(trim_exec(s))
}

/// The index of the first occurrence of `c` in `s`, if any.
pub fn find_char(s: &str, c: char) -> (r: Option<usize>)
    ensures
        match r {
            Some(i) => i < s@.len() && s@[i as int] == c && (forall|k: int|
                0 <= k < i ==> s@[k] != c),
            None => !s@.contains(c),
        },
{
    let n = s.unicode_len();
    let mut i: usize = 0;
    while i < n
        invariant
            i <= n,
            n == s@.len(),
            forall|k: int| 0 <= k < i ==> s@[k] != c,
        decreases n - i,
    {
        if s.get_char(i) == c {
            return Some(i);
        }
        i = i + 1;
    }
    proof {
        assert(forall|k: int| 0 <= k < s@.len() ==> s@[k] != c);
    }
    None
}

/// Character-by-character equality of two string slices.
pub fn str_eq(x: &str, y: &str) -> (r: bool)
    ensures
        r == (x@ == y@),
{
    let nx = x.unicode_len();
    let ny = y.unicode_len();
    if nx != ny {
        proof {
            assert(x@ != y@);
        }
        return false;
    }
    let mut i: usize = 0;
    while i < nx
        invariant
            i <= nx,
            nx == x@.len(),
            nx == y@.len(),
            forall|k: int| 0 <= k < i ==> x@[k] == y@[k],
        decreases nx - i,
    {
        if x.get_char(i) != y.get_char(i) {
            return false;
        }
        i = i + 1;
    }
    proof {
        assert(x@ =~= y@);
    }
    true
}

} // verus!
