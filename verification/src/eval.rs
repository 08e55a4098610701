//! Classification of a free-text answer attempt against an expected answer.
//!
//! Both strings are brought to a normal form (trimmed, upper-cased) before
//! any comparison. An expected answer may encode several acceptable forms:
//! `/`-separated alternatives (`"cat/kitten"`), or a parenthesised qualifier
//! (`"dog (m)"`) of which only the part before the parenthesis must match.
//! The two encodings are mutually exclusive: alternatives are only consulted
//! when the expected answer holds a `/`, and the qualifier only when it holds
//! no `/` but a `(`.

use vstd::prelude::*;

use crate::text::{find_char, norm_spec, normalize, str_eq, trim_spec};

verus! {

/// The outcome of checking one answer attempt.
#[derive(Debug, PartialEq, Eq, Structural, Clone, Copy)]
pub enum AnswerMatch {
    Perfect,
    Partial,
    Wrong,
}

/// The per-question score: a perfect or partial match earns one point.
pub open spec fn score_spec(m: AnswerMatch) -> int {
    match m {
        AnswerMatch::Perfect => 1,
        AnswerMatch::Partial => 1,
        AnswerMatch::Wrong => 0,
    }
}

/// Executable score of one outcome.
pub fn answer_score(m: &AnswerMatch) -> (r: usize)
    ensures
        r == score_spec(*m),
{
    match m {
        AnswerMatch::Perfect => 1,
        AnswerMatch::Partial => 1,
        AnswerMatch::Wrong => 0,
    }
}

/// Whether some `/`-separated token of `e` equals `a` exactly.
pub open spec fn token_match(e: Seq<char>, a: Seq<char>) -> bool
    decreases e.len(),
    via token_match_decreases
{
    match e.index_of_first('/') {
        None => e == a,
        Some(i) => e.subrange(0, i) == a || token_match(e.subrange(i + 1, e.len() as int), a),
    }
}

#[via_fn]
proof fn token_match_decreases(e: Seq<char>, a: Seq<char>) {
    e.index_of_first_ensures('/');
}

/// The part of `e` before its first `(`, or all of `e` when it has none.
pub open spec fn paren_prefix(e: Seq<char>) -> Seq<char> {
    match e.index_of_first('(') {
        None => e,
        Some(i) => e.subrange(0, i),
    }
}

/// The classification of a raw attempt against a raw expected answer.
///
/// With `a` and `e` the normal forms of the two inputs: an exact match of
/// normal forms is `Perfect`; otherwise, when `e` holds a `/`, a match of
/// any `/`-separated token is `Partial`; otherwise, when `e` holds a `(`,
/// a match of the re-normalised part before it is `Partial`; everything
/// else is `Wrong`.
pub open spec fn answer_match_spec(attempt: Seq<char>, expected: Seq<char>) -> AnswerMatch {
    let a = norm_spec(attempt);
    let e = norm_spec(expected);
    if a == e {
        AnswerMatch::Perfect
    } else if e.contains('/') {
        if token_match(e, a) {
            AnswerMatch::Partial
        } else {
            AnswerMatch::Wrong
        }
    } else if e.contains('(') {
        if norm_spec(paren_prefix(e)) == a {
            AnswerMatch::Partial
        } else {
            AnswerMatch::Wrong
        }
    } else {
        AnswerMatch::Wrong
    }
}

/// Whether some `/`-separated token of `e` equals `a`, decided left to right.
fn token_match_exec(e: &str, a: &String) -> (r: bool)
    ensures
        r == token_match(e@, a@),
    decreases e@.len(),
{
    proof {
        e@.index_of_first_ensures('/');
    }
    match find_char(e, '/') {
        None => str_eq(e, a.as_str()),
        Some(i) => {
            proof {
                // The scan found the first occurrence, so it is the one the
                // specification's index points at.
                assert(e@.index_of_first('/') == Some(i as int));
            }
            let n = e.unicode_len();
            let tok = e.substring_char(0, i);
            if str_eq(tok, a.as_str()) {
                true
            } else {
                let rest = e.substring_char(i + 1, n);
                token_match_exec(rest, a)
            }
        },
    }
}

/// Classifies `attempt` against `expected`.
pub fn answer_match(attempt: &str, expected: &str) -> (r: AnswerMatch)
    ensures
        r == answer_match_spec(attempt@, expected@),
{
    let a = normalize(attempt);
    let e = normalize(expected);
    if a == e {
        return AnswerMatch::Perfect;
    }
    proof {
        e@.index_of_first_ensures('/');
        e@.index_of_first_ensures('(');
    }
    match find_char(e.as_str(), '/') {
        Some(_) => {
            if token_match_exec(e.as_str(), &a) {
                AnswerMatch::Partial
            } else {
                AnswerMatch::Wrong
            }
        },
        None => {
            match find_char(e.as_str(), '(') {
                Some(i) => {
                    proof {
                        assert(e@.index_of_first('(') == Some(i as int));
                    }
                    let prefix = e.as_str().substring_char(0, i);
                    let p = normalize(prefix);
                    if p == a {
                        AnswerMatch::Partial
                    } else {
                        AnswerMatch::Wrong
                    }
                },
                None => AnswerMatch::Wrong,
            }
        },
    }
}

/// The classification looks at the attempt only through its normal form:
/// two attempts that trim and upper-case to the same text are classified
/// alike against every expected answer. In particular the classification is
/// insensitive to leading and trailing whitespace and to letter case.
pub proof fn lemma_match_depends_on_normal_form(a1: Seq<char>, a2: Seq<char>, expected: Seq<char>)
    requires
        norm_spec(a1) == norm_spec(a2),
    ensures
        answer_match_spec(a1, expected) == answer_match_spec(a2, expected),
{
}

/// An attempt whose normal form equals the expected answer's normal form is
/// always a perfect match.
pub proof fn lemma_match_exact(attempt: Seq<char>, expected: Seq<char>)
    requires
        norm_spec(attempt) == norm_spec(expected),
    ensures
        answer_match_spec(attempt, expected) == AnswerMatch::Perfect,
{
}

/// Surrounding whitespace on the attempt never changes the classification:
/// a trimmed attempt is classified exactly as the raw one.
pub proof fn lemma_match_trim_insensitive(attempt: Seq<char>, expected: Seq<char>)
    ensures
        answer_match_spec(trim_spec(attempt), expected) == answer_match_spec(attempt, expected),
{
    crate::text::lemma_trim_idempotent(attempt);
    lemma_match_depends_on_normal_form(trim_spec(attempt), attempt, expected);
}

/// The user-visible line reported for one outcome, quoting the expected
/// answer as it was handed to the session (not its normal form).
pub open spec fn feedback_spec(m: AnswerMatch, expected: Seq<char>) -> Seq<char> {
    match m {
        AnswerMatch::Perfect => "Correct"@,
        AnswerMatch::Partial => "Correct, full answer is '"@ + expected + "'"@,
        AnswerMatch::Wrong => "Wrong, correct answer was "@ + expected,
    }
}

/// Builds the feedback line for one outcome.
pub fn feedback_line(m: &AnswerMatch, expected: &str) -> (r: String)
    ensures
        r@ == feedback_spec(*m, expected@),
{
    match m {
        AnswerMatch::Perfect => "Correct".to_owned(),
        AnswerMatch::Partial => {
            let mut s = "Correct, full answer is '".to_owned();
            s.append(expected);
            s.append("'");
            s
        },
        AnswerMatch::Wrong => {
            let mut s = "Wrong, correct answer was ".to_owned();
            s.append(expected);
            s
        },
    }
}

} // verus!
