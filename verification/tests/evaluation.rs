//! Answer-evaluation behaviour on concrete attempts and expected answers.

use vocabulearn::{answer_match, answer_score, feedback_line, AnswerMatch};

#[test]
fn exact_match_ignores_case_and_whitespace() {
    assert_eq!(answer_match(" Cat ", "cat"), AnswerMatch::Perfect);
    assert_eq!(answer_match("CAT", "cat"), AnswerMatch::Perfect);
    assert_eq!(answer_match("cat", "  CAT  "), AnswerMatch::Perfect);
}

#[test]
fn alternative_token_is_partial() {
    assert_eq!(answer_match("kitten", "cat/kitten"), AnswerMatch::Partial);
    assert_eq!(answer_match("cat", "cat/kitten"), AnswerMatch::Partial);
}

#[test]
fn non_token_against_alternatives_is_wrong() {
    assert_eq!(answer_match("dog", "cat/kitten"), AnswerMatch::Wrong);
}

#[test]
fn parenthetical_qualifier_is_partial() {
    assert_eq!(answer_match("dog", "dog (m)"), AnswerMatch::Partial);
    assert_eq!(answer_match("dog ", "dog (m)"), AnswerMatch::Partial);
}

#[test]
fn full_parenthetical_answer_is_perfect() {
    assert_eq!(answer_match("dog (m)", "dog (m)"), AnswerMatch::Perfect);
}

#[test]
fn plain_mismatch_is_wrong() {
    assert_eq!(answer_match("gato", "perro"), AnswerMatch::Wrong);
    assert_eq!(answer_match("", "perro"), AnswerMatch::Wrong);
}

#[test]
fn empty_attempt_against_empty_expected_is_perfect() {
    assert_eq!(answer_match("", ""), AnswerMatch::Perfect);
    assert_eq!(answer_match("   ", ""), AnswerMatch::Perfect);
}

#[test]
fn alternatives_are_not_retrimmed() {
    // Tokens of a `/`-separated answer are compared as split, so a token
    // with its own surrounding space does not match the bare attempt.
    assert_eq!(answer_match("kitten", "cat/ kitten"), AnswerMatch::Wrong);
}

#[test]
fn slash_answers_never_take_the_parenthesis_path() {
    // With a `/` present, the parenthetical rule is not consulted.
    assert_eq!(answer_match("dog", "dog (m)/hound (m)"), AnswerMatch::Wrong);
    assert_eq!(answer_match("hound (m)", "dog (m)/hound (m)"), AnswerMatch::Partial);
}

#[test]
fn scores_per_outcome() {
    assert_eq!(answer_score(&AnswerMatch::Perfect), 1);
    assert_eq!(answer_score(&AnswerMatch::Partial), 1);
    assert_eq!(answer_score(&AnswerMatch::Wrong), 0);
}

#[test]
fn feedback_lines_quote_the_expected_answer() {
    assert_eq!(feedback_line(&AnswerMatch::Perfect, "dog/hound"), "Correct");
    assert_eq!(
        feedback_line(&AnswerMatch::Partial, "dog/hound"),
        "Correct, full answer is 'dog/hound'"
    );
    assert_eq!(
        feedback_line(&AnswerMatch::Wrong, "dog/hound"),
        "Wrong, correct answer was dog/hound"
    );
}
