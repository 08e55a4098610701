//! The quiz session runner: asks each question in turn, reads an attempt
//! from the terminal, scores it, and tallies the result.

use vstd::prelude::*;

use std::io::Write;

use crate::data::VocabItem;
use crate::eval::{answer_match, answer_score, feedback_line};
use crate::question::{get_qa, QuestionType};

verus! {

/// The tally of one finished session.
#[derive(Debug, Clone, Copy, PartialEq, Eq, Structural)]
pub struct QuizResult {
    pub correct: usize,
    pub wrong: usize,
}

/// Relies on `std::io::Stdin::read_line`: appends one line of input to
/// `buf` and returns how many bytes it read, 0 at end of input; `None` when
/// reading failed. Nothing is promised of the text that arrives, only that
/// a successful read appends to the buffer, and a read of nothing leaves it
/// as it was.
#[verifier::external_body]
fn read_line_stdin(buf: &mut String) -> (r: Option<usize>)
    ensures
        (r matches Some(n) ==> old(buf)@.is_prefix_of(final(buf)@) && (n == 0 ==> final(buf)@
            == old(buf)@)),
{
    match std::io::stdin().read_line(buf) {
        Ok(n) => Some(n),
        Err(_) => None,
    }
}

/// Relies on `std::io::Stdout`: writes one line to the terminal.
#[verifier::external_body]
fn print_line(s: &str) {
    let mut out = std::io::stdout();
    let _ = writeln!(out, "{}", s);
}

/// Reads one attempt from the terminal; `None` when input failed or ended.
fn read_attempt() -> (r: Option<String>) {
    let mut buf = String::new();
    match read_line_stdin(&mut buf) {
        Some(n) => {
            if n > 0 {
                Some(buf)
            } else {
                None
            }
        },
        None => None,
    }
}

/// Runs one quiz session over the given entries, in their order: prints each
/// prompt, reads one line as the attempt, scores it and reports the outcome.
///
/// Returns `None` when terminal input ends or fails before every entry is
/// scored; the session is then lost, as no partial tally is reported. A
/// returned tally always accounts for every entry: one point per entry,
/// either correct or wrong.
pub fn quiz(quiz_items: &Vec<VocabItem>, question_type: &QuestionType) -> (r: Option<QuizResult>)
    requires
        forall|i: int| 0 <= i < quiz_items@.len() ==> (#[trigger] quiz_items@[i].transliterated)
            is Some,
    ensures
        (r matches Some(q) ==> q.correct + q.wrong == quiz_items@.len()),
        quiz_items@.len() == 0 ==> (r matches Some(q) && q.correct == 0 && q.wrong == 0),
{
    let mut correct: usize = 0;
    let mut i: usize = 0;
    while i < quiz_items.len()
        invariant
            i <= quiz_items@.len(),
            correct <= i,
            forall|k: int| 0 <= k < quiz_items@.len() ==> (
            #[trigger] quiz_items@[k].transliterated) is Some,
        decreases quiz_items@.len() - i,
    {
        let item = &quiz_items[i];
        let (question, answer) = get_qa(question_type, item);
        let mut prompt = "Q: ".to_owned();
        prompt.append(question.as_str());
        print_line(prompt.as_str());
        match read_attempt() {
            None => {
                return None;
            },
            Some(attempt) => {
                let m = answer_match(attempt.as_str(), answer.as_str());
                let message = feedback_line(&m, answer.as_str());
                print_line(message.as_str());
                correct = correct + answer_score(&m);
            },
        }
        i = i + 1;
    }
    Some(QuizResult { correct, wrong: quiz_items.len() - correct })
}

} // verus!
