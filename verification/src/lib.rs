//! A small vocabulary-learning library: question generation, free-text
//! answer evaluation, and quiz-session scoring over an in-memory store.

pub mod data;
pub mod eval;
pub mod question;
pub mod session;
pub mod text;

pub use data::{load_vocab, to_id_map, HasId, ItemLabel, Label, LabelType, Vocab, VocabItem};
pub use eval::{answer_match, answer_score, feedback_line, AnswerMatch};
pub use question::{get_qa, QuestionType};
pub use session::{quiz, QuizResult};
