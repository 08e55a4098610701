//! Question generation: mapping one vocabulary entry and a direction to a
//! prompt and an expected answer.

use vstd::prelude::*;

use crate::data::VocabItem;

verus! {

/// Which of an entry's two forms is asked for.
#[derive(Debug, Clone, Copy, PartialEq, Eq, Structural)]
pub enum QuestionType {
    NativeToForeign,
    ForeignToNative,
    Bidirectional,
}

/// The entry's native-language text.
pub open spec fn native_text(item: VocabItem) -> Seq<char> {
    item.in_native_lang@
}

/// The entry's transliterated foreign text; meaningful only when present.
pub open spec fn foreign_text(item: VocabItem) -> Seq<char> {
    match item.transliterated {
        Some(t) => t@,
        None => Seq::empty(),
    }
}

/// The prompt/answer pair asking for the foreign form of a native word.
pub open spec fn native_to_foreign_qa(item: VocabItem) -> (Seq<char>, Seq<char>) {
    (native_text(item), foreign_text(item))
}

/// The prompt/answer pair asking for the native form of a foreign word.
pub open spec fn foreign_to_native_qa(item: VocabItem) -> (Seq<char>, Seq<char>) {
    (foreign_text(item), native_text(item))
}

/// The two deterministic directions are inverses: the prompt of one is the
/// answer of the other for the same entry, and the other way round.
pub proof fn lemma_directions_inverse(item: VocabItem)
    ensures
        native_to_foreign_qa(item).0 == foreign_to_native_qa(item).1,
        native_to_foreign_qa(item).1 == foreign_to_native_qa(item).0,
{
}

/// Relies on `rand::random::<bool>`: a fresh draw from the thread-local
/// generator, so nothing is promised of the value.
#[verifier::external_body]
fn coin_flip() -> bool {
    rand::random()
}

/// The entry's native text, as an owned string.
fn native_of(item: &VocabItem) -> (r: String)
    ensures
        r@ == native_text(*item),
{
    item.in_native_lang.clone()
}

/// The entry's transliterated text, as an owned string.
fn foreign_of(item: &VocabItem) -> (r: String)
    requires
        item.transliterated is Some,
    ensures
        r@ == foreign_text(*item),
{
    match &item.transliterated {
        Some(t) => t.clone(),
        None => String::new(),
    }
}

/// Produces the prompt and the expected answer for one entry. A
/// `Bidirectional` direction draws one of the two deterministic mappings at
/// random; the result is always one of the two.
pub fn get_qa(question_type: &QuestionType, item: &VocabItem) -> (r: (String, String))
    requires
        item.transliterated is Some,
    ensures
        *question_type == QuestionType::NativeToForeign ==> (r.0@, r.1@)
            == native_to_foreign_qa(*item),
        *question_type == QuestionType::ForeignToNative ==> (r.0@, r.1@)
            == foreign_to_native_qa(*item),
        *question_type == QuestionType::Bidirectional ==> ((r.0@, r.1@) == native_to_foreign_qa(
            *item,
        ) || (r.0@, r.1@) == foreign_to_native_qa(*item)),
{
    match question_type {
        QuestionType::NativeToForeign => (native_of(item), foreign_of(item)),
        QuestionType::ForeignToNative => (foreign_of(item), native_of(item)),
        QuestionType::Bidirectional => {
            if coin_flip() {
                (native_of(item), foreign_of(item))
            } else {
                (foreign_of(item), native_of(item))
            }
        },
    }
}

} // verus!
