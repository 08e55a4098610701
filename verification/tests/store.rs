//! The in-memory store: loading, identifier maps, sampling and insertion.

use vocabulearn::{load_vocab, quiz, to_id_map, HasId, Label, LabelType, QuestionType, QuizResult, VocabItem};

fn entry(id: usize, native: &str, transliterated: &str) -> VocabItem {
    VocabItem {
        id,
        in_native_lang: native.to_string(),
        transliterated: Some(transliterated.to_string()),
        in_original_lang: None,
        time_added: 0,
    }
}

#[test]
fn to_id_map_keys_records_by_identifier() {
    let items = vec![entry(3, "gato", "cat"), entry(7, "perro", "dog")];
    let m = to_id_map(items);
    assert_eq!(m.len(), 2);
    assert_eq!(m.get(&3).unwrap().in_native_lang, "gato");
    assert_eq!(m.get(&7).unwrap().in_native_lang, "perro");
    assert!(m.get(&1).is_none());
}

#[test]
fn to_id_map_later_duplicate_wins() {
    let items = vec![entry(3, "gato", "cat"), entry(3, "perro", "dog")];
    let m = to_id_map(items);
    assert_eq!(m.len(), 1);
    assert_eq!(m.get(&3).unwrap().in_native_lang, "perro");
}

#[test]
fn to_id_map_works_for_labels_too() {
    let labels = vec![Label { id: 2, display_name: "noun".to_string(), label_type: LabelType::WordType }];
    let m = to_id_map(labels);
    assert_eq!(m.get(&2).unwrap().id(), 2);
}

#[test]
fn sampling_more_than_the_store_holds_returns_all() {
    let store = load_vocab(
        vec![entry(1, "gato", "cat"), entry(2, "perro", "dog"), entry(3, "vaca", "cow")],
        vec![],
        vec![],
    );
    let sampled = store.random_items(100);
    assert_eq!(sampled.len(), 3);
    let mut ids: Vec<usize> = sampled.iter().map(|i| i.id).collect();
    ids.sort();
    assert_eq!(ids, vec![1, 2, 3]);
}

#[test]
fn sampling_fewer_draws_distinct_entries() {
    let store = load_vocab(
        vec![entry(1, "gato", "cat"), entry(2, "perro", "dog"), entry(3, "vaca", "cow")],
        vec![],
        vec![],
    );
    let sampled = store.random_items(2);
    assert_eq!(sampled.len(), 2);
    assert_ne!(sampled[0].id, sampled[1].id);
    for item in &sampled {
        assert!(item.id >= 1 && item.id <= 3);
    }
}

#[test]
fn adding_an_entry_uses_the_next_identifier() {
    let mut store = load_vocab(vec![entry(4, "gato", "cat"), entry(9, "perro", "dog")], vec![], vec![]);
    assert!(store.can_add());
    let added = store.add_item("vaca", "cow");
    assert_eq!(added.id, 10);
    assert_eq!(added.in_native_lang, "vaca");
    assert_eq!(added.transliterated.as_deref(), Some("cow"));
    assert!(added.in_original_lang.is_none());
    let sampled = store.random_items(100);
    assert_eq!(sampled.len(), 3);
    assert!(sampled.iter().any(|i| i.id == 10 && i.in_native_lang == "vaca"));
}

#[test]
fn items_returns_every_entry_once() {
    let mut store = load_vocab(vec![entry(1, "gato", "cat"), entry(2, "perro", "dog")], vec![], vec![]);
    store.add_item("vaca", "cow");
    let mut ids: Vec<usize> = store.items().iter().map(|i| i.id).collect();
    ids.sort();
    assert_eq!(ids, vec![1, 2, 3]);
}

#[test]
fn items_reflects_duplicate_identifiers_deduplicated() {
    let store = load_vocab(
        vec![entry(5, "gato", "cat"), entry(5, "perro", "dog"), entry(6, "vaca", "cow")],
        vec![],
        vec![],
    );
    let all = store.items();
    assert_eq!(all.len(), 2);
    let winner = all.iter().find(|i| i.id == 5).unwrap();
    assert_eq!(winner.in_native_lang, "perro");
}

#[test]
fn quiz_without_input_reports_no_tally() {
    // The test process has no terminal input to offer, so the first read
    // ends the session before any tally exists.
    let items = vec![entry(1, "gato", "cat")];
    let result = quiz(&items, &QuestionType::NativeToForeign);
    assert_eq!(result, None);
}

#[test]
fn quiz_over_no_items_tallies_zero() {
    let items: Vec<VocabItem> = vec![];
    let result = quiz(&items, &QuestionType::Bidirectional);
    assert_eq!(result, Some(QuizResult { correct: 0, wrong: 0 }));
}
