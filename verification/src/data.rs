//! The vocabulary dataset: entry and label records, identifier maps, and the
//! in-memory store with random sampling and entry insertion.

use vstd::prelude::*;

use std::collections::HashMap;
use rand::seq::IteratorRandom;

verus! {

broadcast use vstd::std_specs::hash::group_hash_axioms;

/// One vocabulary record: a word in the learner's own language, optionally a
/// transliterated foreign form and an original-script form, and the moment it
/// was added, as seconds since the Unix epoch.
pub struct VocabItem {
    pub id: usize,
    pub in_native_lang: String,
    pub transliterated: Option<String>,
    pub in_original_lang: Option<String>,
    pub time_added: i64,
}

impl Clone for VocabItem {
    fn clone(&self) -> (r: Self)
        ensures
            r == *self,
    {
        VocabItem {
            id: self.id,
            in_native_lang: self.in_native_lang.clone(),
            transliterated: match &self.transliterated {
                Some(t) => Some(t.clone()),
                None => None,
            },
            in_original_lang: match &self.in_original_lang {
                Some(t) => Some(t.clone()),
                None => None,
            },
            time_added: self.time_added,
        }
    }
}

/// What a label classifies: a word's grammatical type, its subject area, or
/// an ad-hoc grouping.
#[derive(Debug, Clone, Copy, PartialEq, Eq, Structural)]
pub enum LabelType {
    WordType,
    WordArea,
    Group,
}

/// One label record.
pub struct Label {
    pub id: usize,
    pub display_name: String,
    pub label_type: LabelType,
}

/// One row of the item-to-label relation.
#[derive(Debug, Clone, Copy, PartialEq, Eq, Structural)]
pub struct ItemLabel {
    pub item_id: usize,
    pub label_id: usize,
}

/// A record keyed by a numeric identifier.
pub trait HasId {
    /// The record's identifier, as the specifications see it.
    spec fn spec_id(&self) -> usize;

    /// The record's identifier.
    fn id(&self) -> (r: usize)
        ensures
            r == self.spec_id(),
    ;
}

impl HasId for VocabItem {
    open spec fn spec_id(&self) -> usize {
        self.id
    }

    fn id(&self) -> usize {
        self.id
    }
}

impl HasId for Label {
    open spec fn spec_id(&self) -> usize {
        self.id
    }

    fn id(&self) -> usize {
        self.id
    }
}

/// The identifier map of a sequence of records: each record stands under its
/// own identifier, and of two records with the same identifier the later one
/// wins.
pub open spec fn id_map_of<T: HasId>(s: Seq<T>) -> Map<usize, T>
    decreases s.len(),
{
    if s.len() == 0 {
        Map::empty()
    } else {
        id_map_of(s.drop_last()).insert(s.last().spec_id(), s.last())
    }
}

/// Every key of the identifier map is the identifier of some record, each
/// entry carries its own key as identifier, and every record's identifier
/// is a key.
pub proof fn lemma_id_map_keys<T: HasId>(s: Seq<T>)
    ensures
        forall|k: usize| #[trigger] id_map_of(s).contains_key(k) ==> id_map_of(s)[k].spec_id() == k
            && (exists|i: int| 0 <= i < s.len() && s[i].spec_id() == k),
        forall|i: int| 0 <= i < s.len() ==> id_map_of(s).contains_key(#[trigger] s[i].spec_id()),
    decreases s.len(),
{
    if s.len() > 0 {
        lemma_id_map_keys(s.drop_last());
        assert forall|i: int| 0 <= i < s.len() implies id_map_of(s).contains_key(
            #[trigger] s[i].spec_id(),
        ) by {
            if i < s.len() - 1 {
                assert(s.drop_last()[i] == s[i]);
            }
        }
        assert forall|k: usize| #[trigger] id_map_of(s).contains_key(k) implies id_map_of(
            s,
        )[k].spec_id() == k && (exists|i: int| 0 <= i < s.len() && s[i].spec_id() == k) by {
            if k == s.last().spec_id() {
                assert(s[s.len() - 1].spec_id() == k);
            } else {
                assert(id_map_of(s.drop_last()).contains_key(k));
                let i = choose|i: int|
                    0 <= i < s.drop_last().len() && s.drop_last()[i].spec_id() == k;
                assert(s[i].spec_id() == k);
            }
        }
    }
}

/// Keys a list of records by their identifiers; of two records with the same
/// identifier the later one wins.
pub fn to_id_map<T: HasId>(items: Vec<T>) -> (r: HashMap<usize, T>)
    ensures
        r@ == id_map_of(items@),
{
    let ghost orig = items@;
    let mut items = items;
    let mut m: HashMap<usize, T> = HashMap::new();
    while items.len() > 0
        invariant
            items@.len() <= orig.len(),
            items@ =~= orig.subrange(orig.len() - items@.len(), orig.len() as int),
            m@ == id_map_of(orig.take(orig.len() - items@.len())),
        decreases items@.len(),
    {
        let ghost done = orig.len() - items@.len();
        let x = items.remove(0);
        proof {
            assert(x == orig[done]);
            assert(orig.take(done + 1).drop_last() =~= orig.take(done));
            assert(orig.take(done + 1).last() == x);
            assert(items@ =~= orig.subrange(orig.len() - items@.len(), orig.len() as int));
        }
        let k = x.id();
        m.insert(k, x);
    }
    proof {
        assert(orig.take(orig.len() as int) =~= orig);
        assert(items@.len() == 0);
    }
    m
}

/// The in-memory vocabulary store: entries and labels keyed by identifier,
/// the item-to-label relation, and the highest identifier handed out so far.
pub struct Vocab {
    vocab: HashMap<usize, VocabItem>,
    labels: HashMap<usize, Label>,
    label_mapping: Vec<ItemLabel>,
    max_id: usize,
}

impl View for Vocab {
    type V = Map<usize, VocabItem>;

    closed spec fn view(&self) -> Map<usize, VocabItem> {
        self.vocab@
    }
}

impl Vocab {
    /// Every entry stands under its own identifier, and no identifier is
    /// above the highest one recorded.
    pub closed spec fn wf(&self) -> bool {
        forall|k: usize| #[trigger] self.vocab@.contains_key(k) ==> self.vocab@[k].id == k
            && k <= self.max_id
    }

    /// The labels keyed by identifier.
    pub closed spec fn labels_view(&self) -> Map<usize, Label> {
        self.labels@
    }

    /// The item-to-label relation.
    pub closed spec fn mapping_view(&self) -> Seq<ItemLabel> {
        self.label_mapping@
    }

    /// The identifier the next added entry will receive.
    pub closed spec fn next_id(&self) -> int {
        self.max_id + 1
    }

    /// Whether a fresh identifier is still available, so that an entry can
    /// be added.
    pub fn can_add(&self) -> (r: bool)
        ensures
            r == (self.next_id() <= usize::MAX),
    {
        self.max_id < usize::MAX
    }

    /// Draws up to `n` entries from the store, distinct and in no promised
    /// order; when the store holds fewer than `n`, all of them.
    pub fn random_items(&self, n: usize) -> (r: Vec<VocabItem>)
        requires
            self.wf(),
        ensures
            r@.len() == vstd::math::min(n as int, self@.dom().len() as int),
            forall|i: int| 0 <= i < r@.len() ==> self@.contains_key(#[trigger] r@[i].id)
                && self@[r@[i].id] == r@[i],
            forall|i: int, j: int| 0 <= i < j < r@.len() ==> r@[i].id != r@[j].id,
    {
        let keys = sample_keys(&self.vocab, n);
        let mut out: Vec<VocabItem> = Vec::new();
        let mut i: usize = 0;
        while i < keys.len()
            invariant
                self.wf(),
                i <= keys@.len(),
                out@.len() == i,
                forall|k: int| 0 <= k < keys@.len() ==> self.vocab@.contains_key(
                    #[trigger] keys@[k],
                ),
                forall|k: int, l: int| 0 <= k < l < keys@.len() ==> keys@[k] != keys@[l],
                forall|k: int| 0 <= k < i ==> #[trigger] out@[k].id == keys@[k]
                    && self.vocab@.contains_key(out@[k].id) && self.vocab@[out@[k].id] == out@[k],
            decreases keys@.len() - i,
        {
            let k = keys[i];
            let item = self.vocab.get(&k).unwrap();
            out.push(item.clone());
            i = i + 1;
        }
        out
    }

    /// Adds one entry with the given texts, under a fresh identifier one above
    /// the highest handed out so far, stamped with the present moment; the
    /// created entry is returned so the caller can persist it. Labels and
    /// the item-to-label relation are untouched, and the next add will use
    /// the identifier one above this one.
    pub fn add_item(&mut self, native: &str, transliterated: &str) -> (r: VocabItem)
        requires
            old(self).wf(),
            old(self).next_id() <= usize::MAX,
        ensures
            final(self).wf(),
            r.id == old(self).next_id(),
            !old(self)@.contains_key(r.id),
            forall|k: usize| old(self)@.contains_key(k) ==> k < r.id,
            r.in_native_lang@ == native@,
            (r.transliterated matches Some(t) && t@ == transliterated@),
            r.in_original_lang is None,
            final(self)@ == old(self)@.insert(r.id, r),
            final(self).labels_view() == old(self).labels_view(),
            final(self).mapping_view() == old(self).mapping_view(),
            final(self).next_id() == r.id + 1,
    {
        let id = self.max_id + 1;
        let item = VocabItem {
            id,
            in_native_lang: native.to_owned(),
            transliterated: Some(transliterated.to_owned()),
            in_original_lang: None,
            time_added: now_timestamp(),
        };
        let r = item.clone();
        self.vocab.insert(id, item);
        self.max_id = id;
        r
    }

    /// All entries of the store, in no promised order: as many as the store
    /// holds, each standing in it under its own identifier, and every
    /// identifier of the store among them.
    pub fn items(&self) -> (r: Vec<VocabItem>)
        requires
            self.wf(),
        ensures
            r@.len() == self@.dom().len(),
            forall|i: int| 0 <= i < r@.len() ==> self@.contains_key(#[trigger] r@[i].id)
                && self@[r@[i].id] == r@[i],
            forall|k: usize| #[trigger] self@.contains_key(k) ==> exists|i: int|
                0 <= i < r@.len() && r@[i].id == k,
    {
        let r = map_values(&self.vocab);
        proof {
            assert forall|i: int| 0 <= i < r@.len() implies self@.contains_key(
                #[trigger] r@[i].id,
            ) && self@[r@[i].id] == r@[i] by {
                let k = choose|k: usize| self.vocab@.contains_key(k) && self.vocab@[k] == r@[i];
                assert(r@[i].id == k);
            }
            assert forall|k: usize| #[trigger] self@.contains_key(k) implies exists|i: int|
                0 <= i < r@.len() && r@[i].id == k by {
                let i = choose|i: int| 0 <= i < r@.len() && r@[i] == self.vocab@[k];
                assert(r@[i].id == k);
            }
        }
        r
    }
}

/// Relies on std's `HashMap::values`: the iterator yields the value of every
/// entry of the map, each entry exactly once.
#[verifier::external_body]
fn map_values(m: &HashMap<usize, VocabItem>) -> (r: Vec<VocabItem>)
    ensures
        r@.len() == m@.dom().len(),
        forall|i: int| #![trigger r@[i]] 0 <= i < r@.len() ==> exists|k: usize|
            #[trigger] m@.contains_key(k) && m@[k] == r@[i],
        forall|k: usize| #[trigger] m@.contains_key(k) ==> exists|i: int| 0 <= i < r@.len()
            && r@[i] == m@[k],
{
    m.values().cloned().collect()
}

/// The highest identifier among the records, or zero when there are none.
pub open spec fn max_id_of(s: Seq<VocabItem>) -> int
    decreases s.len(),
{
    if s.len() == 0 {
        0
    } else if s.last().id > max_id_of(s.drop_last()) {
        s.last().id as int
    } else {
        max_id_of(s.drop_last())
    }
}

/// Builds the store from the records of the three backing tables; entries
/// and labels are keyed by their identifiers, later records winning over
/// earlier ones with the same identifier. The next added entry will stand
/// one above the highest identifier loaded.
pub fn load_vocab(items: Vec<VocabItem>, labels: Vec<Label>, label_mapping: Vec<ItemLabel>) -> (r:
    Vocab)
    ensures
        r@ == id_map_of(items@),
        r.labels_view() == id_map_of(labels@),
        r.mapping_view() == label_mapping@,
        r.wf(),
        r.next_id() == max_id_of(items@) + 1,
{
    let mut max_id: usize = 0;
    let mut i: usize = 0;
    while i < items.len()
        invariant
            i <= items@.len(),
            max_id == max_id_of(items@.take(i as int)),
            forall|k: int| 0 <= k < i ==> #[trigger] items@[k].id <= max_id,
        decreases items@.len() - i,
    {
        let id = items[i].id;
        proof {
            assert(items@.take(i + 1).drop_last() =~= items@.take(i as int));
            assert(items@.take(i + 1).last() == items@[i as int]);
        }
        if id > max_id {
            max_id = id;
        }
        i = i + 1;
    }
    proof {
        assert(items@.take(items@.len() as int) =~= items@);
    }
    let ghost items_seq = items@;
    let vocab = to_id_map(items);
    proof {
        lemma_id_map_keys(items_seq);
    }
    Vocab { vocab, labels: to_id_map(labels), label_mapping, max_id }
}

/// Relies on rand's `IteratorRandom::sample` over `HashMap::keys`: the result
/// takes `min(n, len)` elements of the iterator, each from a distinct
/// position, and `keys` yields every key of the map exactly once.
#[verifier::external_body]
fn sample_keys(m: &HashMap<usize, VocabItem>, n: usize) -> (r: Vec<usize>)
    ensures
        r@.len() == vstd::math::min(n as int, m@.dom().len() as int),
        forall|i: int| 0 <= i < r@.len() ==> m@.contains_key(#[trigger] r@[i]),
        forall|i: int, j: int| 0 <= i < j < r@.len() ==> r@[i] != r@[j],
{
    let mut rng = rand::rng();
    m.keys().copied().sample(&mut rng, n)
}

/// Relies on chrono's `DateTime::<Utc>::from` over `std::time::SystemTime::now`:
/// the clock decides the result, so nothing is promised of it. This path, unlike
/// `Utc::now`, turns a clock before the Unix epoch into a negative count instead
/// of unwinding.
#[verifier::external_body]
fn now_timestamp() -> i64 {
    chrono::DateTime::<chrono::Utc>::from(std::time::SystemTime::now()).timestamp()
}

} // verus!
