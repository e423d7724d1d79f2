//! A map from strings to values that keeps its entries in lexicographic
//! order of their keys, so that equal contents are always listed alike.

use crate::text::{compare, lemma_lex_irreflexive, lemma_lex_transitive, lex_lt, Rank};
use vstd::prelude::*;

verus! {

/// `keys` is strictly increasing in lexicographic order.
pub open spec fn strictly_sorted(keys: Seq<Seq<char>>) -> bool {
    forall|i: int, j: int| 0 <= i < j < keys.len() ==> lex_lt(#[trigger] keys[i], #[trigger] keys[j])
}

/// In a strictly increasing sequence no key occurs twice.
pub proof fn lemma_sorted_distinct(keys: Seq<Seq<char>>, i: int, j: int)
    requires
        strictly_sorted(keys),
        0 <= i < keys.len(),
        0 <= j < keys.len(),
        keys[i] == keys[j],
    ensures
        i == j,
{
    lemma_lex_irreflexive(keys[i]);
    if i < j {
        assert(lex_lt(keys[i], keys[j]));
    } else if j < i {
        assert(lex_lt(keys[j], keys[i]));
    }
}

/// Two strictly increasing sequences that hold the same keys are the same
/// sequence: a set of keys can be listed in one way only.
pub proof fn lemma_sorted_listing_is_unique(a: Seq<Seq<char>>, b: Seq<Seq<char>>)
    requires
        strictly_sorted(a),
        strictly_sorted(b),
        forall|k: Seq<char>| a.contains(k) <==> b.contains(k),
    ensures
        a == b,
    decreases a.len(),
{
    if a.len() == 0 {
        if b.len() > 0 {
            assert(b.contains(b[0]));
        }
        assert(a =~= b);
    } else {
        assert(a.contains(a.last()));
        assert(b.contains(a.last()));
        let j = b.index_of(a.last());
        assert(b.contains(b.last()));
        assert(a.contains(b.last()));
        let i = a.index_of(b.last());
        if a.last() != b.last() {
            assert(lex_lt(b[j], b[b.len() - 1]));
            assert(lex_lt(a[i], a[a.len() - 1]));
            lemma_lex_transitive(a.last(), b.last(), a.last());
            lemma_lex_irreflexive(a.last());
        }
        let x = a.drop_last();
        let y = b.drop_last();
        assert forall|k: Seq<char>| x.contains(k) <==> y.contains(k) by {
            if x.contains(k) {
                let n = x.index_of(k);
                assert(a[n] == k);
                assert(a.contains(k));
                lemma_lex_irreflexive(k);
                assert(lex_lt(a[n], a[a.len() - 1]));
                let m = b.index_of(k);
                assert(y[m] == k);
            }
            if y.contains(k) {
                let n = y.index_of(k);
                assert(b[n] == k);
                assert(b.contains(k));
                lemma_lex_irreflexive(k);
                assert(lex_lt(b[n], b[b.len() - 1]));
                let m = a.index_of(k);
                assert(x[m] == k);
            }
        }
        lemma_sorted_listing_is_unique(x, y);
        assert(a =~= x.push(a.last()));
        assert(b =~= y.push(b.last()));
    }
}

/// A map keyed by strings. Its view is the mathematical map from each key's
/// characters to the value stored under it.
#[derive(Clone, Debug, PartialEq, Eq)]
pub struct OrderedMap<V> {
    entries: Vec<(String, V)>,
}

impl<V> OrderedMap<V> {
    /// The keys, in the order in which the entries are listed.
    pub closed spec fn keys(&self) -> Seq<Seq<char>> {
        Seq::new(self.entries@.len(), |i: int| self.entries@[i].0@)
    }

    /// The values, each at the position of its key in `keys`.
    pub closed spec fn values(&self) -> Seq<V> {
        Seq::new(self.entries@.len(), |i: int| self.entries@[i].1)
    }

    /// The keys are listed in strictly increasing order. Every map that the
    /// functions of this type hand out is well-formed.
    pub closed spec fn wf(&self) -> bool {
        strictly_sorted(self.keys())
    }

    /// The contents as a mathematical map.
    pub closed spec fn view(&self) -> Map<Seq<char>, V> {
        Map::new(
            |k: Seq<char>| self.keys().contains(k),
            |k: Seq<char>| self.values()[self.keys().index_of(k)],
        )
    }

    /// How the listing and the view belong together: the listing is sorted,
    /// holds exactly the keys of the view, and pairs each with its value.
    pub proof fn lemma_listing(&self)
        requires
            self.wf(),
        ensures
            strictly_sorted(self.keys()),
            self.keys().len() == self.values().len(),
            forall|k: Seq<char>| self@.contains_key(k) <==> self.keys().contains(k),
            forall|i: int|
                0 <= i < self.keys().len() ==> self@.contains_key(#[trigger] self.keys()[i])
                    && self@[self.keys()[i]] == self.values()[i],
            self@.dom().finite(),
            self@.dom().len() == self.keys().len(),
    {
        let keys = self.keys();
        assert(keys.no_duplicates()) by {
            assert forall|i: int, j: int|
                0 <= i < keys.len() && 0 <= j < keys.len() && i != j implies keys[i] != keys[j] by {
                if keys[i] == keys[j] {
                    lemma_sorted_distinct(keys, i, j);
                }
            }
        }
        keys.unique_seq_to_set();
        vstd::seq_lib::seq_to_set_is_finite(keys);
        assert(self@.dom() =~= keys.to_set());
        assert forall|i: int| 0 <= i < keys.len() implies self@.contains_key(#[trigger] keys[i])
            && self@[keys[i]] == self.values()[i] by {
            assert(keys.contains(keys[i]));
            let j = keys.index_of(keys[i]);
            lemma_sorted_distinct(keys, i, j);
        }
    }

    /// Equal contents are listed alike: two well-formed maps with the same
    /// view list the same keys with the same values, in the same order.
    pub proof fn lemma_listing_is_canonical(&self, other: &OrderedMap<V>)
        requires
            self.wf(),
            other.wf(),
            self@ == other@,
        ensures
            self.keys() == other.keys(),
            self.values() == other.values(),
    {
        self.lemma_listing();
        other.lemma_listing();
        assert forall|k: Seq<char>| self.keys().contains(k) <==> other.keys().contains(k) by {
            assert(self@.contains_key(k) <==> other@.contains_key(k));
        }
        lemma_sorted_listing_is_unique(self.keys(), other.keys());
        assert forall|i: int| 0 <= i < self.values().len() implies self.values()[i]
            == other.values()[i] by {
            assert(self@[self.keys()[i]] == self.values()[i]);
            assert(other@[other.keys()[i]] == other.values()[i]);
        }
        assert(self.values() =~= other.values());
    }

    /// A map without entries.
    pub fn new() -> (m: Self)
        ensures
            m.wf(),
            m@ == Map::<Seq<char>, V>::empty(),
            m.keys() == Seq::<Seq<char>>::empty(),
    {
        let m = OrderedMap { entries: Vec::new() };
        assert(m.keys() =~= Seq::<Seq<char>>::empty());
        assert(m@ =~= Map::<Seq<char>, V>::empty());
        m
    }

    /// The number of entries.
    pub fn len(&self) -> (n: usize)
        requires
            self.wf(),
        ensures
            n == self.keys().len(),
            n == self.values().len(),
            n == self@.dom().len(),
    {
        proof {
            self.lemma_listing();
        }
        self.entries.len()
    }

    /// Whether the map has no entry.
    pub fn is_empty(&self) -> (b: bool)
        requires
            self.wf(),
        ensures
            b == (self.keys().len() == 0),
            b == (self@ == Map::<Seq<char>, V>::empty()),
    {
        proof {
            self.lemma_listing();
            if self.keys().len() == 0 {
                assert(self@ =~= Map::<Seq<char>, V>::empty());
            } else {
                assert(self@.contains_key(self.keys()[0]));
            }
        }
        self.entries.len() == 0
    }

    /// The key of the entry at position `i` of the listing.
    pub fn key_at(&self, i: usize) -> (key: &String)
        requires
            i < self.keys().len(),
        ensures
            key@ == self.keys()[i as int],
    {
        &self.entries[i].0
    }

    /// The value of the entry at position `i` of the listing.
    pub fn value_at(&self, i: usize) -> (value: &V)
        requires
            self.wf(),
            i < self.keys().len(),
        ensures
            *value == self.values()[i as int],
            self@.contains_key(self.keys()[i as int]),
            *value == self@[self.keys()[i as int]],
    {
        proof {
            self.lemma_listing();
        }
        &self.entries[i].1
    }

    /// The position at which `key` stands or would have to be put, and
    /// whether it stands there.
    fn locate(&self, key: &str) -> (at: (usize, bool))
        requires
            self.wf(),
        ensures
            at.0 <= self.keys().len(),
            forall|j: int| 0 <= j < at.0 ==> lex_lt(#[trigger] self.keys()[j], key@),
            at.1 ==> at.0 < self.keys().len() && self.keys()[at.0 as int] == key@,
            !at.1 ==> !self.keys().contains(key@),
            !at.1 && at.0 < self.keys().len() ==> lex_lt(key@, self.keys()[at.0 as int]),
    {
        let mut i: usize = 0;
        while i < self.entries.len()
            invariant
                i <= self.entries.len(),
                self.keys().len() == self.entries.len(),
                strictly_sorted(self.keys()),
                forall|j: int| 0 <= j < i ==> lex_lt(#[trigger] self.keys()[j], key@),
            decreases self.entries.len() - i,
        {
            let rank = compare(self.entries[i].0.as_str(), key);
            assert(self.keys()[i as int] == self.entries@[i as int].0@);
            match rank {
                Rank::Before => {},
                Rank::Same => {
                    return (i, true);
                },
                Rank::After => {
                    proof {
                        crate::text::lemma_lex_total(self.keys()[i as int], key@);
                        self.lemma_absent(key@, i as int);
                    }
                    return (i, false);
                },
            }
            i += 1;
        }
        proof {
            self.lemma_absent(key@, i as int);
        }
        (i, false)
    }

    /// A key that falls between two neighbours of the listing is not in it.
    proof fn lemma_absent(&self, key: Seq<char>, at: int)
        requires
            strictly_sorted(self.keys()),
            0 <= at <= self.keys().len(),
            forall|j: int| 0 <= j < at ==> lex_lt(#[trigger] self.keys()[j], key),
            at < self.keys().len() ==> lex_lt(key, self.keys()[at]),
        ensures
            !self.keys().contains(key),
    {
        let keys = self.keys();
        if keys.contains(key) {
            let j = keys.index_of(key);
            lemma_lex_irreflexive(key);
            if j > at {
                assert(lex_lt(keys[at], keys[j]));
                lemma_lex_transitive(key, keys[at], keys[j]);
            }
        }
    }

    /// Whether an entry stands under `key`.
    pub fn contains_key(&self, key: &str) -> (b: bool)
        requires
            self.wf(),
        ensures
            b == self@.contains_key(key@),
    {
        let at = self.locate(key);
        at.1
    }

    /// The value stored under `key`, if there is one.
    pub fn get(&self, key: &str) -> (value: Option<&V>)
        requires
            self.wf(),
        ensures
            value is Some <==> self@.contains_key(key@),
            value matches Some(v) ==> *v == self@[key@],
    {
        proof {
            self.lemma_listing();
        }
        let at = self.locate(key);
        if at.1 {
            Some(&self.entries[at.0].1)
        } else {
            None
        }
    }

    /// Stores `value` under `key`. A value that stood there before is
    /// replaced; every other entry stays.
    pub fn insert(&mut self, key: String, value: V)
        requires
            old(self).wf(),
        ensures
            final(self).wf(),
            final(self)@ == old(self)@.insert(key@, value),
    {
        proof {
            self.lemma_listing();
        }
        let at = self.locate(key.as_str());
        let ghost before = *self;
        if at.1 {
            self.entries.set(at.0, (key, value));
            proof {
                assert(self.keys() =~= before.keys());
                assert(self.values() =~= before.values().update(at.0 as int, value));
                self.lemma_listing();
                assert forall|k: Seq<char>| #[trigger]
                    before@.insert(key@, value).contains_key(k) implies self@[k]
                    == before@.insert(key@, value)[k] by {
                    let i = self.keys().index_of(k);
                    assert(before.keys()[i] == k);
                    if i == at.0 as int {
                        lemma_sorted_distinct(self.keys(), i, at.0 as int);
                    }
                }
                assert(self@ =~= before@.insert(key@, value));
            }
        } else {
            self.entries.insert(at.0, (key, value));
            proof {
                assert(self.keys() =~= before.keys().insert(at.0 as int, key@));
                assert(self.values() =~= before.values().insert(at.0 as int, value));
                let keys = self.keys();
                assert forall|i: int, j: int| 0 <= i < j < keys.len() implies lex_lt(
                    #[trigger] keys[i],
                    #[trigger] keys[j],
                ) by {
                    let p = at.0 as int;
                    if j < p {
                        assert(lex_lt(before.keys()[i], before.keys()[j]));
                    } else if j == p {
                        assert(lex_lt(before.keys()[i], key@));
                    } else if i == p {
                        assert(keys[j] == before.keys()[j - 1]);
                        if j - 1 > p {
                            assert(lex_lt(before.keys()[p], before.keys()[j - 1]));
                            lemma_lex_transitive(key@, before.keys()[p], before.keys()[j - 1]);
                        }
                    } else if i < p {
                        assert(keys[j] == before.keys()[j - 1]);
                        assert(lex_lt(before.keys()[i], before.keys()[j - 1]));
                    } else {
                        assert(keys[i] == before.keys()[i - 1]);
                        assert(keys[j] == before.keys()[j - 1]);
                        assert(lex_lt(before.keys()[i - 1], before.keys()[j - 1]));
                    }
                }
                self.lemma_listing();
                let p = at.0 as int;
                assert(keys[p] == key@);
                assert forall|k: Seq<char>| #[trigger]
                    self@.contains_key(k) <==> before@.insert(key@, value).contains_key(k) by {
                    if self@.contains_key(k) {
                        let i = keys.index_of(k);
                        if i < p {
                            assert(before.keys()[i] == k);
                        } else if i > p {
                            assert(before.keys()[i - 1] == k);
                        }
                    }
                    if before@.contains_key(k) {
                        let i = before.keys().index_of(k);
                        if i < p {
                            assert(keys[i] == k);
                        } else {
                            assert(keys[i + 1] == k);
                        }
                    }
                }
                assert forall|k: Seq<char>| #[trigger]
                    before@.insert(key@, value).contains_key(k) implies self@[k]
                    == before@.insert(key@, value)[k] by {
                    assert(self@.contains_key(k));
                    assert(keys.contains(k));
                    let i = keys.index_of(k);
                    assert(self@[keys[i]] == self.values()[i]);
                    if i < p {
                        assert(before.keys()[i] == k);
                        assert(self.values()[i] == before.values()[i]);
                    } else if i > p {
                        assert(before.keys()[i - 1] == k);
                        assert(self.values()[i] == before.values()[i - 1]);
                    }
                }
                assert(self@ =~= before@.insert(key@, value));
            }
        }
    }

    /// Moves every entry of `other` into this map. Where both hold a key, the
    /// value of `other` stays.
    pub fn extend(&mut self, other: OrderedMap<V>)
        requires
            old(self).wf(),
            other.wf(),
        ensures
            final(self).wf(),
            final(self)@ == old(self)@.union_prefer_right(other@),
    {
        proof {
            other.lemma_listing();
        }
        let ghost source = other;
        let ghost start = *self;
        let OrderedMap { entries } = other;
        let mut rest = entries;
        assert(self@ =~= start@.union_prefer_right(source.from_position(rest@.len() as int)));
        while rest.len() > 0
            invariant
                source.wf(),
                self.wf(),
                rest@.len() <= source.keys().len(),
                source.keys().len() == source.values().len(),
                forall|i: int|
                    0 <= i < rest@.len() ==> (#[trigger] rest@[i]).0@ == source.keys()[i]
                        && rest@[i].1 == source.values()[i],
                self@ == start@.union_prefer_right(source.from_position(rest@.len() as int)),
            decreases rest.len(),
        {
            let ghost n = rest@.len() - 1;
            let entry = rest.pop().unwrap();
            let (key, value) = entry;
            proof {
                source.lemma_listing();
                assert(key@ == source.keys()[n] && value == source@[key@]);
            }
            self.insert(key, value);
            proof {
                let before = source.from_position(n + 1);
                let after = source.from_position(n);
                assert(after.contains_key(source.keys()[n]));
                assert forall|k: Seq<char>| #[trigger]
                    after.contains_key(k) <==> (before.contains_key(k) || k
                        == source.keys()[n]) by {
                    if after.contains_key(k) {
                        let i = choose|i: int|
                            n <= i < source.keys().len() && source.keys()[i] == k;
                        if i > n {
                            assert(n + 1 <= i);
                        }
                    }
                }
                assert(self@ =~= start@.union_prefer_right(after));
            }
        }
        proof {
            source.lemma_listing();
            assert forall|k: Seq<char>| source.from_position(0).contains_key(k)
                <==> source@.contains_key(k) by {
                if source@.contains_key(k) {
                    let i = source.keys().index_of(k);
                    assert(source.keys()[i] == k);
                }
            }
            assert(source.from_position(0) =~= source@);
        }
    }

    /// The entries whose keys are listed at position `from` or later.
    spec fn from_position(&self, from: int) -> Map<Seq<char>, V> {
        Map::new(
            |k: Seq<char>| exists|i: int| from <= i < self.keys().len() && self.keys()[i] == k,
            |k: Seq<char>| self@[k],
        )
    }
}

impl OrderedMap<String> {
    /// The contents with each value as the sequence of its characters.
    pub open spec fn text(&self) -> Map<Seq<char>, Seq<char>> {
        self@.map_values(|v: String| v@)
    }

    /// A map with the same entries.
    pub fn duplicate(&self) -> (copy: Self)
        requires
            self.wf(),
        ensures
            copy.wf(),
            copy@ == self@,
            copy.keys() == self.keys(),
    {
        let mut entries: Vec<(String, String)> = Vec::new();
        let mut i: usize = 0;
        while i < self.entries.len()
            invariant
                i <= self.entries.len(),
                entries@ =~= self.entries@.take(i as int),
            decreases self.entries.len() - i,
        {
            entries.push((self.entries[i].0.clone(), self.entries[i].1.clone()));
            i += 1;
        }
        let copy = OrderedMap { entries };
        assert(copy.entries@ =~= self.entries@);
        assert(copy.keys() =~= self.keys());
        assert(copy.values() =~= self.values());
        copy
    }
}

/// Taking the characters of each value goes along with storing an entry.
pub proof fn lemma_text_insert(m: Map<Seq<char>, String>, key: Seq<char>, value: String)
    ensures
        m.insert(key, value).map_values(|v: String| v@) == m.map_values(|v: String| v@).insert(
            key,
            value@,
        ),
{
    assert(m.insert(key, value).map_values(|v: String| v@) =~= m.map_values(|v: String| v@).insert(
        key,
        value@,
    ));
}

/// Taking the characters of each value goes along with merging two maps.
pub proof fn lemma_text_union(a: Map<Seq<char>, String>, b: Map<Seq<char>, String>)
    ensures
        a.union_prefer_right(b).map_values(|v: String| v@) == a.map_values(
            |v: String| v@,
        ).union_prefer_right(b.map_values(|v: String| v@)),
{
    assert(a.union_prefer_right(b).map_values(|v: String| v@) =~= a.map_values(
        |v: String| v@,
    ).union_prefer_right(b.map_values(|v: String| v@)));
}

} // verus!
