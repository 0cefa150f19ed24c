//! A small ordered map from strings to values.
//!
//! The entries keep the order in which their keys first came. No key occurs
//! twice: inserting under a key that is present replaces its value in place.

use vstd::prelude::*;
use crate::text::str_eq;

verus! {

/// An ordered map keyed by strings.
#[derive(Debug)]
pub struct StringMap<V> {
    entries: Vec<(String, V)>,
}

impl<V> StringMap<V> {
    /// The entries in order, as stored.
    pub closed spec fn entries(&self) -> Seq<(String, V)> {
        self.entries@
    }

    /// The keys in order.
    pub open spec fn keys(&self) -> Seq<Seq<char>> {
        Seq::new(self.entries().len(), |i: int| self.entries()[i].0@)
    }

    /// The values in the order of their keys.
    pub open spec fn values(&self) -> Seq<V> {
        Seq::new(self.entries().len(), |i: int| self.entries()[i].1)
    }

    /// Whether `key` is present.
    pub open spec fn has(&self, key: Seq<char>) -> bool {
        exists|i: int| 0 <= i < self.entries().len() && #[trigger] self.entries()[i].0@ == key
    }

    /// The position of `key` among the keys, where it is present.
    pub open spec fn position(&self, key: Seq<char>) -> int {
        choose|i: int| 0 <= i < self.entries().len() && #[trigger] self.entries()[i].0@ == key
    }

    /// The value stored under `key`, where it is present.
    pub open spec fn value_of(&self, key: Seq<char>) -> V {
        self.entries()[self.position(key)].1
    }

    /// The map as a mathematical map from keys to values.
    pub open spec fn map(&self) -> Map<Seq<char>, V> {
        Map::new(|k: Seq<char>| self.has(k), |k: Seq<char>| self.value_of(k))
    }

    /// No key occurs twice.
    pub open spec fn well_formed(&self) -> bool {
        forall|i: int, j: int|
            0 <= i < j < self.entries().len() ==> #[trigger] self.entries()[i].0@
                != #[trigger] self.entries()[j].0@
    }

    /// In a well-formed map, the entry at position `i` is the one its key leads to.
    pub proof fn lemma_position(&self, i: int)
        requires
            self.well_formed(),
            0 <= i < self.entries().len(),
        ensures
            self.has(self.entries()[i].0@),
            self.position(self.entries()[i].0@) == i,
            self.value_of(self.entries()[i].0@) == self.entries()[i].1,
    {
        let key = self.entries()[i].0@;
        let p = self.position(key);
        if p != i {
            assert(self.entries()[p].0@ != key);
        }
    }

    /// A key is present exactly where it is among the keys.
    pub proof fn lemma_has_key(&self, key: Seq<char>)
        ensures
            self.has(key) == self.keys().contains(key),
    {
        if self.has(key) {
            let i = self.position(key);
            assert(self.keys()[i] == key);
        }
        if self.keys().contains(key) {
            let i = self.keys().index_of(key);
            assert(self.entries()[i].0@ == key);
        }
    }

    /// An empty map.
    pub fn new() -> (m: Self)
        ensures
            m.well_formed(),
            m.entries().len() == 0,
            m.keys() == Seq::<Seq<char>>::empty(),
            m.map() == Map::<Seq<char>, V>::empty(),
    {
        let m = StringMap { entries: Vec::new() };
        m
    }

    /// The number of entries.
    pub fn len(&self) -> (n: usize)
        ensures
            n == self.entries().len(),
    {
        self.entries.len()
    }

    /// Whether the map holds no entry.
    pub fn is_empty(&self) -> (r: bool)
        ensures
            r == (self.entries().len() == 0),
    {
        self.entries.len() == 0
    }

    /// The position of `key`, where it is present.
    pub fn find(&self, key: &str) -> (r: Option<usize>)
        requires
            self.well_formed(),
        ensures
            match r {
                Some(i) => self.has(key@) && self.position(key@) == i && i < self.entries().len()
                    && self.entries()[i as int].0@ == key@,
                None => !self.has(key@),
            },
    {
        let mut i: usize = 0;
        while i < self.entries.len()
            invariant
                i <= self.entries.len(),
                self.well_formed(),
                forall|k: int| 0 <= k < i ==> self.entries()[k].0@ != key@,
            decreases self.entries.len() - i,
        {
            if str_eq(self.entries[i].0.as_str(), key) {
                return Some(i);
            }
            i = i + 1;
        }
        None
    }

    /// Whether `key` is present.
    pub fn contains_key(&self, key: &str) -> (r: bool)
        requires
            self.well_formed(),
        ensures
            r == self.has(key@),
            r == self.map().contains_key(key@),
    {
        self.find(key).is_some()
    }

    /// The value stored under `key`.
    pub fn get(&self, key: &str) -> (r: Option<&V>)
        requires
            self.well_formed(),
        ensures
            match r {
                Some(v) => self.map().contains_key(key@) && *v == self.map()[key@],
                None => !self.map().contains_key(key@),
            },
    {
        match self.find(key) {
            Some(i) => Some(&self.entries[i].1),
            None => None,
        }
    }

    /// The key at position `i`.
    pub fn key_at(&self, i: usize) -> (r: &String)
        requires
            i < self.entries().len(),
        ensures
            r@ == self.keys()[i as int],
            *r == self.entries()[i as int].0,
    {
        &self.entries[i].0
    }

    /// The value at position `i`.
    pub fn value_at(&self, i: usize) -> (r: &V)
        requires
            i < self.entries().len(),
        ensures
            *r == self.entries()[i as int].1,
            *r == self.values()[i as int],
    {
        &self.entries[i].1
    }

    /// Stores `value` under `key`. A key that is present keeps its place and
    /// gets the new value; a new key goes to the end.
    pub fn insert(&mut self, key: String, value: V)
        requires
            old(self).well_formed(),
        ensures
            final(self).well_formed(),
            final(self).map() == old(self).map().insert(key@, value),
            old(self).has(key@) ==> final(self).keys() == old(self).keys(),
            old(self).has(key@) ==> final(self).values() == old(self).values().update(
                old(self).position(key@),
                value,
            ),
            !old(self).has(key@) ==> final(self).keys() == old(self).keys().push(key@),
            !old(self).has(key@) ==> final(self).values() == old(self).values().push(value),
    {
        let found = self.find(key.as_str());
        let ghost before = *self;
        match found {
            Some(i) => {
                self.entries[i].1 = value;
                assert(self.keys() =~= before.keys());
                assert(self.values() =~= before.values().update(i as int, value));
                proof {
                    self.lemma_map_after(before, key@, value);
                }
            },
            None => {
                self.entries.push((key, value));
                assert(self.keys() =~= before.keys().push(key@));
                assert(self.values() =~= before.values().push(value));
                proof {
                    self.lemma_map_after(before, key@, value);
                }
            },
        }
    }

    /// A map whose keys and values are those of `before`, but for `key`,
    /// which now leads to `value`, is `before`'s map with that one insertion.
    proof fn lemma_map_after(&self, before: Self, key: Seq<char>, value: V)
        requires
            self.well_formed(),
            before.well_formed(),
            before.has(key) ==> self.keys() == before.keys() && self.values()
                == before.values().update(before.position(key), value),
            !before.has(key) ==> self.keys() == before.keys().push(key) && self.values()
                == before.values().push(value),
        ensures
            self.map() == before.map().insert(key, value),
    {
        let n = before.entries().len() as int;
        assert(self.keys().len() == self.entries().len());
        assert forall|k: Seq<char>| self.has(k) == (before.has(k) || k == key) by {
            if before.has(k) {
                let p = before.position(k);
                assert(self.keys()[p] == k);
            }
            if k == key && !before.has(key) {
                assert(self.keys()[n] == k);
            }
            if self.has(k) {
                let p = self.position(k);
                assert(self.keys()[p] == k);
            }
        }
        assert forall|k: Seq<char>| self.has(k) implies self.value_of(k) == (if k == key {
            value
        } else {
            before.value_of(k)
        }) by {
            let p = self.position(k);
            assert(self.keys()[p] == k);
            assert(self.values()[p] == self.entries()[p].1);
        }
    }
}

/// The keys `keys` after an insertion under `key`: a key that is present
/// keeps its place, a new one goes to the end.
pub open spec fn keys_with(keys: Seq<Seq<char>>, key: Seq<char>) -> Seq<Seq<char>> {
    if keys.contains(key) {
        keys
    } else {
        keys.push(key)
    }
}

/// The values `values`, which stand under `keys`, after `value` is stored
/// under `key`: the value of a key that is present is replaced in place, and
/// that of a new key goes to the end.
pub open spec fn values_with(
    keys: Seq<Seq<char>>,
    values: Seq<Seq<char>>,
    key: Seq<char>,
    value: Seq<char>,
) -> Seq<Seq<char>> {
    if keys.contains(key) {
        values.update(keys.index_of(key), value)
    } else {
        values.push(value)
    }
}

impl StringMap<String> {
    /// The values in the order of their keys, as texts.
    pub open spec fn value_texts(&self) -> Seq<Seq<char>> {
        Seq::new(self.entries().len(), |i: int| self.entries()[i].1@)
    }

    /// The map as a mathematical map from keys to the texts stored under them.
    pub open spec fn text_map(&self) -> Map<Seq<char>, Seq<char>> {
        Map::new(|k: Seq<char>| self.has(k), |k: Seq<char>| self.value_of(k)@)
    }

    /// Stores the text `value` under `key`. A key that is present keeps its
    /// place and gets the new value; a new key goes to the end.
    pub fn set(&mut self, key: &str, value: &str)
        requires
            old(self).well_formed(),
        ensures
            final(self).well_formed(),
            final(self).text_map() == old(self).text_map().insert(key@, value@),
            final(self).keys() == keys_with(old(self).keys(), key@),
            final(self).value_texts() == values_with(
                old(self).keys(),
                old(self).value_texts(),
                key@,
                value@,
            ),
    {
        let ghost before = *self;
        let k = key.to_owned();
        let v_owned = value.to_owned();
        let ghost v = v_owned;
        self.insert(k, v_owned);
        proof {
            assert(before.keys().contains(key@) == before.has(key@)) by {
                if before.has(key@) {
                    let p = before.position(key@);
                    assert(before.keys()[p] == key@);
                }
            }
            assert forall|x: Seq<char>| self.has(x) == self.map().contains_key(x) by {}
            assert forall|x: Seq<char>| self.has(x) implies self.value_of(x) == self.map()[x] by {}
            if before.has(key@) {
                let p = before.position(key@);
                assert forall|i: int| 0 <= i < self.entries().len() implies self.value_texts()[i]
                    == before.value_texts().update(p, value@)[i] by {
                    assert(self.values()[i] == self.entries()[i].1);
                }
            } else {
                assert(self.values() == before.values().push(v));
                assert forall|i: int| 0 <= i < self.entries().len() implies self.value_texts()[i]
                    == before.value_texts().push(value@)[i] by {
                    assert(self.values()[i] == self.entries()[i].1);
                }
            }
        }
    }

    /// The text stored under `key`.
    pub fn get_text(&self, key: &str) -> (r: Option<&String>)
        requires
            self.well_formed(),
        ensures
            match r {
                Some(v) => self.text_map().contains_key(key@) && v@ == self.text_map()[key@],
                None => !self.text_map().contains_key(key@),
            },
    {
        self.get(key)
    }

    /// A copy of the map with the same entries in the same order.
    pub fn duplicate(&self) -> (r: Self)
        ensures
            r.entries() == self.entries(),
            r.well_formed() == self.well_formed(),
    {
        let mut entries: Vec<(String, String)> = Vec::new();
        let mut i: usize = 0;
        while i < self.entries.len()
            invariant
                i <= self.entries.len(),
                entries@ == self.entries@.take(i as int),
            decreases self.entries.len() - i,
        {
            let k = self.entries[i].0.clone();
            let v = self.entries[i].1.clone();
            entries.push((k, v));
            i = i + 1;
        }
        let r = StringMap { entries };
        assert(r.entries() == self.entries());
        r
    }
}

} // verus!
