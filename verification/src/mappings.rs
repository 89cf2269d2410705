//! Insertion-ordered text maps: the building block of the cross-reference
//! index.

use crate::text::str_eq;
use vstd::hash_map::StringHashMap;
use vstd::prelude::*;

verus! {

/// The entries of a map in insertion order, as texts.
pub type Entries = Seq<(Seq<char>, Seq<char>)>;

/// No key occurs twice.
pub open spec fn unique_keys(s: Entries) -> bool {
    forall|i: int, j: int| 0 <= i < j < s.len() ==> s[i].0 != s[j].0
}

/// The position of the first entry at or after `from` whose key is `k`, or
/// `s.len()` when there is none.
pub open spec fn key_index(s: Entries, k: Seq<char>, from: int) -> int
    decreases s.len() - from,
{
    if from < 0 || from >= s.len() {
        s.len() as int
    } else if s[from].0 == k {
        from
    } else {
        key_index(s, k, from + 1)
    }
}

/// The position of the first entry at or after `from` whose value is `v`, or
/// `s.len()` when there is none.
pub open spec fn value_index(s: Entries, v: Seq<char>, from: int) -> int
    decreases s.len() - from,
{
    if from < 0 || from >= s.len() {
        s.len() as int
    } else if s[from].1 == v {
        from
    } else {
        value_index(s, v, from + 1)
    }
}

/// The value stored under `k`.
pub open spec fn lookup(s: Entries, k: Seq<char>) -> Option<Seq<char>> {
    if key_index(s, k, 0) < s.len() {
        Some(s[key_index(s, k, 0)].1)
    } else {
        None
    }
}

/// The value stored under `k`, or `default` when `k` is absent.
pub open spec fn lookup_or(s: Entries, k: Seq<char>, default: Seq<char>) -> Seq<char> {
    match lookup(s, k) {
        Some(v) => v,
        None => default,
    }
}

/// The first key stored with the value `v`.
pub open spec fn key_of_value(s: Entries, v: Seq<char>) -> Option<Seq<char>> {
    if value_index(s, v, 0) < s.len() {
        Some(s[value_index(s, v, 0)].0)
    } else {
        None
    }
}

/// The entries after storing `v` under `k`: an existing entry keeps its place
/// and takes the new value, a new key goes to the end.
pub open spec fn inserted(s: Entries, k: Seq<char>, v: Seq<char>) -> Entries {
    if key_index(s, k, 0) < s.len() {
        s.update(key_index(s, k, 0), (k, v))
    } else {
        s.push((k, v))
    }
}

/// `key_index` stays in range, points at an entry with the key, and no
/// earlier entry has it.
pub proof fn lemma_key_index(s: Entries, k: Seq<char>, from: int)
    requires
        0 <= from <= s.len(),
    ensures
        from <= key_index(s, k, from) <= s.len(),
        key_index(s, k, from) < s.len() ==> s[key_index(s, k, from)].0 == k,
        forall|i: int| from <= i < key_index(s, k, from) ==> s[i].0 != k,
    decreases s.len() - from,
{
    if from < s.len() && s[from].0 != k {
        lemma_key_index(s, k, from + 1);
    }
}

/// Two sequences that agree on the keys up to the first `k` give the same
/// `key_index`.
pub proof fn lemma_key_index_same_keys(s: Entries, t: Entries, k: Seq<char>, from: int)
    requires
        0 <= from <= s.len(),
        s.len() <= t.len(),
        forall|i: int| 0 <= i < s.len() ==> s[i].0 == t[i].0,
    ensures
        key_index(s, k, from) < s.len() ==> key_index(t, k, from) == key_index(s, k, from),
        key_index(s, k, from) == s.len() ==> key_index(t, k, from) >= s.len(),
    decreases s.len() - from,
{
    if from < s.len() {
        if s[from].0 != k {
            lemma_key_index_same_keys(s, t, k, from + 1);
        }
    } else {
        lemma_key_index(t, k, from);
    }
}

/// After storing `v` under `k`, looking `k` up gives `v`.
pub proof fn lemma_lookup_inserted_same(s: Entries, k: Seq<char>, v: Seq<char>)
    ensures
        lookup(inserted(s, k, v), k) == Some(v),
{
    lemma_key_index(s, k, 0);
    let t = inserted(s, k, v);
    let i = key_index(s, k, 0);
    if i < s.len() {
        lemma_key_index_same_keys(s, t, k, 0);
    } else {
        lemma_key_index_same_keys(s, t, k, 0);
        lemma_key_index(t, k, 0);
        assert(t[s.len() as int].0 == k);
    }
}

/// Storing a value under `k` leaves every other key's value as it was.
pub proof fn lemma_lookup_inserted_other(s: Entries, k: Seq<char>, v: Seq<char>, other: Seq<char>)
    requires
        other != k,
    ensures
        lookup(inserted(s, k, v), other) == lookup(s, other),
{
    lemma_key_index(s, k, 0);
    lemma_key_index(s, other, 0);
    let t = inserted(s, k, v);
    lemma_key_index_same_keys(s, t, other, 0);
    lemma_key_index(t, other, 0);
}

/// Storing a value keeps the keys distinct.
pub proof fn lemma_inserted_unique(s: Entries, k: Seq<char>, v: Seq<char>)
    requires
        unique_keys(s),
    ensures
        unique_keys(inserted(s, k, v)),
{
    lemma_key_index(s, k, 0);
}

/// The map only grows: storing a value gives up no key and no entry.
pub proof fn lemma_inserted_keeps_keys(s: Entries, k: Seq<char>, v: Seq<char>, other: Seq<char>)
    ensures
        inserted(s, k, v).len() >= s.len(),
        lookup(s, other) is Some ==> lookup(inserted(s, k, v), other) is Some,
{
    lemma_key_index(s, k, 0);
    if other == k {
        lemma_lookup_inserted_same(s, k, v);
    } else {
        lemma_lookup_inserted_other(s, k, v, other);
    }
}

/// An insertion-ordered map from text to text. Storing under a key that is
/// present replaces the value and keeps the entry's place, so the map never
/// holds a key twice. A hash index from keys to places makes the lookup by
/// key independent of the size of the map.
pub struct StringMap {
    entries: Vec<(String, String)>,
    index: StringHashMap<usize>,
}

impl View for StringMap {
    type V = Entries;

    closed spec fn view(&self) -> Entries {
        Seq::new(self.entries@.len(), |i: int| (self.entries@[i].0@, self.entries@[i].1@))
    }
}

/// The index gives every key its place and knows no other key.
pub open spec fn indexes(index: Map<Seq<char>, usize>, s: Entries) -> bool {
    &&& forall|k: Seq<char>|
        index.contains_key(k) ==> (#[trigger] index[k]) < s.len() && s[index[k] as int].0 == k
    &&& forall|i: int|
        0 <= i < s.len() ==> index.contains_key((#[trigger] s[i]).0) && index[s[i].0] == i
}

/// With an index, the first entry of a key is the entry that the index gives.
pub proof fn lemma_indexed_key(index: Map<Seq<char>, usize>, s: Entries, k: Seq<char>)
    requires
        indexes(index, s),
    ensures
        unique_keys(s),
        index.contains_key(k) ==> key_index(s, k, 0) == index[k],
        !index.contains_key(k) ==> key_index(s, k, 0) == s.len(),
{
    lemma_key_index(s, k, 0);
    assert forall|i: int, j: int| 0 <= i < j < s.len() implies s[i].0 != s[j].0 by {
        assert(index[s[i].0] == i);
        assert(index[s[j].0] == j);
    }
    if index.contains_key(k) {
        let at = index[k] as int;
        assert(s[at].0 == k);
        let first = key_index(s, k, 0);
        if first < at {
            assert(index[s[first].0] == first);
        }
    } else {
        let first = key_index(s, k, 0);
        if first < s.len() {
            assert(index.contains_key(s[first].0));
        }
    }
}

impl StringMap {
    #[verifier::type_invariant]
    spec fn well_indexed(&self) -> bool {
        indexes(self.index@, self@)
    }

    /// An empty map.
    pub fn new() -> (m: Self)
        ensures
            m@ == Seq::<(Seq<char>, Seq<char>)>::empty(),
            unique_keys(m@),
    {
        let entries: Vec<(String, String)> = Vec::new();
        let index: StringHashMap<usize> = StringHashMap::new();
        let ghost view: Entries = Seq::new(
            entries@.len(),
            |i: int| (entries@[i].0@, entries@[i].1@),
        );
        assert(view =~= Seq::<(Seq<char>, Seq<char>)>::empty());
        assert(indexes(index@, view));
        let m = StringMap { entries, index };
        assert(m@ =~= Seq::<(Seq<char>, Seq<char>)>::empty());
        m
    }

    /// The number of entries.
    pub fn len(&self) -> (n: usize)
        ensures
            n == self@.len(),
    {
        self.entries.len()
    }

    /// No key occurs twice.
    pub fn keys_distinct(&self)
        ensures
            unique_keys(self@),
    {
        proof {
            use_type_invariant(self);
            lemma_indexed_key(self.index@, self@, Seq::empty());
        }
    }

    /// The key of the `i`-th entry.
    pub fn key(&self, i: usize) -> (k: &String)
        requires
            i < self@.len(),
        ensures
            k@ == self@[i as int].0,
    {
        &self.entries[i].0
    }

    /// The value of the `i`-th entry.
    pub fn value(&self, i: usize) -> (v: &String)
        requires
            i < self@.len(),
        ensures
            v@ == self@[i as int].1,
    {
        &self.entries[i].1
    }

    /// The position of the entry with key `k`.
    pub fn position(&self, k: &str) -> (r: Option<usize>)
        ensures
            match r {
                Some(i) => i == key_index(self@, k@, 0) && i < self@.len(),
                None => key_index(self@, k@, 0) == self@.len(),
            },
    {
        proof {
            use_type_invariant(self);
            lemma_indexed_key(self.index@, self@, k@);
        }
        match self.index.get(k) {
            Some(i) => Some(*i),
            None => None,
        }
    }

    /// The value stored under `k`.
    pub fn get(&self, k: &str) -> (r: Option<&String>)
        ensures
            match r {
                Some(v) => lookup(self@, k@) == Some(v@),
                None => lookup(self@, k@) is None,
            },
    {
        match self.position(k) {
            Some(i) => Some(&self.entries[i].1),
            None => None,
        }
    }

    /// Whether `k` is a key of the map.
    pub fn contains_key(&self, k: &str) -> (r: bool)
        ensures
            r == lookup(self@, k@).is_some(),
    {
        self.position(k).is_some()
    }

    /// The position of the first entry whose value is `v`.
    pub fn position_of_value(&self, v: &str) -> (r: Option<usize>)
        ensures
            match r {
                Some(i) => i == value_index(self@, v@, 0) && i < self@.len(),
                None => value_index(self@, v@, 0) == self@.len(),
            },
    {
        let mut i: usize = 0;
        while i < self.entries.len()
            invariant
                i <= self.entries.len(),
                self@.len() == self.entries.len(),
                value_index(self@, v@, 0) == value_index(self@, v@, i as int),
            decreases self.entries.len() - i,
        {
            if str_eq(self.entries[i].1.as_str(), v) {
                return Some(i);
            }
            i += 1;
        }
        None
    }

    /// Stores `v` under `k`.
    pub fn insert(&mut self, k: String, v: String)
        ensures
            final(self)@ == inserted(old(self)@, k@, v@),
            unique_keys(final(self)@),
    {
        proof {
            use_type_invariant(&*self);
            lemma_indexed_key(self.index@, self@, k@);
            lemma_inserted_unique(self@, k@, v@);
        }
        let ghost before = self@;
        let found = self.position(k.as_str());
        let mut taken = StringMap::new();
        core::mem::swap(self, &mut taken);
        let StringMap { entries, index } = taken;
        let mut entries = entries;
        let mut index = index;
        let ghost old_index = index@;
        match found {
            Some(i) => {
                entries.set(i, (k, v));
            },
            None => {
                let place: usize = entries.len();
                index.insert(k.clone(), place);
                entries.push((k, v));
            },
        }
        let ghost view: Entries = Seq::new(
            entries@.len(),
            |i: int| (entries@[i].0@, entries@[i].1@),
        );
        proof {
            assert(view =~= inserted(before, k@, v@));
            assert(indexes(index@, view)) by {
                assert forall|key: Seq<char>| index@.contains_key(key) implies (
                #[trigger] index@[key]) < view.len() && view[index@[key] as int].0 == key by {
                    if old_index.contains_key(key) {
                        assert(before[old_index[key] as int].0 == key);
                    }
                }
                assert forall|i: int| 0 <= i < view.len() implies index@.contains_key(
                    (#[trigger] view[i]).0,
                ) && index@[view[i].0] == i by {
                    if i < before.len() {
                        assert(old_index.contains_key(before[i].0));
                    }
                }
            }
        }
        *self = StringMap { entries, index };
    }
}

} // verus!
