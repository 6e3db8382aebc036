//! A map over keys that are compared by their views.
//!
//! Entries are grouped by a hash of their key. Only the grouping goes through
//! `std`'s hash table, with the hash as its key.

use std::collections::hash_map::DefaultHasher;
use std::collections::HashMap;
use std::hash::Hasher;

use vstd::prelude::*;
use vstd::std_specs::hash::*;
use vstd::utf8::*;

verus! {

broadcast use vstd::std_specs::hash::group_hash_axioms;

/// A type whose values are keys of a [`KeyedMap`]: two keys are the same key exactly when
/// their views are equal.
pub trait MapKey: View + Sized {
    /// The byte strings that stand for a key when it is hashed.
    spec fn hashed_bytes(key: Self::V) -> Seq<Seq<u8>>;

    /// Feeds the key to a hasher.
    fn feed(&self, hasher: &mut DefaultHasher)
        ensures
            final(hasher)@ == old(hasher)@ + Self::hashed_bytes(self@),
    ;

    /// Whether two keys are the same key.
    fn same_key(&self, other: &Self) -> (same: bool)
        ensures
            same == (self@ == other@),
    ;

    /// Another copy of the key.
    fn duplicate(&self) -> (copy: Self)
        ensures
            copy@ == self@,
    ;
}

impl MapKey for String {
    open spec fn hashed_bytes(key: Seq<char>) -> Seq<Seq<u8>> {
        seq![encode_utf8(key)]
    }

    fn feed(&self, hasher: &mut DefaultHasher) {
        hasher.write(self.as_str().as_bytes());
    }

    fn same_key(&self, other: &Self) -> (same: bool) {
        *self == *other
    }

    fn duplicate(&self) -> (copy: Self) {
        self.clone()
    }
}

impl<A: MapKey, B: MapKey> MapKey for (A, B) {
    open spec fn hashed_bytes(key: (A::V, B::V)) -> Seq<Seq<u8>> {
        A::hashed_bytes(key.0) + B::hashed_bytes(key.1)
    }

    fn feed(&self, hasher: &mut DefaultHasher) {
        self.0.feed(hasher);
        self.1.feed(hasher);
    }

    fn same_key(&self, other: &Self) -> (same: bool) {
        self.0.same_key(&other.0) && self.1.same_key(&other.1)
    }

    fn duplicate(&self) -> (copy: Self) {
        (self.0.duplicate(), self.1.duplicate())
    }
}

/// The group in which the entry of a key is kept.
pub open spec fn group_of<K: MapKey>(key: K::V) -> u64 {
    DefaultHasher::spec_finish(K::hashed_bytes(key))
}

fn hash_of<K: MapKey>(key: &K) -> (group: u64)
    ensures
        group == group_of::<K>(key@),
{
    let mut hasher = DefaultHasher::new();
    key.feed(&mut hasher);
    assert(hasher@ =~= K::hashed_bytes(key@));
    hasher.finish()
}

/// Where in a group the entry of `key` stands.
fn position_of<K: MapKey, V>(entries: &Vec<(K, V)>, key: &K) -> (position: Option<usize>)
    ensures
        match position {
            Some(i) => i < entries.len() && entries[i as int].0@ == key@,
            None => forall|i: int| 0 <= i < entries.len() ==> (#[trigger] entries[i]).0@ != key@,
        },
{
    let mut i: usize = 0;
    while i < entries.len()
        invariant
            i <= entries.len(),
            forall|j: int| 0 <= j < i ==> (#[trigger] entries[j]).0@ != key@,
        decreases entries.len() - i,
    {
        if entries[i].0.same_key(key) {
            return Some(i);
        }
        i = i + 1;
    }
    None
}

/// A map from keys to values.
#[verifier::reject_recursive_types(K)]
#[verifier::reject_recursive_types(V)]
pub struct KeyedMap<K: MapKey, V> {
    groups: HashMap<u64, Vec<(K, V)>>,
    contents: Ghost<Map<K::V, V>>,
}

impl<K: MapKey, V> View for KeyedMap<K, V> {
    type V = Map<K::V, V>;

    closed spec fn view(&self) -> Map<K::V, V> {
        self.contents@
    }
}

impl<K: MapKey, V> KeyedMap<K, V> {
    /// Every entry of every group is an entry of the contents, in the group of its key.
    spec fn entries_sound(self) -> bool {
        forall|g: u64, i: int|
            #![trigger self.groups@[g]@[i]]
            self.groups@.contains_key(g) && 0 <= i < self.groups@[g]@.len() ==> {
                let entry = self.groups@[g]@[i];
                &&& group_of::<K>(entry.0@) == g
                &&& self.contents@.contains_key(entry.0@)
                &&& self.contents@[entry.0@] == entry.1
            }
    }

    /// No key has two entries.
    spec fn entries_distinct(self) -> bool {
        forall|g: u64, i: int, j: int|
            #![trigger self.groups@[g]@[i], self.groups@[g]@[j]]
            self.groups@.contains_key(g) && 0 <= i < j < self.groups@[g]@.len()
                ==> self.groups@[g]@[i].0@ != self.groups@[g]@[j].0@
    }

    spec fn has_entry(self, key: K::V) -> bool {
        let g = group_of::<K>(key);
        &&& self.groups@.contains_key(g)
        &&& exists|i: int|
            0 <= i < self.groups@[g]@.len() && (#[trigger] self.groups@[g]@[i]).0@ == key
    }

    /// Every key of the contents has an entry.
    spec fn entries_complete(self) -> bool {
        forall|key: K::V| #[trigger] self.contents@.contains_key(key) ==> self.has_entry(key)
    }

    /// The groups hold the contents, and no group is empty.
    pub closed spec fn wf(self) -> bool {
        &&& self.entries_sound()
        &&& self.entries_distinct()
        &&& self.entries_complete()
        &&& forall|g: u64| #[trigger] self.groups@.contains_key(g) ==> self.groups@[g]@.len() > 0
    }

    /// The empty map.
    pub fn new() -> (map: Self)
        ensures
            map.wf(),
            map@ == Map::<K::V, V>::empty(),
    {
        KeyedMap { groups: HashMap::new(), contents: Ghost(Map::empty()) }
    }

    /// The value of a key.
    pub fn get(&self, key: &K) -> (value: Option<&V>)
        requires
            self.wf(),
        ensures
            match value {
                Some(v) => self@.contains_key(key@) && *v == self@[key@],
                None => !self@.contains_key(key@),
            },
    {
        let group = hash_of(key);
        match self.groups.get(&group) {
            Some(entries) => {
                match position_of(entries, key) {
                    Some(i) => Some(&entries[i].1),
                    None => {
                        proof {
                            assert(!self.has_entry(key@));
                        }
                        None
                    },
                }
            },
            None => {
                proof {
                    assert(!self.has_entry(key@));
                }
                None
            },
        }
    }

    /// Whether a key has a value.
    pub fn contains_key(&self, key: &K) -> (found: bool)
        requires
            self.wf(),
        ensures
            found == self@.contains_key(key@),
    {
        self.get(key).is_some()
    }

    /// Takes a key and its value out of the map.
    pub fn remove(&mut self, key: &K) -> (value: Option<V>)
        requires
            old(self).wf(),
        ensures
            final(self).wf(),
            final(self)@ == old(self)@.remove(key@),
            match value {
                Some(v) => old(self)@.contains_key(key@) && v == old(self)@[key@],
                None => !old(self)@.contains_key(key@),
            },
    {
        let group = hash_of(key);
        match self.groups.remove(&group) {
            Some(mut entries) => {
                match position_of(&entries, key) {
                    Some(i) => {
                        let (_, value) = entries.remove(i);
                        if !entries.is_empty() {
                            self.groups.insert(group, entries);
                        }
                        proof {
                            self.contents@ = self.contents@.remove(key@);
                            old(self).lemma_removed(*self, key@, i as int);
                        }
                        Some(value)
                    },
                    None => {
                        self.groups.insert(group, entries);
                        proof {
                            assert(self.groups@ =~= old(self).groups@);
                            assert(!old(self).has_entry(key@));
                            assert(self@ =~= old(self)@.remove(key@));
                        }
                        None
                    },
                }
            },
            None => {
                proof {
                    assert(self.groups@ =~= old(self).groups@);
                    assert(!old(self).has_entry(key@));
                    assert(self@ =~= old(self)@.remove(key@));
                }
                None
            },
        }
    }

    /// Taking the entry at position `i` out of the group of `key` takes `key` out of the map.
    proof fn lemma_removed(self, after: Self, key: K::V, i: int)
        requires
            self.wf(),
            ({
                let g = group_of::<K>(key);
                let rest = self.groups@[g]@.remove(i);
                &&& self.groups@.contains_key(g)
                &&& 0 <= i < self.groups@[g]@.len()
                &&& self.groups@[g]@[i].0@ == key
                &&& forall|h: u64| h != g ==> (#[trigger] after.groups@.contains_key(h)
                    <==> self.groups@.contains_key(h))
                &&& forall|h: u64| h != g ==> #[trigger] after.groups@[h] == self.groups@[h]
                &&& if rest.len() > 0 {
                    after.groups@.contains_key(g) && after.groups@[g]@ == rest
                } else {
                    !after.groups@.contains_key(g)
                }
            }),
            after.contents@ == self.contents@.remove(key),
        ensures
            after.wf(),
    {
        let g = group_of::<K>(key);
        let entries = self.groups@[g]@;
        let rest = entries.remove(i);
        assert forall|h: u64, j: int|
            #![trigger after.groups@[h]@[j]]
            after.groups@.contains_key(h) && 0 <= j < after.groups@[h]@.len() implies {
            let entry = after.groups@[h]@[j];
            &&& group_of::<K>(entry.0@) == h
            &&& after.contents@.contains_key(entry.0@)
            &&& after.contents@[entry.0@] == entry.1
        } by {
            if h == g {
                let k = if j < i {
                    j
                } else {
                    j + 1
                };
                assert(rest[j] == entries[k]);
                assert(entries[k].0@ != key) by {
                    assert(self.groups@[g]@[k] == entries[k]);
                    assert(self.groups@[g]@[i] == entries[i]);
                }
                assert(self.groups@[g]@[k] == entries[k]);
            } else {
                assert(self.groups@[h]@[j] == after.groups@[h]@[j]);
            }
        }
        assert forall|h: u64, a: int, b: int|
            #![trigger after.groups@[h]@[a], after.groups@[h]@[b]]
            after.groups@.contains_key(h) && 0 <= a < b < after.groups@[h]@.len() implies
            after.groups@[h]@[a].0@ != after.groups@[h]@[b].0@ by {
            if h == g {
                let a0 = if a < i {
                    a
                } else {
                    a + 1
                };
                let b0 = if b < i {
                    b
                } else {
                    b + 1
                };
                assert(rest[a] == self.groups@[g]@[a0]);
                assert(rest[b] == self.groups@[g]@[b0]);
            } else {
                assert(self.groups@[h]@[a] == after.groups@[h]@[a]);
                assert(self.groups@[h]@[b] == after.groups@[h]@[b]);
            }
        }
        assert forall|other: K::V| #[trigger] after.contents@.contains_key(other) implies after.has_entry(
            other,
        ) by {
            assert(self.has_entry(other));
            let h = group_of::<K>(other);
            let j = choose|j: int|
                0 <= j < self.groups@[h]@.len() && (#[trigger] self.groups@[h]@[j]).0@ == other;
            if h == g {
                assert(j != i);
                let k = if j < i {
                    j
                } else {
                    j - 1
                };
                assert(rest[k] == entries[j]);
                assert(after.groups@[h]@[k].0@ == other);
            } else {
                assert(after.groups@[h]@[j].0@ == other);
            }
        }
    }

    /// Gives a key a value, in place of the one that it had.
    pub fn insert(&mut self, key: K, value: V)
        requires
            old(self).wf(),
        ensures
            final(self).wf(),
            final(self)@ == old(self)@.insert(key@, value),
    {
        let _ = self.remove(&key);
        let ghost removed = *self;
        let ghost added = key@;
        let group = hash_of(&key);
        let mut entries = match self.groups.remove(&group) {
            Some(entries) => entries,
            None => Vec::new(),
        };
        let ghost before = entries@;
        entries.push((key, value));
        self.groups.insert(group, entries);
        proof {
            self.contents@ = self.contents@.insert(added, value);
            assert(self.groups@[group]@.drop_last() =~= before);
            removed.lemma_inserted(*self, added, value);
            assert(self@ =~= old(self)@.insert(added, value));
        }
    }

    /// Adding an entry for a key without one to the group of the key gives it the value.
    proof fn lemma_inserted(self, after: Self, key: K::V, value: V)
        requires
            self.wf(),
            !self.contents@.contains_key(key),
            ({
                let g = group_of::<K>(key);
                let before = if self.groups@.contains_key(g) {
                    self.groups@[g]@
                } else {
                    Seq::empty()
                };
                &&& forall|h: u64| h != g ==> (#[trigger] after.groups@.contains_key(h)
                    <==> self.groups@.contains_key(h))
                &&& forall|h: u64| h != g ==> #[trigger] after.groups@[h] == self.groups@[h]
                &&& after.groups@.contains_key(g)
                &&& after.groups@[g]@.len() == before.len() + 1
                &&& after.groups@[g]@.drop_last() == before
                &&& after.groups@[g]@.last().0@ == key
                &&& after.groups@[g]@.last().1 == value
            }),
            after.contents@ == self.contents@.insert(key, value),
        ensures
            after.wf(),
    {
        let g = group_of::<K>(key);
        let before = if self.groups@.contains_key(g) {
            self.groups@[g]@
        } else {
            Seq::empty()
        };
        let n = before.len() as int;
        assert forall|j: int| 0 <= j < n implies after.groups@[g]@[j] == #[trigger] before[j] by {
            assert(after.groups@[g]@.drop_last()[j] == before[j]);
        }
        assert forall|h: u64, j: int|
            #![trigger after.groups@[h]@[j]]
            after.groups@.contains_key(h) && 0 <= j < after.groups@[h]@.len() implies {
            let entry = after.groups@[h]@[j];
            &&& group_of::<K>(entry.0@) == h
            &&& after.contents@.contains_key(entry.0@)
            &&& after.contents@[entry.0@] == entry.1
        } by {
            if h == g {
                if j < n {
                    assert(after.groups@[g]@[j] == before[j]);
                    assert(self.groups@[g]@[j] == before[j]);
                }
            } else {
                assert(self.groups@[h]@[j] == after.groups@[h]@[j]);
            }
        }
        assert forall|h: u64, a: int, b: int|
            #![trigger after.groups@[h]@[a], after.groups@[h]@[b]]
            after.groups@.contains_key(h) && 0 <= a < b < after.groups@[h]@.len() implies
            after.groups@[h]@[a].0@ != after.groups@[h]@[b].0@ by {
            if h == g {
                assert(after.groups@[g]@[a] == before[a]);
                assert(self.groups@[g]@[a] == before[a]);
                if b < n {
                    assert(after.groups@[g]@[b] == before[b]);
                    assert(self.groups@[g]@[b] == before[b]);
                }
            } else {
                assert(self.groups@[h]@[a] == after.groups@[h]@[a]);
                assert(self.groups@[h]@[b] == after.groups@[h]@[b]);
            }
        }
        assert forall|other: K::V| #[trigger] after.contents@.contains_key(other) implies after.has_entry(
            other,
        ) by {
            let h = group_of::<K>(other);
            if other == key {
                assert(after.groups@[g]@[n].0@ == key);
            } else {
                assert(self.has_entry(other));
                let j = choose|j: int|
                    0 <= j < self.groups@[h]@.len() && (#[trigger] self.groups@[h]@[j]).0@ == other;
                if h == g {
                    assert(after.groups@[g]@[j] == before[j]);
                }
                assert(after.groups@[h]@[j].0@ == other);
            }
        }
    }

    /// Takes every entry out of the map.
    pub fn clear(&mut self)
        ensures
            final(self).wf(),
            final(self)@ == Map::<K::V, V>::empty(),
    {
        self.groups.clear();
        proof {
            self.contents@ = Map::empty();
        }
    }
}

} // verus!
