//! A small map from text keys to values, kept in insertion order.
//!
//! It stands where a hash map keyed by strings would: its contracts speak of
//! a `Map` from the keys' characters to the values' views.

use vstd::prelude::*;
use crate::text::str_eq;

verus! {

/// A map from text keys to values. No key occurs twice.
pub struct TextMap<V> {
    entries: Vec<(String, V)>,
}

/// Whether no two entries have the same key.
pub open spec fn distinct_keys<V>(entries: Seq<(String, V)>) -> bool {
    forall|i: int, j: int|
        0 <= i < entries.len() && 0 <= j < entries.len() && i != j ==> (#[trigger] entries[i]).0@
            != (#[trigger] entries[j]).0@
}

/// Whether some entry has the key `k`.
pub open spec fn has_key<V>(entries: Seq<(String, V)>, k: Seq<char>) -> bool {
    exists|i: int| 0 <= i < entries.len() && (#[trigger] entries[i]).0@ == k
}

/// The index of an entry with the key `k`.
pub open spec fn key_index<V>(entries: Seq<(String, V)>, k: Seq<char>) -> int {
    choose|i: int| 0 <= i < entries.len() && (#[trigger] entries[i]).0@ == k
}

/// The map that a list of entries stands for.
pub open spec fn entries_map<V: View>(entries: Seq<(String, V)>) -> Map<Seq<char>, V::V> {
    Map::new(
        |k: Seq<char>| has_key(entries, k),
        |k: Seq<char>| entries[key_index(entries, k)].1@,
    )
}

/// The entry at `i` is in the map, under its key.
pub proof fn lemma_entry_in_map<V: View>(entries: Seq<(String, V)>, i: int)
    requires
        distinct_keys(entries),
        0 <= i < entries.len(),
    ensures
        entries_map(entries).dom().contains(entries[i].0@),
        entries_map(entries)[entries[i].0@] == entries[i].1@,
{
    let k = entries[i].0@;
    assert(has_key(entries, k));
    let j = key_index(entries, k);
    assert(entries[j].0@ == k);
}

/// Adding an entry with a new key inserts it into the map.
pub proof fn lemma_push_inserts<V: View>(entries: Seq<(String, V)>, key: String, value: V)
    requires
        distinct_keys(entries),
        !has_key(entries, key@),
    ensures
        distinct_keys(entries.push((key, value))),
        entries_map(entries.push((key, value))) == entries_map(entries).insert(key@, value@),
{
    let after = entries.push((key, value));
    assert(distinct_keys(after)) by {
        assert forall|i: int, j: int|
            0 <= i < after.len() && 0 <= j < after.len() && i != j implies (#[trigger] after[i]).0@
            != (#[trigger] after[j]).0@ by {
            if i < entries.len() && j < entries.len() {
                assert(after[i] == entries[i] && after[j] == entries[j]);
            } else if i < entries.len() {
                assert(after[i] == entries[i]);
            } else {
                assert(after[j] == entries[j]);
            }
        }
    }
    let left = entries_map(after);
    let right = entries_map(entries).insert(key@, value@);
    assert forall|q: Seq<char>|
        #![trigger left.dom().contains(q)]
        #![trigger right.dom().contains(q)]
        left.dom().contains(q) == right.dom().contains(q) && (left.dom().contains(q) ==> left[q]
            == right[q]) by {
        if q == key@ {
            lemma_entry_in_map(after, entries.len() as int);
        } else if has_key(entries, q) {
            let i = key_index(entries, q);
            assert(after[i] == entries[i]);
            lemma_entry_in_map(after, i);
            lemma_entry_in_map(entries, i);
        } else {
            if has_key(after, q) {
                let i = key_index(after, q);
                if i < entries.len() {
                    assert(after[i] == entries[i]);
                }
            }
        }
    }
    assert(left =~= right);
}

/// Putting a new value at an entry replaces it in the map.
pub proof fn lemma_update_replaces<V: View>(
    entries: Seq<(String, V)>,
    at: int,
    key: String,
    value: V,
)
    requires
        distinct_keys(entries),
        0 <= at < entries.len(),
        key@ == entries[at].0@,
    ensures
        distinct_keys(entries.update(at, (key, value))),
        entries_map(entries.update(at, (key, value))) == entries_map(entries).insert(
            key@,
            value@,
        ),
{
    let after = entries.update(at, (key, value));
    assert(distinct_keys(after)) by {
        assert forall|i: int, j: int|
            0 <= i < after.len() && 0 <= j < after.len() && i != j implies (#[trigger] after[i]).0@
            != (#[trigger] after[j]).0@ by {
            assert(after[i].0@ == entries[i].0@);
            assert(after[j].0@ == entries[j].0@);
        }
    }
    let left = entries_map(after);
    let right = entries_map(entries).insert(key@, value@);
    assert forall|q: Seq<char>|
        #![trigger left.dom().contains(q)]
        #![trigger right.dom().contains(q)]
        left.dom().contains(q) == right.dom().contains(q) && (left.dom().contains(q) ==> left[q]
            == right[q]) by {
        if q == key@ {
            lemma_entry_in_map(after, at);
        } else if has_key(entries, q) {
            let i = key_index(entries, q);
            assert(after[i] == entries[i]);
            lemma_entry_in_map(after, i);
            lemma_entry_in_map(entries, i);
        } else {
            if has_key(after, q) {
                let i = key_index(after, q);
                assert(after[i].0@ == entries[i].0@);
            }
        }
    }
    assert(left =~= right);
}

/// Taking an entry out removes its key from the map.
pub proof fn lemma_remove_removes<V: View>(entries: Seq<(String, V)>, at: int)
    requires
        distinct_keys(entries),
        0 <= at < entries.len(),
    ensures
        distinct_keys(entries.remove(at)),
        entries_map(entries.remove(at)) == entries_map(entries).remove(entries[at].0@),
{
    let after = entries.remove(at);
    let key = entries[at].0@;
    assert(distinct_keys(after)) by {
        assert forall|i: int, j: int|
            0 <= i < after.len() && 0 <= j < after.len() && i != j implies (#[trigger] after[i]).0@
            != (#[trigger] after[j]).0@ by {
            let oi = if i < at {
                i
            } else {
                i + 1
            };
            let oj = if j < at {
                j
            } else {
                j + 1
            };
            assert(after[i] == entries[oi] && after[j] == entries[oj]);
        }
    }
    let left = entries_map(after);
    let right = entries_map(entries).remove(key);
    assert forall|q: Seq<char>|
        #![trigger left.dom().contains(q)]
        #![trigger right.dom().contains(q)]
        left.dom().contains(q) == right.dom().contains(q) && (left.dom().contains(q) ==> left[q]
            == right[q]) by {
        if has_key(after, q) {
            let i = key_index(after, q);
            let oi = if i < at {
                i
            } else {
                i + 1
            };
            assert(after[i] == entries[oi]);
            lemma_entry_in_map(after, i);
            lemma_entry_in_map(entries, oi);
        } else if q != key && has_key(entries, q) {
            let oi = key_index(entries, q);
            let i = if oi < at {
                oi
            } else {
                oi - 1
            };
            assert(after[i] == entries[oi]);
        }
    }
    assert(left =~= right);
}

impl<V: View> View for TextMap<V> {
    type V = Map<Seq<char>, V::V>;

    closed spec fn view(&self) -> Map<Seq<char>, V::V> {
        entries_map(self.entries@)
    }
}

impl<V> TextMap<V> {
    #[verifier::type_invariant]
    spec fn well_formed(self) -> bool {
        distinct_keys(self.entries@)
    }
}

impl<V: View> TextMap<V> {
    /// The keys in the order in which they were first inserted.
    pub closed spec fn keys(&self) -> Seq<Seq<char>> {
        self.entries@.map_values(|e: (String, V)| e.0@)
    }

    /// An empty map.
    pub fn new() -> (r: TextMap<V>)
        ensures
            r@ == Map::<Seq<char>, V::V>::empty(),
            r.keys() == Seq::<Seq<char>>::empty(),
    {
        let r = TextMap { entries: Vec::new() };
        assert(r@ =~= Map::<Seq<char>, V::V>::empty());
        assert(r.keys() =~= Seq::<Seq<char>>::empty());
        r
    }

    /// The number of entries. The keys are exactly the domain of the map,
    /// each once.
    pub fn len(&self) -> (r: usize)
        ensures
            r == self.keys().len(),
            self.keys().no_duplicates(),
            forall|k: Seq<char>| self@.dom().contains(k) <==> self.keys().contains(k),
    {
        proof {
            use_type_invariant(self);
            let entries = self.entries@;
            let keys = self.keys();
            assert forall|i: int, j: int|
                0 <= i < keys.len() && 0 <= j < keys.len() && i != j implies keys[i] != keys[j] by {
                assert(keys[i] == entries[i].0@ && keys[j] == entries[j].0@);
            }
            assert forall|k: Seq<char>| self@.dom().contains(k) <==> keys.contains(k) by {
                if has_key(entries, k) {
                    let i = key_index(entries, k);
                    assert(keys[i] == k);
                }
                if keys.contains(k) {
                    let i = choose|i: int| 0 <= i < keys.len() && keys[i] == k;
                    assert(entries[i].0@ == k);
                }
            }
        }
        self.entries.len()
    }

    /// The index of the entry with the key `key`.
    fn find(&self, key: &str) -> (r: Option<usize>)
        ensures
            match r {
                Some(i) => i < self.entries@.len() && self.entries@[i as int].0@ == key@,
                None => !has_key(self.entries@, key@),
            },
    {
        let mut i: usize = 0;
        while i < self.entries.len()
            invariant
                i <= self.entries@.len(),
                forall|j: int| 0 <= j < i ==> (#[trigger] self.entries@[j]).0@ != key@,
            decreases self.entries@.len() - i,
        {
            if str_eq(self.entries[i].0.as_str(), key) {
                return Some(i);
            }
            i += 1;
        }
        None
    }

    /// Whether the map has the key.
    pub fn contains_key(&self, key: &str) -> (r: bool)
        ensures
            r == self@.dom().contains(key@),
    {
        self.find(key).is_some()
    }

    /// The value under `key`, if there is one.
    pub fn get(&self, key: &str) -> (r: Option<&V>)
        ensures
            match r {
                Some(v) => self@.dom().contains(key@) && self@[key@] == v@,
                None => !self@.dom().contains(key@),
            },
    {
        proof {
            use_type_invariant(self);
        }
        match self.find(key) {
            Some(i) => {
                proof {
                    lemma_entry_in_map(self.entries@, i as int);
                }
                Some(&self.entries[i].1)
            },
            None => None,
        }
    }

    /// Puts `value` under `key`, in place of what was there. A new key goes
    /// behind the others.
    pub fn insert(&mut self, key: String, value: V)
        ensures
            final(self)@ == old(self)@.insert(key@, value@),
            final(self).keys() == if old(self)@.dom().contains(key@) {
                old(self).keys()
            } else {
                old(self).keys().push(key@)
            },
    {
        proof {
            use_type_invariant(&*self);
        }
        let ghost before = self.entries@;
        let found = self.find(key.as_str());
        let mut entries: Vec<(String, V)> = Vec::new();
        core::mem::swap(&mut self.entries, &mut entries);
        match found {
            Some(i) => {
                proof {
                    lemma_update_replaces(before, i as int, key, value);
                }
                entries.set(i, (key, value));
            },
            None => {
                proof {
                    lemma_push_inserts(before, key, value);
                }
                entries.push((key, value));
            },
        }
        self.entries = entries;
        proof {
            if found is Some {
                assert(self.keys() =~= old(self).keys());
            } else {
                assert(self.keys() =~= old(self).keys().push(key@));
            }
        }
    }

    /// Takes out what is under `key` and hands it back.
    pub fn remove(&mut self, key: &str) -> (r: Option<V>)
        ensures
            final(self)@ == old(self)@.remove(key@),
            match r {
                Some(v) => old(self)@.dom().contains(key@) && old(self)@[key@] == v@,
                None => !old(self)@.dom().contains(key@),
            },
    {
        proof {
            use_type_invariant(&*self);
        }
        let ghost before = self.entries@;
        match self.find(key) {
            Some(i) => {
                proof {
                    lemma_remove_removes(before, i as int);
                    lemma_entry_in_map(before, i as int);
                }
                let mut entries: Vec<(String, V)> = Vec::new();
                core::mem::swap(&mut self.entries, &mut entries);
                let entry = entries.remove(i);
                self.entries = entries;
                Some(entry.1)
            },
            None => {
                assert(self@ =~= old(self)@.remove(key@));
                None
            },
        }
    }

    /// Takes out entry `i` and hands its value back. The entries behind it
    /// move up by one.
    pub fn remove_at(&mut self, i: usize) -> (r: V)
        requires
            i < old(self).keys().len(),
        ensures
            final(self)@ == old(self)@.remove(old(self).keys()[i as int]),
            final(self).keys() == old(self).keys().remove(i as int),
            old(self)@.dom().contains(old(self).keys()[i as int]),
            r@ == old(self)@[old(self).keys()[i as int]],
    {
        proof {
            use_type_invariant(&*self);
            lemma_remove_removes(self.entries@, i as int);
            lemma_entry_in_map(self.entries@, i as int);
        }
        let mut entries: Vec<(String, V)> = Vec::new();
        core::mem::swap(&mut self.entries, &mut entries);
        let entry = entries.remove(i);
        self.entries = entries;
        assert(self.keys() =~= old(self).keys().remove(i as int));
        entry.1
    }

    /// The key of entry `i`.
    pub fn key_at(&self, i: usize) -> (r: &String)
        requires
            i < self.keys().len(),
        ensures
            r@ == self.keys()[i as int],
            self@.dom().contains(r@),
    {
        proof {
            use_type_invariant(self);
            lemma_entry_in_map(self.entries@, i as int);
        }
        &self.entries[i].0
    }

    /// The value of entry `i`.
    pub fn value_at(&self, i: usize) -> (r: &V)
        requires
            i < self.keys().len(),
        ensures
            self@.dom().contains(self.keys()[i as int]),
            r@ == self@[self.keys()[i as int]],
    {
        proof {
            use_type_invariant(self);
            lemma_entry_in_map(self.entries@, i as int);
        }
        &self.entries[i].1
    }
}

} // verus!
