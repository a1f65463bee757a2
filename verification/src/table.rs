//! A map from byte-string keys to values, kept as a list of entries.

use vstd::prelude::*;
use crate::helper::bytes_eq;

verus! {

/// One key with its value.
pub struct Entry<V> {
    pub key: Vec<u8>,
    pub value: V,
}

/// A map from byte strings to values. Where a key occurs in several entries,
/// the last of them counts; `insert` keeps it to one entry per key.
pub struct Table<V> {
    entries: Vec<Entry<V>>,
}

/// The map that a list of entries stands for: later entries override earlier
/// ones.
pub open spec fn entries_map<V: View>(entries: Seq<Entry<V>>) -> Map<Seq<u8>, V::V>
    decreases entries.len(),
{
    if entries.len() == 0 {
        Map::empty()
    } else {
        entries_map(entries.drop_last()).insert(entries.last().key@, entries.last().value@)
    }
}

/// A key that no entry has is not in the map.
proof fn lemma_absent<V: View>(entries: Seq<Entry<V>>, key: Seq<u8>)
    requires
        forall|j: int| 0 <= j < entries.len() ==> entries[j].key@ != key,
    ensures
        !entries_map(entries).contains_key(key),
    decreases entries.len(),
{
    if entries.len() > 0 {
        lemma_absent(entries.drop_last(), key);
    }
}

/// The last entry with a key gives the key's value.
proof fn lemma_present<V: View>(entries: Seq<Entry<V>>, key: Seq<u8>, i: int)
    requires
        0 <= i < entries.len(),
        entries[i].key@ == key,
        forall|j: int| i < j < entries.len() ==> entries[j].key@ != key,
    ensures
        entries_map(entries).contains_key(key),
        entries_map(entries)[key] == entries[i].value@,
    decreases entries.len(),
{
    if i < entries.len() - 1 {
        lemma_present(entries.drop_last(), key, i);
    }
}

/// Replacing the last entry of a key by another value for the same key
/// updates the map at that key.
proof fn lemma_replace<V: View>(entries: Seq<Entry<V>>, i: int, e: Entry<V>)
    requires
        0 <= i < entries.len(),
        entries[i].key@ == e.key@,
        forall|j: int| i < j < entries.len() ==> entries[j].key@ != e.key@,
    ensures
        entries_map(entries.update(i, e)) == entries_map(entries).insert(e.key@, e.value@),
    decreases entries.len(),
{
    let updated = entries.update(i, e);
    if i == entries.len() - 1 {
        assert(updated.drop_last() =~= entries.drop_last());
        assert(entries_map(updated) =~= entries_map(entries).insert(e.key@, e.value@));
    } else {
        lemma_replace(entries.drop_last(), i, e);
        assert(updated.drop_last() =~= entries.drop_last().update(i, e));
        assert(updated.last() == entries.last());
        assert(entries_map(updated) =~= entries_map(entries).insert(e.key@, e.value@));
    }
}

impl<V: View> Table<V> {
    /// The map this table stands for.
    pub closed spec fn map(&self) -> Map<Seq<u8>, V::V> {
        entries_map(self.entries@)
    }

    /// A table without entries.
    pub fn new() -> (r: Self)
        ensures
            r.map() == Map::<Seq<u8>, V::V>::empty(),
    {
        Table { entries: Vec::new() }
    }

    /// The position of the entry that counts for `key`, if there is one.
    fn position(&self, key: &[u8]) -> (r: Option<usize>)
        ensures
            match r {
                Some(i) => i < self.entries@.len() && self.entries@[i as int].key@ == key@
                    && forall|j: int|
                    i < j < self.entries@.len() ==> self.entries@[j].key@ != key@,
                None => forall|j: int|
                    0 <= j < self.entries@.len() ==> self.entries@[j].key@ != key@,
            },
    {
        let mut i: usize = self.entries.len();
        while i > 0
            invariant
                i <= self.entries@.len(),
                forall|j: int| i <= j < self.entries@.len() ==> self.entries@[j].key@ != key@,
            decreases i,
        {
            i = i - 1;
            if bytes_eq(self.entries[i].key.as_slice(), key) {
                return Some(i);
            }
        }
        None
    }

    /// Looks a key up.
    pub fn get(&self, key: &[u8]) -> (r: Option<&V>)
        ensures
            r.is_some() == self.map().contains_key(key@),
            r.is_some() ==> r.unwrap()@ == self.map()[key@],
    {
        match self.position(key) {
            Some(i) => {
                proof {
                    lemma_present(self.entries@, key@, i as int);
                }
                Some(&self.entries[i].value)
            },
            None => {
                proof {
                    lemma_absent(self.entries@, key@);
                }
                None
            },
        }
    }

    /// Stores `value` under `key`, in place of what was stored there.
    pub fn insert(&mut self, key: Vec<u8>, value: V)
        ensures
            final(self).map() == old(self).map().insert(key@, value@),
    {
        let found = self.position(key.as_slice());
        let entry = Entry { key, value };
        match found {
            Some(i) => {
                proof {
                    lemma_replace(self.entries@, i as int, entry);
                }
                self.entries.set(i, entry);
            },
            None => {
                proof {
                    assert(self.entries@.push(entry).drop_last() =~= self.entries@);
                }
                self.entries.push(entry);
            },
        }
    }
}

} // verus!
