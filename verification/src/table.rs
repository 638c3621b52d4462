//! A finite map from composite keys to records, the storage primitive of the
//! ledger. Keys are compared by what they denote, never by identity.

use vstd::prelude::*;

verus! {

/// A key of the store. Two keys are the same when their views are equal.
pub trait StoreKey: View + Sized {
    /// Whether `self` and `other` denote the same key.
    fn same_key(&self, other: &Self) -> (same: bool)
        ensures
            same == (self@ == other@),
    ;
}

impl StoreKey for String {
    fn same_key(&self, other: &Self) -> (same: bool) {
        *self == *other
    }
}

/// One stored record with the key it is filed under.
pub struct Entry<K, V> {
    pub key: K,
    pub value: V,
}

/// `entries` lists `records`: every entry is a pair of the map, every pair of
/// the map is an entry, and no key comes twice.
pub open spec fn lists<K: StoreKey, V>(entries: Seq<Entry<K, V>>, records: Map<K::V, V>) -> bool {
    &&& forall|i: int|
        0 <= i < entries.len() ==> {
            &&& records.contains_key(#[trigger] entries[i].key@)
            &&& records[entries[i].key@] == entries[i].value
        }
    &&& forall|k: K::V| #[trigger]
        records.contains_key(k) ==> exists|i: int|
            0 <= i < entries.len() && #[trigger] entries[i].key@ == k
    &&& forall|i: int, j: int|
        0 <= i < j < entries.len() ==> #[trigger] entries[i].key@ != #[trigger] entries[j].key@
}

/// A finite map from keys to records. Its view is the mathematical map from
/// key views to records.
pub struct Table<K: StoreKey, V> {
    entries: Vec<Entry<K, V>>,
    model: Ghost<Map<K::V, V>>,
}

impl<K: StoreKey, V> View for Table<K, V> {
    type V = Map<K::V, V>;

    closed spec fn view(&self) -> Map<K::V, V> {
        self.model@
    }
}

impl<K: StoreKey, V> Table<K, V> {
    /// The stored entries are exactly the pairs of the view, each key once.
    pub closed spec fn wf(&self) -> bool {
        &&& self.model@.dom().finite()
        &&& lists(self.entries@, self.model@)
    }

    /// A well-formed table has a finite domain.
    pub proof fn lemma_finite(&self)
        requires
            self.wf(),
        ensures
            self@.dom().finite(),
    {
    }

    /// The empty table.
    pub fn new() -> (table: Self)
        ensures
            table.wf(),
            table@ == Map::<K::V, V>::empty(),
    {
        Table { entries: Vec::new(), model: Ghost(Map::empty()) }
    }

    fn position(&self, key: &K) -> (found: Option<usize>)
        requires
            self.wf(),
        ensures
            match found {
                Some(i) => i < self.entries@.len() && self.entries@[i as int].key@ == key@,
                None => !self@.contains_key(key@),
            },
    {
        let mut i: usize = 0;
        while i < self.entries.len()
            invariant
                self.wf(),
                i <= self.entries@.len(),
                forall|j: int| 0 <= j < i ==> (#[trigger] self.entries@[j]).key@ != key@,
            decreases self.entries@.len() - i,
        {
            if self.entries[i].key.same_key(key) {
                return Some(i);
            }
            i += 1;
        }
        None
    }

    /// The record filed under `key`, if there is one.
    pub fn get(&self, key: &K) -> (found: Option<&V>)
        requires
            self.wf(),
        ensures
            match found {
                Some(value) => self@.contains_key(key@) && self@[key@] == *value,
                None => !self@.contains_key(key@),
            },
    {
        match self.position(key) {
            Some(i) => Some(&self.entries[i].value),
            None => None,
        }
    }

    /// All records with their keys, each key once, in no particular order.
    pub fn entries(&self) -> (entries: &Vec<Entry<K, V>>)
        requires
            self.wf(),
        ensures
            lists(entries@, self@),
    {
        &self.entries
    }

    /// Files `value` under `key`, replacing what was there.
    pub fn insert(&mut self, key: K, value: V)
        requires
            old(self).wf(),
        ensures
            final(self).wf(),
            final(self)@ == old(self)@.insert(key@, value),
    {
        let ghost before = self.entries@;
        let ghost after = self.model@.insert(key@, value);
        match self.position(&key) {
            Some(i) => {
                self.entries[i] = Entry { key, value };
                self.model = Ghost(after);
                assert forall|k: K::V| #[trigger] self.model@.contains_key(k) implies exists|j: int|
                    0 <= j < self.entries@.len() && #[trigger] self.entries@[j].key@ == k by {
                    if k == key@ {
                        assert(self.entries@[i as int].key@ == k);
                    } else {
                        let j = choose|j: int| 0 <= j < before.len() && #[trigger] before[j].key@ == k;
                        assert(self.entries@[j].key@ == k);
                    }
                }
            },
            None => {
                self.entries.push(Entry { key, value });
                self.model = Ghost(after);
                assert forall|k: K::V| #[trigger] self.model@.contains_key(k) implies exists|j: int|
                    0 <= j < self.entries@.len() && #[trigger] self.entries@[j].key@ == k by {
                    if k == key@ {
                        assert(self.entries@[before.len() as int].key@ == k);
                    } else {
                        let j = choose|j: int| 0 <= j < before.len() && #[trigger] before[j].key@ == k;
                        assert(self.entries@[j].key@ == k);
                    }
                }
            },
        }
    }

    /// Removes the record filed under `key`, if there is one.
    pub fn remove(&mut self, key: &K)
        requires
            old(self).wf(),
        ensures
            final(self).wf(),
            final(self)@ == old(self)@.remove(key@),
    {
        let ghost before = self.entries@;
        match self.position(key) {
            Some(i) => {
                let _ = self.entries.remove(i);
                self.model = Ghost(self.model@.remove(key@));
                assert forall|k: K::V| #[trigger] self.model@.contains_key(k) implies exists|j: int|
                    0 <= j < self.entries@.len() && #[trigger] self.entries@[j].key@ == k by {
                    let j = choose|j: int| 0 <= j < before.len() && #[trigger] before[j].key@ == k;
                    if j < i {
                        assert(self.entries@[j].key@ == k);
                    } else {
                        assert(self.entries@[j - 1].key@ == k);
                    }
                }
            },
            None => {
                assert(self.model@.remove(key@) =~= self.model@);
            },
        }
    }
}

} // verus!
