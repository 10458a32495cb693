//! An insertion-ordered association from string keys to lists of bid ids,
//! with at most one entry per key. It backs both the per-account borrower
//! index and the per-asset subject index.

use vstd::prelude::*;
use vstd::pervasive::VecAdditionalExecFns;

verus! {

/// A key-to-id-list mapping kept as a vector of entries. Entries are created
/// lazily on first use and never removed, so the entry order is the order of
/// first insertion.
pub struct IdIndex {
    pub entries: Vec<(String, Vec<u64>)>,
}

impl IdIndex {
    /// Well-formedness: no key appears in two entries.
    pub open spec fn keys_unique(self) -> bool {
        forall|i: int, j: int|
            0 <= i < j < self.entries@.len() ==> self.entries@[i].0@ != self.entries@[j].0@
    }

    /// Whether some entry is recorded under `key`.
    pub open spec fn has_key(self, key: Seq<char>) -> bool {
        exists|i: int| 0 <= i < self.entries@.len() && self.entries@[i].0@ == key
    }

    /// The list of ids recorded under `key`; empty when the key is absent.
    pub open spec fn ids_of(self, key: Seq<char>) -> Seq<u64> {
        if self.has_key(key) {
            let i = choose|i: int|
                0 <= i < self.entries@.len() && self.entries@[i].0@ == key;
            self.entries@[i].1@
        } else {
            Seq::empty()
        }
    }

    /// With unique keys, any entry holding `key` is the one `ids_of` reads.
    proof fn lemma_ids_at(self, key: Seq<char>, i: int)
        requires
            self.keys_unique(),
            0 <= i < self.entries@.len(),
            self.entries@[i].0@ == key,
        ensures
            self.has_key(key),
            self.ids_of(key) == self.entries@[i].1@,
    {
        assert(self.has_key(key));
        let w = choose|w: int|
            0 <= w < self.entries@.len() && self.entries@[w].0@ == key;
        if w != i {
            if w < i {
                assert(self.entries@[w].0@ != self.entries@[i].0@);
            } else {
                assert(self.entries@[i].0@ != self.entries@[w].0@);
            }
        }
    }

    /// An empty index: no key is present.
    pub fn new() -> (r: IdIndex)
        ensures
            r.keys_unique(),
            forall|k: Seq<char>| !r.has_key(k),
            r.entries@.len() == 0,
    {
        IdIndex { entries: Vec::new() }
    }

    /// The ids recorded under `key`, or `None` when the key is absent.
    pub fn lookup(&self, key: &String) -> (r: Option<Vec<u64>>)
        requires
            self.keys_unique(),
        ensures
            match r {
                Some(ids) => self.has_key(key@) && ids@ == self.ids_of(key@),
                None => !self.has_key(key@),
            },
    {
        let n = self.entries.len();
        let mut i: usize = 0;
        while i < n
            invariant
                n == self.entries@.len(),
                i <= n,
                self.keys_unique(),
                forall|j: int| 0 <= j < i ==> self.entries@[j].0@ != key@,
            decreases n - i,
        {
            if self.entries[i].0 == *key {
                let ids = copy_ids(&self.entries[i].1);
                proof {
                    self.lemma_ids_at(key@, i as int);
                }
                return Some(ids);
            }
            i += 1;
        }
        None
    }

    /// Records `ids` under `key`, replacing the previous list if the key was
    /// present and appending a new entry otherwise. Every other key keeps
    /// its presence and its ids.
    pub fn put(&mut self, key: &String, ids: Vec<u64>)
        requires
            old(self).keys_unique(),
        ensures
            final(self).keys_unique(),
            final(self).has_key(key@),
            final(self).ids_of(key@) == ids@,
            forall|k2: Seq<char>|
                k2 != key@ ==> final(self).has_key(k2) == old(self).has_key(k2),
            forall|k2: Seq<char>|
                k2 != key@ ==> final(self).ids_of(k2) == old(self).ids_of(k2),
    {
        let n = self.entries.len();
        let mut i: usize = 0;
        while i < n
            invariant
                *self == *old(self),
                n == self.entries@.len(),
                i <= n,
                self.keys_unique(),
                forall|j: int| 0 <= j < i ==> self.entries@[j].0@ != key@,
            decreases n - i,
        {
            if self.entries[i].0 == *key {
                let entry_key = self.entries[i].0.clone();
                self.entries.set(i, (entry_key, ids));
                proof {
                    self.lemma_ids_at(key@, i as int);
                    assert forall|k2: Seq<char>| k2 != key@ implies
                        self.has_key(k2) == old(self).has_key(k2)
                        && self.ids_of(k2) == old(self).ids_of(k2) by {
                        if old(self).has_key(k2) {
                            let w = choose|w: int|
                                0 <= w < old(self).entries@.len() && old(self).entries@[w].0@ == k2;
                            assert(self.entries@[w].0@ == k2);
                            self.lemma_ids_at(k2, w);
                            old(self).lemma_ids_at(k2, w);
                        }
                        if self.has_key(k2) {
                            let w = choose|w: int|
                                0 <= w < self.entries@.len() && self.entries@[w].0@ == k2;
                            assert(old(self).entries@[w].0@ == k2);
                            assert(old(self).has_key(k2));
                        }
                    }
                }
                return;
            }
            i += 1;
        }
        let entry_key = key.clone();
        self.entries.push((entry_key, ids));
        proof {
            self.lemma_ids_at(key@, self.entries@.len() - 1);
            assert forall|k2: Seq<char>| k2 != key@ implies
                self.has_key(k2) == old(self).has_key(k2)
                && self.ids_of(k2) == old(self).ids_of(k2) by {
                if old(self).has_key(k2) {
                    let w = choose|w: int|
                        0 <= w < old(self).entries@.len() && old(self).entries@[w].0@ == k2;
                    assert(self.entries@[w].0@ == k2);
                    self.lemma_ids_at(k2, w);
                    old(self).lemma_ids_at(k2, w);
                }
                if self.has_key(k2) {
                    let w = choose|w: int|
                        0 <= w < self.entries@.len() && self.entries@[w].0@ == k2;
                    assert(old(self).entries@[w].0@ == k2);
                    assert(old(self).has_key(k2));
                }
            }
        }
    }
}

/// A fresh vector holding the same ids.
pub fn copy_ids(v: &Vec<u64>) -> (r: Vec<u64>)
    ensures
        r@ == v@,
{
    let mut r: Vec<u64> = Vec::new();
    let mut i: usize = 0;
    while i < v.len()
        invariant
            i <= v@.len(),
            r@ == v@.subrange(0, i as int),
        decreases v@.len() - i,
    {
        r.push(v[i]);
        proof {
            assert(r@ =~= v@.subrange(0, i + 1 as int));
        }
        i += 1;
    }
    proof {
        assert(r@ =~= v@);
    }
    r
}

} // verus!
