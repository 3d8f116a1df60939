//! A table of records, each at an address of its own.

use vstd::prelude::*;
use crate::address::Address;

verus! {

/// What a table can hold: a value with a mathematical view that can be copied.
pub trait Record: View + Sized {
    /// A copy with the same view.
    fn duplicate(&self) -> (copy: Self)
        ensures
            copy@ == self@,
    ;
}

struct Entry<R> {
    key: Address,
    value: R,
}

/// Records by address. No address holds two records.
pub struct Table<R: Record> {
    entries: Vec<Entry<R>>,
}

impl<R: Record> View for Table<R> {
    type V = Map<Address, R::V>;

    closed spec fn view(&self) -> Map<Address, R::V> {
        Map::new(
            |key: Address| self.holds(key),
            |key: Address| self.entries@[self.position(key)].value@,
        )
    }
}

impl<R: Record> Table<R> {
    #[verifier::type_invariant]
    spec fn distinct_keys(&self) -> bool {
        forall|i: int, j: int|
            0 <= i < j < self.entries@.len() ==> self.entries@[i].key != self.entries@[j].key
    }

    spec fn holds(&self, key: Address) -> bool {
        exists|i: int| 0 <= i < self.entries@.len() && #[trigger] self.entries@[i].key == key
    }

    spec fn position(&self, key: Address) -> int {
        choose|i: int| 0 <= i < self.entries@.len() && #[trigger] self.entries@[i].key == key
    }

    proof fn lemma_position(&self, i: int)
        requires
            self.distinct_keys(),
            0 <= i < self.entries@.len(),
        ensures
            self.holds(self.entries@[i].key),
            self.position(self.entries@[i].key) == i,
            self@.dom().contains(self.entries@[i].key),
            self@[self.entries@[i].key] == self.entries@[i].value@,
    {
    }

    /// The empty table.
    pub fn new() -> (table: Self)
        ensures
            table@ == Map::<Address, R::V>::empty(),
    {
        let table = Table { entries: Vec::new() };
        assert(table@ =~= Map::<Address, R::V>::empty());
        table
    }

    fn find(&self, key: &Address) -> (found: Option<usize>)
        ensures
            match found {
                Some(i) => i < self.entries@.len() && self.entries@[i as int].key == *key,
                None => !self.holds(*key),
            },
    {
        let mut i: usize = 0;
        while i < self.entries.len()
            invariant
                i <= self.entries@.len(),
                forall|k: int| 0 <= k < i ==> self.entries@[k].key != *key,
            decreases self.entries@.len() - i,
        {
            if self.entries[i].key == *key {
                return Some(i);
            }
            i = i + 1;
        }
        None
    }

    /// Whether a record stands at `key`.
    pub fn contains(&self, key: &Address) -> (present: bool)
        ensures
            present == self@.dom().contains(*key),
    {
        self.find(key).is_some()
    }

    /// The record at `key`, if there is one.
    pub fn get(&self, key: &Address) -> (record: Option<&R>)
        ensures
            match record {
                Some(r) => self@.dom().contains(*key) && r@ == self@[*key],
                None => !self@.dom().contains(*key),
            },
    {
        proof {
            use_type_invariant(self);
        }
        match self.find(key) {
            Some(i) => {
                proof {
                    self.lemma_position(i as int);
                }
                Some(&self.entries[i].value)
            },
            None => None,
        }
    }

    /// Puts `record` at `key`, in place of the record that stood there, if any.
    pub fn put(&mut self, key: Address, record: R)
        ensures
            final(self)@ == old(self)@.insert(key, record@),
    {
        proof {
            use_type_invariant(&*self);
        }
        let ghost before = *self;
        let found: Option<usize> = self.find(&key);
        // The entries are changed outside the table and handed back whole:
        // the keys stay distinct at every step.
        let mut entries: Vec<Entry<R>> = Vec::new();
        core::mem::swap(&mut self.entries, &mut entries);
        match found {
            Some(i) => {
                entries.set(i, Entry { key, value: record });
            },
            None => {
                entries.push(Entry { key, value: record });
            },
        }
        core::mem::swap(&mut self.entries, &mut entries);
        proof {
            let n: int = before.entries@.len() as int;
            let at: int = match found {
                Some(i) => i as int,
                None => n,
            };
            assert(self.entries@[at].key == key);
            assert forall|a: Address| self.holds(a) == (before.holds(a) || a == key) by {
                if self.holds(a) {
                    let k: int = self.position(a);
                    if k != at {
                        assert(before.entries@[k].key == a);
                    }
                }
                if before.holds(a) {
                    let k: int = before.position(a);
                    if k != at {
                        assert(self.entries@[k].key == a);
                    }
                }
            }
            assert forall|a: Address| self.holds(a) implies self@[a] == before@.insert(
                key,
                record@,
            )[a] by {
                let k: int = self.position(a);
                if k != at {
                    before.lemma_position(k);
                }
            }
            assert(self@ =~= before@.insert(key, record@));
        }
    }

    /// A copy of the table.
    pub fn duplicate(&self) -> (copy: Self)
        ensures
            copy@ == self@,
    {
        proof {
            use_type_invariant(self);
        }
        let mut entries: Vec<Entry<R>> = Vec::new();
        let mut i: usize = 0;
        while i < self.entries.len()
            invariant
                i <= self.entries@.len(),
                entries@.len() == i,
                forall|k: int|
                    0 <= k < i ==> entries@[k].key == self.entries@[k].key && entries@[k].value@
                        == self.entries@[k].value@,
            decreases self.entries@.len() - i,
        {
            let entry = &self.entries[i];
            entries.push(Entry { key: entry.key, value: entry.value.duplicate() });
            i = i + 1;
        }
        let copy = Table { entries };
        proof {
            assert forall|a: Address| copy.holds(a) == self.holds(a) by {
                if copy.holds(a) {
                    let k: int = copy.position(a);
                    assert(self.entries@[k].key == a);
                }
                if self.holds(a) {
                    let k: int = self.position(a);
                    assert(copy.entries@[k].key == a);
                }
            }
            assert forall|a: Address| copy.holds(a) implies copy@[a] == self@[a] by {
                let k: int = copy.position(a);
                self.lemma_position(k);
            }
            assert(copy@ =~= self@);
        }
        copy
    }
}

} // verus!
