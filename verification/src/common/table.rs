//! A small table keyed by strings, kept in insertion order.
//!
//! The tables of this system hold a handful of entries each and are walked
//! in a fixed order, so a pair of vectors serves: no key occurs twice, and
//! what came first stays first. What a table holds for a key is told by
//! [`Table::get`]; the vectors are open to code that walks or edits the
//! entries in place.

use vstd::prelude::*;
use crate::common::text::str_equal;

verus! {

/// Keys and values side by side: the value of `keys[i]` is `values[i]`.
pub struct Table<V> {
    pub keys: Vec<String>,
    pub values: Vec<V>,
}

/// Whether `key` is among the first `n` of `keys`.
pub closed spec fn key_within(keys: Seq<String>, n: int, key: Seq<char>) -> bool {
    exists|i: int| 0 <= i < n && i < keys.len() && (#[trigger] keys[i])@ == key
}

/// No key occurs twice.
pub closed spec fn distinct(keys: Seq<String>) -> bool {
    forall|i: int, j: int| 0 <= i < j < keys.len() ==> (#[trigger] keys[i])@ != (#[trigger] keys[j])@
}

impl<V> Table<V> {
    /// As many values as keys, and no key twice.
    pub open spec fn wf(self) -> bool {
        &&& self.keys@.len() == self.values@.len()
        &&& distinct(self.keys@)
    }

    /// The position of the entry for `key`; meaningful when there is one.
    pub closed spec fn slot(self, key: Seq<char>) -> int {
        choose|i: int| 0 <= i < self.keys@.len() && (#[trigger] self.keys@[i])@ == key
    }

    /// The value for `key`, if the table has one.
    pub closed spec fn get(self, key: Seq<char>) -> Option<V> {
        if key_within(self.keys@, self.keys@.len() as int, key) {
            Some(self.values@[self.slot(key)])
        } else {
            None
        }
    }

    /// Whether the table has an entry for `key`.
    pub open spec fn has(self, key: Seq<char>) -> bool {
        self.get(key) is Some
    }

    /// The entry at position `i` is what the table holds for its key.
    pub proof fn lemma_entry(self, i: int)
        requires
            self.wf(),
            0 <= i < self.keys@.len(),
        ensures
            self.get(self.keys@[i]@) == Some(self.values@[i]),
            self.slot(self.keys@[i]@) == i,
    {
        let key = self.keys@[i]@;
        assert(key_within(self.keys@, self.keys@.len() as int, key));
        let j = self.slot(key);
        assert(0 <= j < self.keys@.len() && self.keys@[j]@ == key);
        if j < i {
            assert(self.keys@[j]@ != self.keys@[i]@);
        } else if i < j {
            assert(self.keys@[i]@ != self.keys@[j]@);
        }
    }

    /// What the table holds for a key stands at the position of that key.
    pub proof fn lemma_slot(self, key: Seq<char>)
        requires
            self.wf(),
            self.has(key),
        ensures
            0 <= self.slot(key) < self.keys@.len(),
            self.keys@[self.slot(key)]@ == key,
            self.get(key) == Some(self.values@[self.slot(key)]),
    {
    }

    /// Editing the value at one position changes what the table holds for
    /// the key at that position, and for no other key.
    pub proof fn lemma_edited(self, after: Table<V>, i: int)
        requires
            self.wf(),
            0 <= i < self.keys@.len(),
            after.keys@ == self.keys@,
            after.values@.len() == self.values@.len(),
            forall|j: int| 0 <= j < self.values@.len() && j != i ==> after.values@[j] == self.values@[j],
        ensures
            after.wf(),
            after.get(self.keys@[i]@) == Some(after.values@[i]),
            forall|k: Seq<char>| k != self.keys@[i]@ ==> #[trigger] after.get(k) == self.get(k),
            forall|k: Seq<char>| after.slot(k) == self.slot(k),
    {
        after.lemma_entry(i);
        assert forall|k: Seq<char>| k != self.keys@[i]@ implies #[trigger] after.get(k) == self.get(
            k,
        ) by {
            if self.has(k) {
                let j = self.slot(k);
                assert(j != i);
            }
        }
    }

    /// The empty table.
    pub fn new() -> (r: Table<V>)
        ensures
            r.wf(),
            r.keys@.len() == 0,
            r.values@.len() == 0,
            forall|k: Seq<char>| #[trigger] r.get(k) is None,
    {
        Table { keys: Vec::new(), values: Vec::new() }
    }

    /// The number of entries.
    pub fn len(&self) -> (r: usize)
        ensures
            r == self.keys@.len(),
    {
        self.keys.len()
    }

    /// The position of the entry for `key`, if there is one.
    pub fn find(&self, key: &str) -> (r: Option<usize>)
        requires
            self.wf(),
        ensures
            match r {
                Some(i) => i < self.keys@.len() && self.keys@[i as int]@ == key@ && self.get(key@)
                    == Some(self.values@[i as int]) && self.slot(key@) == i,
                None => self.get(key@) is None,
            },
    {
        let mut i: usize = 0;
        while i < self.keys.len()
            invariant
                i <= self.keys@.len(),
                self.wf(),
                !key_within(self.keys@, i as int, key@),
            decreases self.keys@.len() - i,
        {
            if str_equal(self.keys[i].as_str(), key) {
                proof {
                    self.lemma_entry(i as int);
                }
                return Some(i);
            }
            i += 1;
        }
        None
    }

    /// Whether the table has an entry for `key`.
    pub fn contains_key(&self, key: &str) -> (r: bool)
        requires
            self.wf(),
        ensures
            r == self.has(key@),
    {
        self.find(key).is_some()
    }

    /// The value for `key`, if the table has one.
    pub fn lookup(&self, key: &str) -> (r: Option<&V>)
        requires
            self.wf(),
        ensures
            match r {
                Some(v) => self.get(key@) == Some(*v),
                None => self.get(key@) is None,
            },
    {
        match self.find(key) {
            Some(i) => Some(&self.values[i]),
            None => None,
        }
    }

    /// Replaces the value at position `i`.
    pub fn set_at(&mut self, i: usize, value: V)
        requires
            old(self).wf(),
            i < old(self).keys@.len(),
        ensures
            final(self).wf(),
            final(self).keys@ == old(self).keys@,
            final(self).values@ == old(self).values@.update(i as int, value),
            final(self).get(old(self).keys@[i as int]@) == Some(value),
            forall|k: Seq<char>|
                k != old(self).keys@[i as int]@ ==> #[trigger] final(self).get(k) == old(self).get(k),
    {
        self.values[i] = value;
        proof {
            old(self).lemma_edited(*self, i as int);
        }
    }

    /// Adds an entry for a key that the table does not have yet, after all
    /// the others.
    pub fn push_new(&mut self, key: String, value: V)
        requires
            old(self).wf(),
            !old(self).has(key@),
        ensures
            final(self).wf(),
            final(self).keys@ == old(self).keys@.push(key),
            final(self).values@ == old(self).values@.push(value),
            final(self).get(key@) == Some(value),
            forall|k: Seq<char>| k != key@ ==> #[trigger] final(self).get(k) == old(self).get(k),
    {
        self.keys.push(key);
        self.values.push(value);
        proof {
            let n = old(self).keys@.len() as int;
            assert forall|i: int, j: int| 0 <= i < j < self.keys@.len() implies (
            #[trigger] self.keys@[i])@ != (#[trigger] self.keys@[j])@ by {
                if j == n {
                    if self.keys@[i]@ == key@ {
                        assert(old(self).keys@[i]@ == key@);
                        assert(key_within(old(self).keys@, n, key@));
                    }
                } else {
                    assert(old(self).keys@[i]@ != old(self).keys@[j]@);
                }
            }
            self.lemma_entry(n);
            assert forall|k: Seq<char>| k != key@ implies #[trigger] self.get(k) == old(self).get(
                k,
            ) by {
                if old(self).has(k) {
                    let j = old(self).slot(k);
                    assert(self.keys@[j] == old(self).keys@[j]);
                    self.lemma_entry(j);
                }
                if self.has(k) {
                    let j = self.slot(k);
                    assert(j < n);
                    assert(old(self).keys@[j]@ == k);
                    assert(key_within(old(self).keys@, n, k));
                    old(self).lemma_entry(j);
                }
            }
        }
    }

    /// Sets the value for `key`: in place where the table has the key,
    /// after all the others where it has not.
    pub fn upsert(&mut self, key: String, value: V)
        requires
            old(self).wf(),
        ensures
            final(self).wf(),
            final(self).get(key@) == Some(value),
            forall|k: Seq<char>| k != key@ ==> #[trigger] final(self).get(k) == old(self).get(k),
            old(self).has(key@) ==> final(self).keys@ == old(self).keys@,
            !old(self).has(key@) ==> final(self).keys@ == old(self).keys@.push(key),
    {
        match self.find(key.as_str()) {
            Some(i) => self.set_at(i, value),
            None => self.push_new(key, value),
        }
    }

    /// Removes the entry at position `i`; the entries after it move up.
    pub fn remove_at(&mut self, i: usize) -> (r: (String, V))
        requires
            old(self).wf(),
            i < old(self).keys@.len(),
        ensures
            final(self).wf(),
            r.0 == old(self).keys@[i as int],
            r.1 == old(self).values@[i as int],
            final(self).keys@ == old(self).keys@.remove(i as int),
            final(self).values@ == old(self).values@.remove(i as int),
            final(self).get(r.0@) is None,
            forall|k: Seq<char>| k != r.0@ ==> #[trigger] final(self).get(k) == old(self).get(k),
    {
        let key = self.keys.remove(i);
        let value = self.values.remove(i);
        proof {
            let before = old(self).keys@;
            let after = self.keys@;
            assert forall|a: int, b: int| 0 <= a < b < after.len() implies (#[trigger] after[a])@ != (
            #[trigger] after[b])@ by {
                let a0 = if a < i { a } else { a + 1 };
                let b0 = if b < i { b } else { b + 1 };
                assert(before[a0]@ != before[b0]@);
            }
            if key_within(after, after.len() as int, key@) {
                let a = choose|a: int| 0 <= a < after.len() && (#[trigger] after[a])@ == key@;
                let a0 = if a < i { a } else { a + 1 };
                if a0 < i {
                    assert(before[a0]@ != before[i as int]@);
                } else {
                    assert(before[i as int]@ != before[a0]@);
                }
            }
            assert forall|k: Seq<char>| k != key@ implies #[trigger] self.get(k) == old(self).get(
                k,
            ) by {
                if old(self).has(k) {
                    let a0 = old(self).slot(k);
                    let a = if a0 < i { a0 } else { a0 - 1 };
                    assert(after[a]@ == k);
                    self.lemma_entry(a);
                }
                if self.has(k) {
                    let a = self.slot(k);
                    let a0 = if a < i { a } else { a + 1 };
                    assert(before[a0]@ == k);
                    old(self).lemma_entry(a0);
                }
            }
        }
        (key, value)
    }

    /// Removes the entry for `key`, if there is one, and returns its value.
    pub fn remove(&mut self, key: &str) -> (r: Option<V>)
        requires
            old(self).wf(),
        ensures
            final(self).wf(),
            r == old(self).get(key@),
            final(self).get(key@) is None,
            forall|k: Seq<char>| k != key@ ==> #[trigger] final(self).get(k) == old(self).get(k),
    {
        match self.find(key) {
            Some(i) => {
                let (_, v) = self.remove_at(i);
                Some(v)
            },
            None => None,
        }
    }
}

} // verus!
