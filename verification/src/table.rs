use crate::storage_types::Key;
use vstd::prelude::*;

verus! {

/// A finite map from keys to values, kept as a list of entries in which no key
/// occurs twice.
#[derive(Debug, PartialEq, Eq)]
pub struct Table<K: Key, V: Copy> {
    entries: Vec<(K, V)>,
}

/// Whether `k` is the key of the entry at position `i` of `entries`.
pub open spec fn holds_at<K, V>(entries: Seq<(K, V)>, i: int, k: K) -> bool {
    0 <= i < entries.len() && entries[i].0 == k
}

/// No key occurs at two positions of `entries`.
pub open spec fn keys_distinct<K, V>(entries: Seq<(K, V)>) -> bool {
    forall|i: int, j: int|
        0 <= i < entries.len() && 0 <= j < entries.len() && i != j
            ==> entries[i].0 != entries[j].0
}

/// The map that a list of entries stands for.
pub open spec fn entries_map<K, V>(entries: Seq<(K, V)>) -> Map<K, V> {
    Map::new(
        |k: K| exists|i: int| holds_at(entries, i, k),
        |k: K| entries[choose|i: int| holds_at(entries, i, k)].1,
    )
}

/// An entry of a list with distinct keys is what the map holds for its key.
pub proof fn lemma_entry_in_map<K, V>(entries: Seq<(K, V)>, i: int)
    requires
        keys_distinct(entries),
        0 <= i < entries.len(),
    ensures
        entries_map(entries).dom().contains(entries[i].0),
        entries_map(entries)[entries[i].0] == entries[i].1,
{
    let k = entries[i].0;
    assert(holds_at(entries, i, k));
    let j = choose|j: int| holds_at(entries, j, k);
    assert(holds_at(entries, j, k));
    assert(j == i);
}

/// Appending an entry under a fresh key inserts it into the map.
pub proof fn lemma_push_is_insert<K, V>(entries: Seq<(K, V)>, k: K, v: V)
    requires
        keys_distinct(entries),
        !entries_map(entries).dom().contains(k),
    ensures
        keys_distinct(entries.push((k, v))),
        entries_map(entries.push((k, v))) == entries_map(entries).insert(k, v),
{
    let after = entries.push((k, v));
    let n = entries.len() as int;
    assert forall|i: int, j: int|
        0 <= i < after.len() && 0 <= j < after.len() && i != j implies after[i].0 != after[j].0 by {
        if i < n && j < n {
            assert(after[i] == entries[i] && after[j] == entries[j]);
        } else if i < n {
            assert(holds_at(entries, i, entries[i].0));
        } else {
            assert(holds_at(entries, j, entries[j].0));
        }
    }
    assert forall|key: K| #[trigger]
        entries_map(after).dom().contains(key) <==> entries_map(entries).insert(
            k,
            v,
        ).dom().contains(key) by {
        if entries_map(after).dom().contains(key) {
            let i = choose|i: int| holds_at(after, i, key);
            if i < n {
                assert(holds_at(entries, i, key));
            }
        }
        if key == k {
            assert(holds_at(after, n, key));
        } else if entries_map(entries).dom().contains(key) {
            let i = choose|i: int| holds_at(entries, i, key);
            assert(holds_at(after, i, key));
        }
    }
    assert forall|key: K| #[trigger]
        entries_map(after).dom().contains(key) implies entries_map(after)[key] == entries_map(
        entries,
    ).insert(k, v)[key] by {
        let i = choose|i: int| holds_at(after, i, key);
        lemma_entry_in_map(after, i);
        if i < n {
            lemma_entry_in_map(entries, i);
        }
    }
    assert(entries_map(after) =~= entries_map(entries).insert(k, v));
}

/// Replacing the value of the entry at position `i` replaces it in the map.
pub proof fn lemma_update_is_insert<K, V>(entries: Seq<(K, V)>, i: int, v: V)
    requires
        keys_distinct(entries),
        0 <= i < entries.len(),
    ensures
        keys_distinct(entries.update(i, (entries[i].0, v))),
        entries_map(entries.update(i, (entries[i].0, v))) == entries_map(entries).insert(
            entries[i].0,
            v,
        ),
{
    let k = entries[i].0;
    let after = entries.update(i, (k, v));
    assert forall|a: int| 0 <= a < after.len() implies #[trigger] after[a].0 == entries[a].0 by {}
    assert forall|key: K| #[trigger]
        entries_map(after).dom().contains(key) <==> entries_map(entries).insert(
            k,
            v,
        ).dom().contains(key) by {
        if entries_map(after).dom().contains(key) {
            let a = choose|a: int| holds_at(after, a, key);
            assert(holds_at(entries, a, key));
        }
        if key == k {
            assert(holds_at(after, i, key));
        } else if entries_map(entries).dom().contains(key) {
            let a = choose|a: int| holds_at(entries, a, key);
            assert(holds_at(after, a, key));
        }
    }
    assert forall|key: K| #[trigger]
        entries_map(after).dom().contains(key) implies entries_map(after)[key] == entries_map(
        entries,
    ).insert(k, v)[key] by {
        let a = choose|a: int| holds_at(after, a, key);
        lemma_entry_in_map(after, a);
        lemma_entry_in_map(entries, a);
    }
    assert(entries_map(after) =~= entries_map(entries).insert(k, v));
}

/// Taking out the entry at position `i` removes its key from the map.
pub proof fn lemma_remove_is_remove<K, V>(entries: Seq<(K, V)>, i: int)
    requires
        keys_distinct(entries),
        0 <= i < entries.len(),
    ensures
        keys_distinct(entries.remove(i)),
        entries_map(entries.remove(i)) == entries_map(entries).remove(entries[i].0),
{
    let k = entries[i].0;
    let after = entries.remove(i);
    assert forall|a: int| 0 <= a < after.len() implies #[trigger] after[a] == entries[if a < i {
        a
    } else {
        a + 1
    }] by {}
    assert forall|key: K| #[trigger]
        entries_map(after).dom().contains(key) <==> entries_map(entries).remove(
            k,
        ).dom().contains(key) by {
        if entries_map(after).dom().contains(key) {
            let a = choose|a: int| holds_at(after, a, key);
            let b = if a < i { a } else { a + 1 };
            assert(holds_at(entries, b, key));
        }
        if key != k && entries_map(entries).dom().contains(key) {
            let b = choose|b: int| holds_at(entries, b, key);
            let a = if b < i { b } else { b - 1 };
            assert(holds_at(after, a, key));
        }
    }
    assert forall|key: K| #[trigger]
        entries_map(after).dom().contains(key) implies entries_map(after)[key] == entries_map(
        entries,
    ).remove(k)[key] by {
        let a = choose|a: int| holds_at(after, a, key);
        let b = if a < i { a } else { a + 1 };
        lemma_entry_in_map(after, a);
        lemma_entry_in_map(entries, b);
    }
    assert(entries_map(after) =~= entries_map(entries).remove(k));
}

/// The map of a list of entries has finitely many keys.
pub proof fn lemma_entries_map_finite<K, V>(entries: Seq<(K, V)>)
    ensures
        entries_map(entries).dom().finite(),
    decreases entries.len(),
{
    if entries.len() == 0 {
        assert(entries_map(entries).dom() =~= Set::<K>::empty());
    } else {
        let front = entries.drop_last();
        let last = entries.last();
        lemma_entries_map_finite(front);
        assert forall|key: K| #[trigger]
            entries_map(entries).dom().contains(key) <==> entries_map(front).dom().insert(
                last.0,
            ).contains(key) by {
            if entries_map(entries).dom().contains(key) {
                let i = choose|i: int| holds_at(entries, i, key);
                if i < front.len() {
                    assert(holds_at(front, i, key));
                }
            }
            if key == last.0 {
                assert(holds_at(entries, entries.len() - 1, key));
            } else if entries_map(front).dom().contains(key) {
                let i = choose|i: int| holds_at(front, i, key);
                assert(holds_at(entries, i, key));
            }
        }
        assert(entries_map(entries).dom() =~= entries_map(front).dom().insert(last.0));
    }
}

impl<K: Key, V: Copy> View for Table<K, V> {
    type V = Map<K, V>;

    closed spec fn view(&self) -> Map<K, V> {
        entries_map(self.entries@)
    }
}

impl<K: Key, V: Copy> Clone for Table<K, V> {
    /// A table of its own with the same entries.
    fn clone(&self) -> (copy: Self)
        ensures
            copy@ == self@,
    {
        Table { entries: self.entries() }
    }
}

impl<K: Key, V: Copy> Table<K, V> {
    #[verifier::type_invariant]
    spec fn well_formed(self) -> bool {
        keys_distinct(self.entries@)
    }

    /// A table without entries.
    pub fn new() -> (table: Self)
        ensures
            table@ == Map::<K, V>::empty(),
    {
        let table = Table { entries: Vec::new() };
        assert(table@ =~= Map::<K, V>::empty());
        table
    }

    /// Every table holds finitely many keys.
    pub proof fn lemma_finite(self)
        ensures
            self@.dom().finite(),
    {
        lemma_entries_map_finite(self.entries@);
    }

    /// The position of the entry for `key`, if there is one.
    fn position(&self, key: &K) -> (found: Option<usize>)
        ensures
            match found {
                Some(i) => holds_at(self.entries@, i as int, *key),
                None => !self@.dom().contains(*key),
            },
    {
        let mut i: usize = 0;
        while i < self.entries.len()
            invariant
                i <= self.entries@.len(),
                forall|j: int| 0 <= j < i ==> self.entries@[j].0 != *key,
            decreases self.entries@.len() - i,
        {
            if self.entries[i].0.same(key) {
                return Some(i);
            }
            i += 1;
        }
        assert(forall|j: int| !holds_at(self.entries@, j, *key));
        None
    }

    /// The value recorded for `key`, if there is one.
    pub fn get(&self, key: &K) -> (value: Option<V>)
        ensures
            value == (if self@.dom().contains(*key) {
                Some(self@[*key])
            } else {
                None::<V>
            }),
    {
        proof {
            use_type_invariant(self);
        }
        match self.position(key) {
            Some(i) => {
                proof {
                    lemma_entry_in_map(self.entries@, i as int);
                }
                Some(self.entries[i].1)
            },
            None => None,
        }
    }

    /// Records `value` for `key`, in place of any value recorded before.
    pub fn set(&mut self, key: K, value: V)
        ensures
            final(self)@ == old(self)@.insert(key, value),
    {
        proof {
            use_type_invariant(&*self);
        }
        let found = self.position(&key);
        let mut entries: Vec<(K, V)> = Vec::new();
        std::mem::swap(&mut entries, &mut self.entries);
        match found {
            Some(i) => {
                proof {
                    lemma_update_is_insert(entries@, i as int, value);
                }
                entries.set(i, (key, value));
            },
            None => {
                proof {
                    lemma_push_is_insert(entries@, key, value);
                }
                entries.push((key, value));
            },
        }
        self.entries = entries;
    }

    /// Forgets what is recorded for `key`, if anything is.
    pub fn remove(&mut self, key: &K)
        ensures
            final(self)@ == old(self)@.remove(*key),
    {
        proof {
            use_type_invariant(&*self);
        }
        match self.position(key) {
            Some(i) => {
                let mut entries: Vec<(K, V)> = Vec::new();
                std::mem::swap(&mut entries, &mut self.entries);
                proof {
                    lemma_remove_is_remove(entries@, i as int);
                }
                entries.remove(i);
                self.entries = entries;
            },
            None => {
                assert(self@ =~= self@.remove(*key));
            },
        }
    }

    /// The entries of the table: each key once, with its value.
    pub fn entries(&self) -> (list: Vec<(K, V)>)
        ensures
            keys_distinct(list@),
            entries_map(list@) == self@,
    {
        proof {
            use_type_invariant(self);
        }
        let mut list: Vec<(K, V)> = Vec::new();
        let mut i: usize = 0;
        while i < self.entries.len()
            invariant
                i <= self.entries@.len(),
                list@ == self.entries@.subrange(0, i as int),
            decreases self.entries@.len() - i,
        {
            list.push(self.entries[i]);
            assert(list@ =~= self.entries@.subrange(0, i + 1));
            i += 1;
        }
        assert(list@ =~= self.entries@);
        list
    }
}

} // verus!
