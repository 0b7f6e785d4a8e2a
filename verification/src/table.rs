//! Tables from keys to values.

use crate::alike::Alike;
use vstd::prelude::*;

verus! {

/// A table that holds at most one value for each key. Keys are the same where
/// they stand for the same.
#[derive(Debug)]
pub struct Table<K: Alike, V> {
    entries: Vec<(K, V)>,
}

/// Whether no key occurs twice.
spec fn keys_distinct<K: Alike, V>(entries: Seq<(K, V)>) -> bool {
    forall|i: int, j: int|
        0 <= i < j < entries.len() ==> (#[trigger] entries[i]).0.model() != (
        #[trigger] entries[j]).0.model()
}

/// Whether the entry at `i` is the one for `key`.
spec fn is_entry_for<K: Alike, V>(entries: Seq<(K, V)>, key: K::Model, i: int) -> bool {
    0 <= i < entries.len() && entries[i].0.model() == key
}

/// What the entries stand for.
spec fn as_map<K: Alike, V>(entries: Seq<(K, V)>) -> Map<K::Model, V> {
    Map::new(
        |key: K::Model| exists|i: int| is_entry_for(entries, key, i),
        |key: K::Model| entries[choose|i: int| is_entry_for(entries, key, i)].1,
    )
}

/// The entry at `i` is found under its own key.
proof fn lemma_entry<K: Alike, V>(entries: Seq<(K, V)>, i: int)
    requires
        keys_distinct(entries),
        0 <= i < entries.len(),
    ensures
        as_map(entries).dom().contains(entries[i].0.model()),
        as_map(entries)[entries[i].0.model()] == entries[i].1,
{
    let key = entries[i].0.model();
    assert(is_entry_for(entries, key, i));
    let found = choose|j: int| is_entry_for(entries, key, j);
    assert(is_entry_for(entries, key, found));
    assert(found == i) by {
        if found < i {
            assert(entries[found].0.model() != entries[i].0.model());
        } else if i < found {
            assert(entries[i].0.model() != entries[found].0.model());
        }
    }
}

impl<K: Alike, V> View for Table<K, V> {
    type V = Map<K::Model, V>;

    closed spec fn view(&self) -> Map<K::Model, V> {
        as_map(self.entries@)
    }
}

impl<K: Alike, V> Table<K, V> {
    #[verifier::type_invariant]
    spec fn no_key_twice(self) -> bool {
        keys_distinct(self.entries@)
    }

    /// An empty table.
    pub fn new() -> (table: Self)
        ensures
            table@ == Map::<K::Model, V>::empty(),
    {
        let table = Table { entries: Vec::new() };
        assert(table@ =~= Map::<K::Model, V>::empty());
        table
    }

    /// Where in `entries` the entry for `key` stands.
    fn position(entries: &Vec<(K, V)>, key: &K) -> (found: Option<usize>)
        requires
            keys_distinct(entries@),
        ensures
            match found {
                Some(i) => is_entry_for(entries@, key.model(), i as int),
                None => !as_map(entries@).dom().contains(key.model()),
            },
    {
        let mut i: usize = 0;
        while i < entries.len()
            invariant
                i <= entries@.len(),
                forall|j: int| 0 <= j < i ==> !is_entry_for(entries@, key.model(), j),
            decreases entries@.len() - i,
        {
            if entries[i].0.alike(key) {
                return Some(i);
            }
            i += 1;
        }
        None
    }

    /// The value for `key`.
    pub fn get(&self, key: &K) -> (value: Option<&V>)
        ensures
            match value {
                Some(value) => self@.dom().contains(key.model()) && *value == self@[key.model()],
                None => !self@.dom().contains(key.model()),
            },
    {
        proof {
            use_type_invariant(self);
        }
        match Self::position(&self.entries, key) {
            Some(i) => {
                proof {
                    lemma_entry(self.entries@, i as int);
                }
                Some(&self.entries[i].1)
            },
            None => None,
        }
    }

    /// Puts `value` in the table for `key`, in place of the one that was there.
    pub fn insert(&mut self, key: K, value: V)
        ensures
            final(self)@ == old(self)@.insert(key.model(), value),
    {
        proof {
            use_type_invariant(&*self);
        }
        let mut entries: Vec<(K, V)> = Vec::new();
        std::mem::swap(&mut entries, &mut self.entries);
        let ghost before = entries@;
        match Self::position(&entries, &key) {
            Some(i) => {
                entries.set(i, (key, value));
                proof {
                    lemma_replaced(before, i as int, (key, value));
                }
            },
            None => {
                entries.push((key, value));
                proof {
                    lemma_added(before, (key, value));
                }
            },
        }
        self.entries = entries;
    }

    /// Takes the value for `key` out of the table.
    pub fn remove(&mut self, key: &K) -> (value: Option<V>)
        ensures
            final(self)@ == old(self)@.remove(key.model()),
            match value {
                Some(value) => old(self)@.dom().contains(key.model()) && value
                    == old(self)@[key.model()],
                None => !old(self)@.dom().contains(key.model()),
            },
    {
        proof {
            use_type_invariant(&*self);
        }
        let mut entries: Vec<(K, V)> = Vec::new();
        std::mem::swap(&mut entries, &mut self.entries);
        let ghost before = entries@;
        let removed = match Self::position(&entries, key) {
            Some(i) => {
                let entry = entries.remove(i);
                proof {
                    lemma_entry(before, i as int);
                    lemma_removed(before, i as int);
                }
                Some(entry.1)
            },
            None => {
                proof {
                    assert(as_map(before) =~= as_map(before).remove(key.model()));
                }
                None
            },
        };
        self.entries = entries;
        removed
    }
}

/// Replacing the value of an entry replaces it in the table.
proof fn lemma_replaced<K: Alike, V>(entries: Seq<(K, V)>, i: int, entry: (K, V))
    requires
        keys_distinct(entries),
        is_entry_for(entries, entry.0.model(), i),
    ensures
        keys_distinct(entries.update(i, entry)),
        as_map(entries.update(i, entry)) == as_map(entries).insert(entry.0.model(), entry.1),
{
    let after = entries.update(i, entry);
    assert forall|a: int, b: int| 0 <= a < b < after.len() implies (#[trigger] after[a]).0.model()
        != (#[trigger] after[b]).0.model() by {
        assert(entries[a].0.model() != entries[b].0.model());
    }
    lemma_same_keys(entries, after, i);
    assert(as_map(after) =~= as_map(entries).insert(entry.0.model(), entry.1)) by {
        lemma_entry(after, i);
        lemma_entry(entries, i);
        assert forall|key: K::Model|
            as_map(after).dom().contains(key) && key != entry.0.model() implies as_map(after)[key]
            == as_map(entries)[key] by {
            let j = choose|j: int| is_entry_for(after, key, j);
            lemma_entry(after, j);
            lemma_entry(entries, j);
        }
    }
}

/// Entries that differ in one place, under the same key, have the same keys.
proof fn lemma_same_keys<K: Alike, V>(before: Seq<(K, V)>, after: Seq<(K, V)>, i: int)
    requires
        before.len() == after.len(),
        0 <= i < before.len(),
        before[i].0.model() == after[i].0.model(),
        forall|j: int| 0 <= j < before.len() && j != i ==> before[j] == after[j],
    ensures
        as_map(before).dom() == as_map(after).dom(),
{
    assert forall|key: K::Model| as_map(before).dom().contains(key) == as_map(after).dom().contains(
        key,
    ) by {
        if as_map(before).dom().contains(key) {
            let j = choose|j: int| is_entry_for(before, key, j);
            assert(is_entry_for(after, key, j));
        }
        if as_map(after).dom().contains(key) {
            let j = choose|j: int| is_entry_for(after, key, j);
            assert(is_entry_for(before, key, j));
        }
    }
    assert(as_map(before).dom() =~= as_map(after).dom());
}

/// Adding an entry under a new key adds it to the table.
proof fn lemma_added<K: Alike, V>(entries: Seq<(K, V)>, entry: (K, V))
    requires
        keys_distinct(entries),
        !as_map(entries).dom().contains(entry.0.model()),
    ensures
        keys_distinct(entries.push(entry)),
        as_map(entries.push(entry)) == as_map(entries).insert(entry.0.model(), entry.1),
{
    let after = entries.push(entry);
    assert forall|a: int, b: int| 0 <= a < b < after.len() implies (#[trigger] after[a]).0.model()
        != (#[trigger] after[b]).0.model() by {
        if b < entries.len() {
            assert(entries[a].0.model() != entries[b].0.model());
        } else {
            assert(!is_entry_for(entries, entry.0.model(), a));
        }
    }
    assert(as_map(after) =~= as_map(entries).insert(entry.0.model(), entry.1)) by {
        lemma_entry(after, entries.len() as int);
        assert forall|key: K::Model| key != entry.0.model() implies (#[trigger] as_map(
            after,
        ).dom().contains(key)) == as_map(entries).dom().contains(key) && (as_map(
            entries,
        ).dom().contains(key) ==> as_map(after)[key] == as_map(entries)[key]) by {
            if as_map(entries).dom().contains(key) {
                let j = choose|j: int| is_entry_for(entries, key, j);
                assert(is_entry_for(after, key, j));
                lemma_entry(after, j);
                lemma_entry(entries, j);
            }
            if as_map(after).dom().contains(key) {
                let j = choose|j: int| is_entry_for(after, key, j);
                assert(is_entry_for(entries, key, j));
            }
        }
    }
}

/// Taking an entry out takes its key out of the table.
proof fn lemma_removed<K: Alike, V>(entries: Seq<(K, V)>, i: int)
    requires
        keys_distinct(entries),
        0 <= i < entries.len(),
    ensures
        keys_distinct(entries.remove(i)),
        as_map(entries.remove(i)) == as_map(entries).remove(entries[i].0.model()),
{
    let after = entries.remove(i);
    let gone = entries[i].0.model();
    assert forall|a: int, b: int| 0 <= a < b < after.len() implies (#[trigger] after[a]).0.model()
        != (#[trigger] after[b]).0.model() by {
        let a1 = if a < i {
            a
        } else {
            a + 1
        };
        let b1 = if b < i {
            b
        } else {
            b + 1
        };
        assert(entries[a1].0.model() != entries[b1].0.model());
    }
    assert forall|key: K::Model|
        (#[trigger] as_map(after).dom().contains(key)) == (as_map(entries).dom().contains(key) && key
            != gone) && (as_map(after).dom().contains(key) ==> as_map(after)[key] == as_map(
            entries,
        )[key]) by {
        if as_map(after).dom().contains(key) {
            let j = choose|j: int| is_entry_for(after, key, j);
            let j1 = if j < i {
                j
            } else {
                j + 1
            };
            assert(after[j] == entries[j1]);
            assert(is_entry_for(entries, key, j1));
            lemma_entry(after, j);
            lemma_entry(entries, j1);
            if j1 < i {
                assert(entries[j1].0.model() != entries[i].0.model());
            } else {
                assert(entries[i].0.model() != entries[j1].0.model());
            }
        }
        if as_map(entries).dom().contains(key) && key != gone {
            let j = choose|j: int| is_entry_for(entries, key, j);
            let j1 = if j < i {
                j
            } else {
                j - 1
            };
            assert(after[j1] == entries[j]);
            assert(is_entry_for(after, key, j1));
        }
    }
    assert(as_map(after) =~= as_map(entries).remove(gone));
}

impl<K: Alike, V: Alike> Table<K, V> {
    /// Whether every entry of `self` stands in `other` with a value that
    /// stands for the same.
    fn within(&self, other: &Self) -> (within: bool)
        ensures
            within == forall|key: K::Model| #[trigger]
                self@.dom().contains(key) ==> other@.dom().contains(key) && other@[key].model()
                    == self@[key].model(),
    {
        proof {
            use_type_invariant(self);
        }
        let mut i: usize = 0;
        while i < self.entries.len()
            invariant
                i <= self.entries@.len(),
                keys_distinct(self.entries@),
                forall|j: int|
                    0 <= j < i ==> {
                        let key = (#[trigger] self.entries@[j]).0.model();
                        other@.dom().contains(key) && other@[key].model()
                            == self.entries@[j].1.model()
                    },
            decreases self.entries@.len() - i,
        {
            proof {
                lemma_entry(self.entries@, i as int);
            }
            let alike = match other.get(&self.entries[i].0) {
                Some(value) => value.alike(&self.entries[i].1),
                None => false,
            };
            if !alike {
                assert(self@.dom().contains(self.entries@[i as int].0.model()));
                return false;
            }
            i += 1;
        }
        assert forall|key: K::Model| #[trigger] self@.dom().contains(key) implies other@.dom().contains(
            key,
        ) && other@[key].model() == self@[key].model() by {
            let j = choose|j: int| is_entry_for(self.entries@, key, j);
            assert(is_entry_for(self.entries@, key, j));
            lemma_entry(self.entries@, j);
        }
        true
    }
}

impl<K: Alike, V: Alike> Alike for Table<K, V> {
    type Model = Map<K::Model, V::Model>;

    open spec fn model(&self) -> Map<K::Model, V::Model> {
        self@.map_values(|value: V| value.model())
    }

    fn alike(&self, other: &Self) -> (same: bool) {
        let same = self.within(other) && other.within(self);
        proof {
            if same {
                assert(self.model() =~= other.model());
            } else {
                if self.model() == other.model() {
                    assert forall|key: K::Model| #[trigger]
                        self@.dom().contains(key) implies other@.dom().contains(key)
                        && other@[key].model() == self@[key].model() by {
                        assert(self.model().dom().contains(key));
                        assert(self.model()[key] == other.model()[key]);
                    }
                    assert forall|key: K::Model| #[trigger]
                        other@.dom().contains(key) implies self@.dom().contains(key)
                        && self@[key].model() == other@[key].model() by {
                        assert(other.model().dom().contains(key));
                        assert(self.model()[key] == other.model()[key]);
                    }
                }
            }
        }
        same
    }

    fn duplicate(&self) -> (copy: Self) {
        proof {
            use_type_invariant(self);
        }
        let mut copy: Table<K, V> = Table::new();
        let mut i: usize = 0;
        while i < self.entries.len()
            invariant
                i <= self.entries@.len(),
                keys_distinct(self.entries@),
                forall|key: K::Model| #[trigger]
                    copy@.dom().contains(key) <==> exists|j: int|
                        j < i && is_entry_for(self.entries@, key, j),
                forall|j: int|
                    0 <= j < i ==> copy@[(#[trigger] self.entries@[j]).0.model()].model()
                        == self.entries@[j].1.model(),
            decreases self.entries@.len() - i,
        {
            let ghost before = copy@;
            copy.insert(self.entries[i].0.duplicate(), self.entries[i].1.duplicate());
            proof {
                let added = self.entries@[i as int].0.model();
                assert forall|key: K::Model| #[trigger]
                    copy@.dom().contains(key) <==> exists|j: int|
                        j < i + 1 && is_entry_for(self.entries@, key, j) by {
                    if before.dom().contains(key) {
                        let j = choose|j: int| j < i && is_entry_for(self.entries@, key, j);
                        assert(j < i + 1 && is_entry_for(self.entries@, key, j));
                    }
                    if key == added {
                        assert(is_entry_for(self.entries@, key, i as int));
                    }
                }
            }
            i += 1;
        }
        assert(copy.model() =~= self.model()) by {
            assert forall|key: K::Model| (#[trigger] copy@.dom().contains(key))
                == self@.dom().contains(key) && (self@.dom().contains(key) ==> copy@[key].model()
                == self@[key].model()) by {
                if self@.dom().contains(key) {
                    let j = choose|j: int| is_entry_for(self.entries@, key, j);
                    assert(j < i && is_entry_for(self.entries@, key, j));
                    lemma_entry(self.entries@, j);
                }
            }
        }
        copy
    }
}

} // verus!
