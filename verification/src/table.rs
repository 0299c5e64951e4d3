//! A keyed table: the storage of every contract in this crate.
use vstd::prelude::*;

verus! {

/// A type whose values can be compared exactly, and so can key a [`Table`].
pub trait Key: Sized {
    /// Whether the two keys are the same value.
    fn same(&self, other: &Self) -> (equal: bool)
        ensures
            equal == (*self == *other),
    ;
}

impl Key for u64 {
    fn same(&self, other: &Self) -> (equal: bool) {
        *self == *other
    }
}

impl Key for u32 {
    fn same(&self, other: &Self) -> (equal: bool) {
        *self == *other
    }
}

impl<A: Key, B: Key> Key for (A, B) {
    fn same(&self, other: &Self) -> (equal: bool) {
        self.0.same(&other.0) && self.1.same(&other.1)
    }
}

/// What a list of entries maps each key to: the first entry of a key counts.
pub open spec fn entries_map<K, V: View>(entries: Seq<(K, V)>) -> Map<K, V::V>
    decreases entries.len(),
{
    if entries.len() == 0 {
        Map::empty()
    } else {
        entries_map(entries.drop_first()).insert(entries[0].0, entries[0].1@)
    }
}

proof fn lemma_absent<K, V: View>(entries: Seq<(K, V)>, key: K)
    requires
        forall|i: int| 0 <= i < entries.len() ==> (#[trigger] entries[i]).0 != key,
    ensures
        !entries_map(entries).contains_key(key),
    decreases entries.len(),
{
    if entries.len() > 0 {
        assert forall|i: int| 0 <= i < entries.drop_first().len() implies (
        #[trigger] entries.drop_first()[i]).0 != key by {
            assert(entries.drop_first()[i] == entries[i + 1]);
        }
        lemma_absent(entries.drop_first(), key);
        assert(entries[0].0 != key);
    }
}

proof fn lemma_first<K, V: View>(entries: Seq<(K, V)>, at: int, key: K)
    requires
        0 <= at < entries.len(),
        entries[at].0 == key,
        forall|i: int| 0 <= i < at ==> (#[trigger] entries[i]).0 != key,
    ensures
        entries_map(entries).contains_key(key),
        entries_map(entries)[key] == entries[at].1@,
    decreases entries.len(),
{
    if at > 0 {
        assert forall|i: int| 0 <= i < at - 1 implies (#[trigger] entries.drop_first()[i]).0
            != key by {
            assert(entries.drop_first()[i] == entries[i + 1]);
        }
        lemma_first(entries.drop_first(), at - 1, key);
        assert(entries[0].0 != key);
    }
}

proof fn lemma_update<K, V: View>(entries: Seq<(K, V)>, at: int, key: K, value: V)
    requires
        0 <= at < entries.len(),
        entries[at].0 == key,
        forall|i: int| 0 <= i < at ==> (#[trigger] entries[i]).0 != key,
    ensures
        entries_map(entries.update(at, (key, value))) == entries_map(entries).insert(key, value@),
    decreases entries.len(),
{
    let updated = entries.update(at, (key, value));
    if at == 0 {
        assert(updated.drop_first() =~= entries.drop_first());
        assert(entries_map(updated) =~= entries_map(entries).insert(key, value@));
    } else {
        assert forall|i: int| 0 <= i < at - 1 implies (#[trigger] entries.drop_first()[i]).0
            != key by {
            assert(entries.drop_first()[i] == entries[i + 1]);
        }
        lemma_update(entries.drop_first(), at - 1, key, value);
        assert(updated.drop_first() =~= entries.drop_first().update(at - 1, (key, value)));
        assert(entries[0].0 != key);
        assert(entries_map(updated) =~= entries_map(entries).insert(key, value@));
    }
}

proof fn lemma_push<K, V: View>(entries: Seq<(K, V)>, key: K, value: V)
    requires
        forall|i: int| 0 <= i < entries.len() ==> (#[trigger] entries[i]).0 != key,
    ensures
        entries_map(entries.push((key, value))) == entries_map(entries).insert(key, value@),
    decreases entries.len(),
{
    let pushed = entries.push((key, value));
    if entries.len() == 0 {
        assert(pushed.drop_first() =~= entries);
        assert(entries_map(pushed) =~= entries_map(entries).insert(key, value@));
    } else {
        assert forall|i: int| 0 <= i < entries.drop_first().len() implies (
        #[trigger] entries.drop_first()[i]).0 != key by {
            assert(entries.drop_first()[i] == entries[i + 1]);
        }
        lemma_push(entries.drop_first(), key, value);
        assert(pushed.drop_first() =~= entries.drop_first().push((key, value)));
        assert(entries[0].0 != key);
        assert(entries_map(pushed) =~= entries_map(entries).insert(key, value@));
    }
}

proof fn lemma_drop<K, V: View>(entries: Seq<(K, V)>, at: int, key: K)
    requires
        0 <= at < entries.len(),
        entries[at].0 == key,
    ensures
        entries_map(entries.remove(at)).remove(key) == entries_map(entries).remove(key),
    decreases entries.len(),
{
    let dropped = entries.remove(at);
    if at == 0 {
        assert(dropped =~= entries.drop_first());
        assert(entries_map(dropped).remove(key) =~= entries_map(entries).remove(key));
    } else {
        lemma_drop(entries.drop_first(), at - 1, key);
        assert(dropped.len() == entries.len() - 1);
        assert(dropped[0] == entries[0]);
        assert(dropped.drop_first() =~= entries.drop_first().remove(at - 1));
        let rest = entries_map(entries.drop_first());
        let rest_dropped = entries_map(dropped.drop_first());
        let (first, value) = (entries[0].0, entries[0].1@);
        if first == key {
            assert(rest.insert(first, value).remove(key) =~= rest.remove(key));
            assert(rest_dropped.insert(first, value).remove(key) =~= rest_dropped.remove(key));
        } else {
            assert(rest.insert(first, value).remove(key) =~= rest.remove(key).insert(first, value));
            assert(rest_dropped.insert(first, value).remove(key) =~= rest_dropped.remove(
                key,
            ).insert(first, value));
        }
        assert(entries_map(dropped).remove(key) =~= entries_map(entries).remove(key));
    }
}

/// A finite map from keys to values, modelled by the map from keys to the
/// values' views.
#[verifier::reject_recursive_types(K)]
pub struct Table<K, V> {
    pub entries: Vec<(K, V)>,
}

impl<K, V: View> View for Table<K, V> {
    type V = Map<K, V::V>;

    closed spec fn view(&self) -> Map<K, V::V> {
        entries_map(self.entries@)
    }
}

impl<K: Key, V: View> Table<K, V> {
    /// A table without entries.
    pub fn new() -> (table: Self)
        ensures
            table@ == Map::<K, V::V>::empty(),
    {
        Table { entries: Vec::new() }
    }

    fn position(&self, key: &K) -> (at: Option<usize>)
        ensures
            match at {
                Some(i) => i < self.entries@.len() && self.entries@[i as int].0 == *key && (forall|
                    j: int,
                |
                    0 <= j < i ==> (#[trigger] self.entries@[j]).0 != *key),
                None => forall|j: int|
                    0 <= j < self.entries@.len() ==> (#[trigger] self.entries@[j]).0 != *key,
            },
    {
        let mut i: usize = 0;
        while i < self.entries.len()
            invariant
                i <= self.entries@.len(),
                forall|j: int| 0 <= j < i ==> (#[trigger] self.entries@[j]).0 != *key,
            decreases self.entries@.len() - i,
        {
            if self.entries[i].0.same(key) {
                return Some(i);
            }
            i += 1;
        }
        None
    }

    /// Whether the key has a value.
    pub fn contains(&self, key: K) -> (present: bool)
        ensures
            present == self@.contains_key(key),
    {
        match self.position(&key) {
            Some(i) => {
                proof {
                    lemma_first(self.entries@, i as int, key);
                }
                true
            },
            None => {
                proof {
                    lemma_absent(self.entries@, key);
                }
                false
            },
        }
    }

    /// The value of the key, if it has one.
    pub fn get(&self, key: K) -> (found: Option<&V>)
        ensures
            match found {
                Some(value) => self@.contains_key(key) && self@[key] == value@,
                None => !self@.contains_key(key),
            },
    {
        match self.position(&key) {
            Some(i) => {
                proof {
                    lemma_first(self.entries@, i as int, key);
                }
                Some(&self.entries[i].1)
            },
            None => {
                proof {
                    lemma_absent(self.entries@, key);
                }
                None
            },
        }
    }

    /// Access to the value of the key, which must have one.
    pub fn at_mut(&mut self, key: K) -> (value: &mut V)
        requires
            old(self)@.contains_key(key),
        ensures
            old(self)@[key] == value@,
            final(self)@ == old(self)@.insert(key, final(value)@),
    {
        match self.position(&key) {
            Some(i) => {
                proof {
                    lemma_first(self.entries@, i as int, key);
                    assert forall|v: V|
                        entries_map(#[trigger] self.entries@.update(i as int, (key, v)))
                            == entries_map(self.entries@).insert(key, v@) by {
                        lemma_update(self.entries@, i as int, key, v);
                    }
                }
                &mut self.entries[i].1
            },
            None => {
                proof {
                    lemma_absent(self.entries@, key);
                }
                &mut self.entries[0].1
            },
        }
    }

    /// Gives the key a value, in place of the one it had.
    pub fn set(&mut self, key: K, value: V)
        ensures
            final(self)@ == old(self)@.insert(key, value@),
    {
        match self.position(&key) {
            Some(i) => {
                proof {
                    lemma_update(self.entries@, i as int, key, value);
                }
                self.entries[i] = (key, value);
            },
            None => {
                proof {
                    lemma_push(self.entries@, key, value);
                }
                self.entries.push((key, value));
            },
        }
    }

    /// Takes the key out of the table.
    pub fn remove(&mut self, key: K)
        ensures
            final(self)@ == old(self)@.remove(key),
    {
        let mut i: usize = 0;
        while i < self.entries.len()
            invariant
                i <= self.entries@.len(),
                forall|j: int| 0 <= j < i ==> (#[trigger] self.entries@[j]).0 != key,
                self@.remove(key) == old(self)@.remove(key),
            decreases self.entries@.len() - i,
        {
            if self.entries[i].0.same(&key) {
                proof {
                    lemma_drop(self.entries@, i as int, key);
                }
                self.entries.remove(i);
            } else {
                i += 1;
            }
        }
        proof {
            lemma_absent(self.entries@, key);
            assert(self@ =~= self@.remove(key));
        }
    }
}

} // verus!
