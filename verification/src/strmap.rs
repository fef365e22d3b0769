//! A map from strings to values, kept as a list of entries in the order in
//! which their keys first came.

use crate::text::str_eq;
use vstd::prelude::*;

verus! {

/// The map that a list of entries stands for: of two entries with one key,
/// the earlier counts.
pub open spec fn map_of<V>(entries: Seq<(String, V)>) -> Map<Seq<char>, V>
    decreases entries.len(),
{
    if entries.len() == 0 {
        Map::empty()
    } else {
        map_of(entries.drop_first()).insert(entries[0].0@, entries[0].1)
    }
}

/// A key that no entry has is not in the map.
pub proof fn lemma_absent<V>(entries: Seq<(String, V)>, key: Seq<char>)
    requires
        forall|j: int| 0 <= j < entries.len() ==> (#[trigger] entries[j]).0@ != key,
    ensures
        !map_of(entries).contains_key(key),
    decreases entries.len(),
{
    if entries.len() > 0 {
        let rest = entries.drop_first();
        assert forall|j: int| 0 <= j < rest.len() implies (#[trigger] rest[j]).0@ != key by {
            assert(rest[j] == entries[j + 1]);
        }
        lemma_absent(rest, key);
        assert(entries[0].0@ != key);
    }
}

/// The first entry with a key gives the key's value.
pub proof fn lemma_first_counts<V>(entries: Seq<(String, V)>, i: int)
    requires
        0 <= i < entries.len(),
        forall|j: int| 0 <= j < i ==> (#[trigger] entries[j]).0@ != entries[i].0@,
    ensures
        map_of(entries).contains_key(entries[i].0@),
        map_of(entries)[entries[i].0@] == entries[i].1,
    decreases i,
{
    if i > 0 {
        let rest = entries.drop_first();
        assert forall|j: int| 0 <= j < i - 1 implies (#[trigger] rest[j]).0@ != rest[i - 1].0@ by {
            assert(rest[j] == entries[j + 1]);
        }
        lemma_first_counts(rest, i - 1);
        assert(entries[0].0@ != entries[i].0@);
    }
}

/// Replacing the first entry of a key sets the key's value.
pub proof fn lemma_replace_first<V>(entries: Seq<(String, V)>, i: int, entry: (String, V))
    requires
        0 <= i < entries.len(),
        entries[i].0@ == entry.0@,
        forall|j: int| 0 <= j < i ==> (#[trigger] entries[j]).0@ != entry.0@,
    ensures
        map_of(entries.update(i, entry)) == map_of(entries).insert(entry.0@, entry.1),
    decreases i,
{
    let updated = entries.update(i, entry);
    if i == 0 {
        assert(updated.drop_first() == entries.drop_first());
        assert(map_of(updated) =~= map_of(entries).insert(entry.0@, entry.1));
    } else {
        let rest = entries.drop_first();
        assert forall|j: int| 0 <= j < i - 1 implies (#[trigger] rest[j]).0@ != entry.0@ by {
            assert(rest[j] == entries[j + 1]);
        }
        lemma_replace_first(rest, i - 1, entry);
        assert(updated.drop_first() == rest.update(i - 1, entry));
        assert(updated[0] == entries[0]);
        assert(entries[0].0@ != entry.0@);
        assert(map_of(updated) =~= map_of(entries).insert(entry.0@, entry.1));
    }
}

/// Appending an entry whose key no entry has sets the key's value.
pub proof fn lemma_append_new<V>(entries: Seq<(String, V)>, entry: (String, V))
    requires
        forall|j: int| 0 <= j < entries.len() ==> (#[trigger] entries[j]).0@ != entry.0@,
    ensures
        map_of(entries.push(entry)) == map_of(entries).insert(entry.0@, entry.1),
    decreases entries.len(),
{
    let pushed = entries.push(entry);
    if entries.len() == 0 {
        assert(pushed.drop_first() == Seq::<(String, V)>::empty());
        assert(map_of(pushed.drop_first()) == Map::<Seq<char>, V>::empty());
        assert(map_of(entries) == Map::<Seq<char>, V>::empty());
        assert(pushed[0] == entry);
        assert(map_of(pushed) =~= map_of(entries).insert(entry.0@, entry.1));
    } else {
        let rest = entries.drop_first();
        assert forall|j: int| 0 <= j < rest.len() implies (#[trigger] rest[j]).0@ != entry.0@ by {
            assert(rest[j] == entries[j + 1]);
        }
        lemma_append_new(rest, entry);
        assert(pushed.drop_first() == rest.push(entry));
        assert(pushed[0] == entries[0]);
        assert(entries[0].0@ != entry.0@);
        assert(map_of(pushed) =~= map_of(entries).insert(entry.0@, entry.1));
    }
}

/// A map from strings to values.
#[derive(Debug)]
pub struct StringMap<V> {
    entries: Vec<(String, V)>,
}

impl<V> View for StringMap<V> {
    type V = Map<Seq<char>, V>;

    closed spec fn view(&self) -> Map<Seq<char>, V> {
        map_of(self.entries@)
    }
}

impl<V> StringMap<V> {
    /// The entries of the map, in the order in which their keys first came.
    pub closed spec fn entries_view(&self) -> Seq<(String, V)> {
        self.entries@
    }

    /// The empty map.
    pub fn new() -> (map: Self)
        ensures
            map@ == Map::<Seq<char>, V>::empty(),
            map.entries_view().len() == 0,
    {
        StringMap { entries: Vec::new() }
    }

    /// The index of the first entry whose key is `key`, or the number of
    /// entries.
    fn position(&self, key: &str) -> (i: usize)
        ensures
            i <= self.entries@.len(),
            forall|j: int| 0 <= j < i ==> (#[trigger] self.entries@[j]).0@ != key@,
            i < self.entries@.len() ==> self.entries@[i as int].0@ == key@,
    {
        let mut i: usize = 0;
        while i < self.entries.len()
            invariant
                i <= self.entries.len(),
                forall|j: int| 0 <= j < i ==> (#[trigger] self.entries@[j]).0@ != key@,
            decreases self.entries.len() - i,
        {
            if str_eq(self.entries[i].0.as_str(), key) {
                return i;
            }
            i += 1;
        }
        i
    }

    /// The value of `key`, if it has one.
    pub fn get(&self, key: &str) -> (value: Option<&V>)
        ensures
            match value {
                Some(v) => self@.contains_key(key@) && self@[key@] == *v,
                None => !self@.contains_key(key@),
            },
    {
        let i: usize = self.position(key);
        if i < self.entries.len() {
            proof {
                lemma_first_counts(self.entries@, i as int);
            }
            Some(&self.entries[i].1)
        } else {
            proof {
                lemma_absent(self.entries@, key@);
            }
            None
        }
    }

    /// Whether `key` has a value.
    pub fn contains_key(&self, key: &str) -> (present: bool)
        ensures
            present == self@.contains_key(key@),
    {
        self.get(key).is_some()
    }

    /// Sets the value of `key`, replacing what it had.
    pub fn insert(&mut self, key: String, value: V)
        ensures
            final(self)@ == old(self)@.insert(key@, value),
    {
        let i: usize = self.position(key.as_str());
        if i < self.entries.len() {
            proof {
                lemma_replace_first(self.entries@, i as int, (key, value));
            }
            self.entries[i] = (key, value);
        } else {
            proof {
                lemma_append_new(self.entries@, (key, value));
            }
            self.entries.push((key, value));
        }
    }

    /// Sets the value of `key` only where it has none.
    pub fn insert_if_absent(&mut self, key: String, value: V)
        ensures
            final(self)@ == if old(self)@.contains_key(key@) {
                old(self)@
            } else {
                old(self)@.insert(key@, value)
            },
    {
        let i: usize = self.position(key.as_str());
        if i < self.entries.len() {
            proof {
                lemma_first_counts(self.entries@, i as int);
            }
        } else {
            proof {
                lemma_absent(self.entries@, key@);
                lemma_append_new(self.entries@, (key, value));
            }
            self.entries.push((key, value));
        }
    }

    /// The number of entries.
    pub fn len(&self) -> (n: usize)
        ensures
            n == self.entries_view().len(),
    {
        self.entries.len()
    }

    /// The entry at `i`.
    pub fn entry(&self, i: usize) -> (entry: &(String, V))
        requires
            i < self.entries_view().len(),
        ensures
            *entry == self.entries_view()[i as int],
    {
        &self.entries[i]
    }
}

} // verus!
