//! The raw value model: loosely typed values and the ordered map that holds them.
use vstd::prelude::*;

verus! {

/// One raw configuration value.
#[derive(Debug)]
pub enum RawConfigValue {
    Null,
    Bool(bool),
    Number(i32),
    String(String),
    Array(Vec<RawConfigValue>),
    Object(RawConfigMap),
}

/// An ordered mapping from string keys to raw values. Keys are unique and
/// keep the order in which they were first inserted. The entries are held
/// in an `indexmap::IndexMap`, which the verifier does not look into: what
/// the map holds is known through [`map_entries`] alone.
#[verifier::external_body]
#[derive(Debug)]
pub struct RawConfigMap {
    entries: indexmap::IndexMap<String, RawConfigValue>,
}

/// What a map holds: its entries, in insertion order.
pub uninterp spec fn map_entries(map: RawConfigMap) -> Seq<(String, RawConfigValue)>;

/// Whether two strings hold the same text.
pub fn same_text(a: &str, b: &str) -> (same: bool)
    ensures
        same == (a@ == b@),
{
    a.to_owned() == b.to_owned()
}

/// The value stored under `key`: that of the first entry with this key.
pub open spec fn lookup(entries: Seq<(String, RawConfigValue)>, key: Seq<char>) -> Option<
    RawConfigValue,
>
    decreases entries.len(),
{
    if entries.len() == 0 {
        None
    } else {
        match lookup(entries.drop_last(), key) {
            Some(v) => Some(v),
            None => if entries.last().0@ == key {
                Some(entries.last().1)
            } else {
                None
            },
        }
    }
}

/// The entries whose key is not in `keys`, in the order they had.
pub open spec fn without_keys(entries: Seq<(String, RawConfigValue)>, keys: Set<Seq<char>>) -> Seq<
    (String, RawConfigValue),
>
    decreases entries.len(),
{
    if entries.len() == 0 {
        entries
    } else if keys.contains(entries.last().0@) {
        without_keys(entries.drop_last(), keys)
    } else {
        without_keys(entries.drop_last(), keys).push(entries.last())
    }
}

/// No two entries share a key.
pub open spec fn keys_unique(entries: Seq<(String, RawConfigValue)>) -> bool {
    forall|i: int, j: int|
        0 <= i < j < entries.len() ==> (#[trigger] entries[i]).0@ != (#[trigger] entries[j]).0@
}

/// Removing keys that no entry has changes nothing.
pub proof fn lemma_without_absent(entries: Seq<(String, RawConfigValue)>, keys: Set<Seq<char>>)
    requires
        forall|j: int| 0 <= j < entries.len() ==> !keys.contains((#[trigger] entries[j]).0@),
    ensures
        without_keys(entries, keys) == entries,
    decreases entries.len(),
{
    if entries.len() > 0 {
        lemma_without_absent(entries.drop_last(), keys);
        assert(entries.drop_last().push(entries.last()) =~= entries);
    }
}

/// Where exactly one entry has a key among `keys`, removing the keys
/// removes that entry.
pub proof fn lemma_without_single(
    entries: Seq<(String, RawConfigValue)>,
    keys: Set<Seq<char>>,
    i: int,
)
    requires
        0 <= i < entries.len(),
        keys.contains(entries[i].0@),
        forall|j: int|
            0 <= j < entries.len() && j != i ==> !keys.contains((#[trigger] entries[j]).0@),
    ensures
        without_keys(entries, keys) == entries.remove(i),
    decreases entries.len(),
{
    let front = entries.drop_last();
    if i == entries.len() - 1 {
        lemma_without_absent(front, keys);
        assert(entries.remove(i) =~= front);
    } else {
        lemma_without_single(front, keys, i);
        assert(front.remove(i).push(entries.last()) =~= entries.remove(i));
    }
}

/// A key that no entry has is not found.
pub proof fn lemma_lookup_absent(entries: Seq<(String, RawConfigValue)>, key: Seq<char>)
    requires
        forall|j: int| 0 <= j < entries.len() ==> (#[trigger] entries[j]).0@ != key,
    ensures
        lookup(entries, key) is None,
    decreases entries.len(),
{
    if entries.len() > 0 {
        lemma_lookup_absent(entries.drop_last(), key);
    }
}

/// A key is found at the first entry that has it.
pub proof fn lemma_lookup_first(entries: Seq<(String, RawConfigValue)>, key: Seq<char>, i: int)
    requires
        0 <= i < entries.len(),
        entries[i].0@ == key,
        forall|j: int| 0 <= j < i ==> (#[trigger] entries[j]).0@ != key,
    ensures
        lookup(entries, key) == Some(entries[i].1),
    decreases entries.len(),
{
    let front = entries.drop_last();
    if i == entries.len() - 1 {
        lemma_lookup_absent(front, key);
    } else {
        lemma_lookup_first(front, key, i);
    }
}

/// None of the removed keys is left.
pub proof fn lemma_removed_keys_are_gone(
    entries: Seq<(String, RawConfigValue)>,
    keys: Set<Seq<char>>,
)
    ensures
        forall|i: int|
            0 <= i < without_keys(entries, keys).len() ==> !keys.contains(
                (#[trigger] without_keys(entries, keys)[i]).0@,
            ),
    decreases entries.len(),
{
    if entries.len() > 0 {
        let kept = without_keys(entries.drop_last(), keys);
        lemma_removed_keys_are_gone(entries.drop_last(), keys);
        assert forall|i: int| 0 <= i < without_keys(entries, keys).len() implies !keys.contains(
            (#[trigger] without_keys(entries, keys)[i]).0@,
        ) by {
            if !keys.contains(entries.last().0@) {
                if i < kept.len() {
                    assert(without_keys(entries, keys)[i] == kept[i]);
                } else {
                    assert(without_keys(entries, keys)[i] == entries.last());
                }
            }
        }
    }
}

/// Removing nothing leaves the entries as they are.
pub proof fn lemma_without_nothing(entries: Seq<(String, RawConfigValue)>)
    ensures
        without_keys(entries, Set::empty()) == entries,
{
    lemma_without_absent(entries, Set::empty());
}

/// A key that was not removed is found as before.
pub proof fn lemma_lookup_survives(
    entries: Seq<(String, RawConfigValue)>,
    removed: Set<Seq<char>>,
    key: Seq<char>,
)
    requires
        !removed.contains(key),
    ensures
        lookup(without_keys(entries, removed), key) == lookup(entries, key),
    decreases entries.len(),
{
    if entries.len() > 0 {
        let front = entries.drop_last();
        lemma_lookup_survives(front, removed, key);
        if !removed.contains(entries.last().0@) {
            let kept = without_keys(front, removed);
            assert(kept.push(entries.last()).drop_last() =~= kept);
        }
    }
}

/// Removing keys one after the other removes them all.
pub proof fn lemma_without_again(
    entries: Seq<(String, RawConfigValue)>,
    removed: Set<Seq<char>>,
    key: Seq<char>,
)
    ensures
        without_keys(without_keys(entries, removed), set![key]) == without_keys(
            entries,
            removed.insert(key),
        ),
    decreases entries.len(),
{
    if entries.len() > 0 {
        let front = entries.drop_last();
        lemma_without_again(front, removed, key);
        if !removed.contains(entries.last().0@) {
            let kept = without_keys(front, removed);
            assert(kept.push(entries.last()).drop_last() =~= kept);
        }
    }
}

/// What reading the next key rests on: a key that was not removed yet is
/// found as in the full entries, and removing it as well leaves the full
/// entries without the keys removed so far and without this one.
pub proof fn lemma_next_key(
    entries: Seq<(String, RawConfigValue)>,
    removed: Set<Seq<char>>,
    key: Seq<char>,
)
    requires
        !removed.contains(key),
    ensures
        lookup(without_keys(entries, removed), key) == lookup(entries, key),
        without_keys(without_keys(entries, removed), set![key]) == without_keys(
            entries,
            removed.insert(key),
        ),
{
    lemma_lookup_survives(entries, removed, key);
    lemma_without_again(entries, removed, key);
}

impl RawConfigMap {
    /// The entries in insertion order.
    pub open spec fn view(&self) -> Seq<(String, RawConfigValue)> {
        map_entries(*self)
    }

    /// `IndexMap::new`: a map that holds nothing.
    #[verifier::external_body]
    fn no_entries() -> (map: RawConfigMap)
        ensures
            map_entries(map) == Seq::<(String, RawConfigValue)>::empty(),
    {
        RawConfigMap { entries: indexmap::IndexMap::new() }
    }

    /// `IndexMap::len`: the number of entries.
    #[verifier::external_body]
    fn count_entries(&self) -> (n: usize)
        ensures
            n == map_entries(*self).len(),
    {
        self.entries.len()
    }

    /// `IndexMap::get_index`: the key of the entry at position `i`, and
    /// nothing where the map has no such position.
    #[verifier::external_body]
    fn key_of_entry(&self, i: usize) -> (key: Option<&String>)
        ensures
            i < map_entries(*self).len() ==> key == Some(&map_entries(*self)[i as int].0),
            i >= map_entries(*self).len() ==> key is None,
    {
        self.entries.get_index(i).map(|entry| entry.0)
    }

    /// `IndexMap::insert`: a key that the map holds keeps its place and its
    /// own string and gets the new value; a key that it does not hold goes
    /// to the end. The map never holds a key twice.
    #[verifier::external_body]
    fn insert_entry(&mut self, key: String, value: RawConfigValue)
        ensures
            keys_unique(map_entries(*old(self))),
            keys_unique(map_entries(*final(self))),
            forall|i: int|
                0 <= i < map_entries(*old(self)).len() && (#[trigger] map_entries(
                    *old(self),
                )[i]).0@ == key@ ==> map_entries(*final(self)) == map_entries(*old(self)).update(
                    i,
                    (map_entries(*old(self))[i].0, value),
                ),
            (forall|i: int|
                0 <= i < map_entries(*old(self)).len() ==> (#[trigger] map_entries(
                    *old(self),
                )[i]).0@ != key@) ==> map_entries(*final(self)) == map_entries(*old(self)).push(
                (key, value),
            ),
    {
        self.entries.insert(key, value);
    }

    /// `IndexMap::shift_remove`: the entry with the key leaves and its
    /// value is handed back, the entries behind it move up and keep their
    /// order; without such an entry nothing changes. The map never holds a
    /// key twice.
    #[verifier::external_body]
    fn remove_entry(&mut self, key: &str) -> (value: Option<RawConfigValue>)
        ensures
            keys_unique(map_entries(*old(self))),
            forall|i: int|
                0 <= i < map_entries(*old(self)).len() && (#[trigger] map_entries(
                    *old(self),
                )[i]).0@ == key@ ==> value == Some(map_entries(*old(self))[i].1) && map_entries(
                    *final(self),
                ) == map_entries(*old(self)).remove(i),
            (forall|i: int|
                0 <= i < map_entries(*old(self)).len() ==> (#[trigger] map_entries(
                    *old(self),
                )[i]).0@ != key@) ==> value is None && map_entries(*final(self)) == map_entries(
                *old(self),
            ),
    {
        self.entries.shift_remove(key)
    }

    /// An empty map.
    pub fn new() -> (map: RawConfigMap)
        ensures
            map@ == Seq::<(String, RawConfigValue)>::empty(),
    {
        RawConfigMap::no_entries()
    }

    /// Number of entries.
    pub fn len(&self) -> (n: usize)
        ensures
            n == self@.len(),
    {
        self.count_entries()
    }

    /// The key of the entry at position `i`, if there is such an entry.
    pub fn key_at(&self, i: usize) -> (key: Option<&String>)
        ensures
            i < self@.len() ==> key == Some(&self@[i as int].0),
            i >= self@.len() ==> key is None,
    {
        self.key_of_entry(i)
    }

    /// Stores `value` under `key`. A key that is already present keeps its
    /// place and gets the new value; a new key goes to the end.
    pub fn insert(&mut self, key: String, value: RawConfigValue)
        ensures
            keys_unique(final(self)@),
            lookup(old(self)@, key@) is None ==> final(self)@ == old(self)@.push((key, value)),
            lookup(old(self)@, key@) is Some ==> exists|i: int|
                0 <= i < old(self)@.len() && (#[trigger] old(self)@[i]).0@ == key@ && final(self)@
                    == old(self)@.update(i, (old(self)@[i].0, value)),
            lookup(final(self)@, key@) == Some(value),
    {
        let ghost before = self@;
        self.insert_entry(key, value);
        proof {
            if exists|i: int| 0 <= i < before.len() && (#[trigger] before[i]).0@ == key@ {
                let i = choose|i: int| 0 <= i < before.len() && (#[trigger] before[i]).0@ == key@;
                lemma_lookup_first(before, key@, i);
                lemma_lookup_first(self@, key@, i);
            } else {
                lemma_lookup_absent(before, key@);
                lemma_lookup_first(self@, key@, before.len() as int);
            }
        }
    }

    /// Removes `key` and hands back its value, if the key was present.
    pub fn take(&mut self, key: &str) -> (value: Option<RawConfigValue>)
        ensures
            value == lookup(old(self)@, key@),
            final(self)@ == without_keys(old(self)@, set![key@]),
    {
        let ghost before = self@;
        let value = self.remove_entry(key);
        proof {
            if exists|i: int| 0 <= i < before.len() && (#[trigger] before[i]).0@ == key@ {
                let i = choose|i: int| 0 <= i < before.len() && (#[trigger] before[i]).0@ == key@;
                lemma_lookup_first(before, key@, i);
                lemma_without_single(before, set![key@], i);
            } else {
                lemma_lookup_absent(before, key@);
                lemma_without_absent(before, set![key@]);
            }
        }
        value
    }
}

} // verus!
