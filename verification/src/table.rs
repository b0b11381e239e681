//! A small table from text keys to values of any type, with at most one
//! entry for each key. It keeps the handles of connected peripherals and of
//! running subscriptions; the handle type is the caller's.

use vstd::prelude::*;
use crate::lookup::{first_where, lemma_first_where, lemma_first_where_is, lemma_first_where_none};
use crate::text::same_text;

verus! {

/// The entries of a table, as a model: keys with their values, in the order
/// in which the keys were first inserted.
pub type Entries<V> = Seq<(Seq<char>, V)>;

/// The condition of being the entry of a given key.
pub open spec fn has_key<V>(key: Seq<char>) -> spec_fn((Seq<char>, V)) -> bool {
    |entry: (Seq<char>, V)| entry.0 == key
}

/// The place of a key's entry.
pub open spec fn slot_of<V>(entries: Entries<V>, key: Seq<char>) -> Option<int> {
    first_where(entries, has_key::<V>(key))
}

/// The value under a key.
pub open spec fn value_of<V>(entries: Entries<V>, key: Seq<char>) -> Option<V> {
    match slot_of(entries, key) {
        Some(i) => Some(entries[i].1),
        None => None,
    }
}

/// Whether no two entries have the same key.
pub open spec fn distinct_keys<V>(entries: Entries<V>) -> bool {
    forall|i: int, j: int| 0 <= i < j < entries.len() ==> (#[trigger] entries[i]).0 != (#[trigger] entries[j]).0
}

/// Whether exactly one entry has the given key.
pub open spec fn holds_once<V>(entries: Entries<V>, key: Seq<char>) -> bool {
    exists|i: int|
        0 <= i < entries.len() && (#[trigger] entries[i]).0 == key && forall|j: int|
            0 <= j < entries.len() && j != i ==> (#[trigger] entries[j]).0 != key
}

/// The entries after an insert: the value replaces the one under the same
/// key, or the entry is added at the end.
pub open spec fn inserted<V>(entries: Entries<V>, key: Seq<char>, value: V) -> Entries<V> {
    match slot_of(entries, key) {
        Some(i) => entries.update(i, (key, value)),
        None => entries.push((key, value)),
    }
}

/// The entries after a removal: without the key's entry, or unchanged where
/// the key has none.
pub open spec fn removed<V>(entries: Entries<V>, key: Seq<char>) -> Entries<V> {
    match slot_of(entries, key) {
        Some(i) => entries.remove(i),
        None => entries,
    }
}

/// A table from text keys to values.
pub struct KeyedTable<V> {
    keys: Vec<String>,
    values: Vec<V>,
}

impl<V> View for KeyedTable<V> {
    type V = Entries<V>;

    closed spec fn view(&self) -> Entries<V> {
        Seq::new(self.keys@.len(), |i: int| (self.keys@[i]@, self.values@[i]))
    }
}

impl<V> KeyedTable<V> {
    /// The table's invariant: one entry for each key.
    pub closed spec fn wf(&self) -> bool {
        self.keys@.len() == self.values@.len() && distinct_keys(self@)
    }

    /// A table that meets its invariant holds each key once.
    pub proof fn lemma_keys_distinct(&self)
        requires
            self.wf(),
        ensures
            distinct_keys(self@),
    {
    }

    /// An empty table.
    pub fn new() -> (table: KeyedTable<V>)
        ensures
            table@ == Entries::<V>::empty(),
            table.wf(),
    {
        let table = KeyedTable { keys: Vec::new(), values: Vec::new() };
        table
    }

    /// The number of entries.
    pub fn len(&self) -> (n: usize)
        ensures
            n == self@.len(),
    {
        self.keys.len()
    }

    fn position(&self, key: &str) -> (at: Option<usize>)
        requires
            self.wf(),
        ensures
            match at {
                Some(i) => slot_of(self@, key@) == Some(i as int) && i < self.keys@.len() && i < self.values@.len(),
                None => slot_of(self@, key@) is None,
            },
    {
        let mut i: usize = 0;
        while i < self.keys.len()
            invariant
                i <= self.keys.len(),
                self.wf(),
                forall|j: int| 0 <= j < i ==> !has_key::<V>(key@)(#[trigger] self@[j]),
            decreases self.keys.len() - i,
        {
            if same_text(self.keys[i].as_str(), key) {
                proof {
                    lemma_first_where_is(self@, has_key::<V>(key@), i as int);
                }
                return Some(i);
            }
            i += 1;
        }
        proof {
            lemma_first_where_none(self@, has_key::<V>(key@));
        }
        None
    }

    /// Whether the key has an entry.
    pub fn contains_key(&self, key: &str) -> (found: bool)
        requires
            self.wf(),
        ensures
            found == (slot_of(self@, key@) is Some),
    {
        self.position(key).is_some()
    }

    /// The value under a key.
    pub fn get(&self, key: &str) -> (value: Option<&V>)
        requires
            self.wf(),
        ensures
            match value {
                Some(v) => value_of(self@, key@) == Some(*v),
                None => value_of(self@, key@) is None,
            },
    {
        match self.position(key) {
            Some(i) => Some(&self.values[i]),
            None => None,
        }
    }

    /// Puts a value under a key and hands back the value that was there.
    pub fn insert(&mut self, key: String, value: V) -> (previous: Option<V>)
        requires
            old(self).wf(),
        ensures
            final(self)@ == inserted(old(self)@, key@, value),
            previous == value_of(old(self)@, key@),
            value_of(final(self)@, key@) == Some(value),
            holds_once(final(self)@, key@),
            distinct_keys(final(self)@),
            final(self).wf(),
    {
        let ghost before = self@;
        proof {
            lemma_insert_keeps_distinct(before, key@, value);
            lemma_first_where(before, has_key::<V>(key@));
            lemma_inserted(before, key@, value, key@);
        }
        match self.position(key.as_str()) {
            Some(i) => {
                let ghost held = self.values@;
                assert(before[i as int].0 == key@);
                self.values.push(value);
                let previous = self.values.swap_remove(i);
                assert(self.values@ =~= held.update(i as int, value));
                assert(self@ =~= inserted(before, key@, value));
                Some(previous)
            },
            None => {
                self.keys.push(key);
                self.values.push(value);
                assert(self@ =~= inserted(before, key@, value));
                None
            },
        }
    }

    /// Takes the entry of a key out and hands back its value. A key without
    /// an entry leaves the table as it is.
    pub fn remove(&mut self, key: &str) -> (previous: Option<V>)
        requires
            old(self).wf(),
        ensures
            final(self)@ == removed(old(self)@, key@),
            previous == value_of(old(self)@, key@),
            slot_of(final(self)@, key@) is None,
            previous is None ==> final(self)@ == old(self)@,
            distinct_keys(final(self)@),
            final(self).wf(),
    {
        let ghost before = self@;
        proof {
            lemma_removed(before, key@);
        }
        match self.position(key) {
            Some(i) => {
                let _ = self.keys.remove(i);
                let previous = self.values.remove(i);
                assert(self@ =~= removed(before, key@));
                Some(previous)
            },
            None => None,
        }
    }
}

/// An insert keeps the keys distinct.
pub proof fn lemma_insert_keeps_distinct<V>(entries: Entries<V>, key: Seq<char>, value: V)
    requires
        distinct_keys(entries),
    ensures
        distinct_keys(inserted(entries, key, value)),
{
    lemma_first_where(entries, has_key::<V>(key));
}

/// After an insert the key has exactly one entry, which holds the inserted
/// value; every other key has the value it had.
pub proof fn lemma_inserted<V>(entries: Entries<V>, key: Seq<char>, value: V, other: Seq<char>)
    requires
        distinct_keys(entries),
    ensures
        holds_once(inserted(entries, key, value), key),
        value_of(inserted(entries, key, value), key) == Some(value),
        other != key ==> value_of(inserted(entries, key, value), other) == value_of(entries, other),
{
    let after = inserted(entries, key, value);
    lemma_first_where(entries, has_key::<V>(key));
    lemma_first_where(entries, has_key::<V>(other));
    let at = match slot_of(entries, key) {
        Some(i) => i,
        None => entries.len() as int,
    };
    lemma_first_where_is(after, has_key::<V>(key), at);
    if other != key {
        match slot_of(entries, other) {
            Some(r) => {
                lemma_first_where_is(after, has_key::<V>(other), r);
            },
            None => {
                lemma_first_where_none(after, has_key::<V>(other));
            },
        }
    }
}

/// After a removal the key has no entry, and removing it once more changes
/// nothing.
pub proof fn lemma_removed<V>(entries: Entries<V>, key: Seq<char>)
    requires
        distinct_keys(entries),
    ensures
        slot_of(removed(entries, key), key) is None,
        removed(removed(entries, key), key) == removed(entries, key),
        removed(entries, key).len() == if slot_of(entries, key) is Some {
            entries.len() - 1
        } else {
            entries.len() as int
        },
{
    let after = removed(entries, key);
    lemma_first_where(entries, has_key::<V>(key));
    match slot_of(entries, key) {
        Some(i) => {
            lemma_first_where_none(after, has_key::<V>(key));
        },
        None => {},
    }
}

} // verus!
