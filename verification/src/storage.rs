//! The key/value storage that the allow-list is kept in.
//!
//! The store is handed to every operation that needs it; there is no global
//! state. A host loads it from, and writes it back to, whatever durable
//! medium it has.

use crate::address::Address;
use vstd::prelude::*;

verus! {

/// A key of the store.
#[derive(Debug, PartialEq, Eq)]
pub enum Key {
    /// The flag that switches enforcement of the allow-list on and off.
    /// There is one per store.
    WhitelistEnabled,
    /// The marker of one address on the allow-list.
    WhitelistMarker(Address),
}

/// What a `Key` stands for: the key with its address taken by value.
pub enum Slot {
    WhitelistEnabled,
    WhitelistMarker(Seq<u8>),
}

impl View for Key {
    type V = Slot;

    open spec fn view(&self) -> Slot {
        match self {
            Key::WhitelistEnabled => Slot::WhitelistEnabled,
            Key::WhitelistMarker(address) => Slot::WhitelistMarker(address@),
        }
    }
}

impl Clone for Key {
    fn clone(&self) -> (copy: Self)
        ensures
            copy@ == self@,
    {
        match self {
            Key::WhitelistEnabled => Key::WhitelistEnabled,
            Key::WhitelistMarker(address) => Key::WhitelistMarker(address.clone()),
        }
    }
}

impl Key {
    /// Whether `self` and `other` are the same key.
    pub fn same_as(&self, other: &Key) -> (same: bool)
        ensures
            same == (self@ == other@),
    {
        match (self, other) {
            (Key::WhitelistEnabled, Key::WhitelistEnabled) => true,
            (Key::WhitelistMarker(a), Key::WhitelistMarker(b)) => a.same_as(b),
            _ => false,
        }
    }
}

/// A store of boolean values under keys, each key held at most once.
#[derive(Debug)]
pub struct Storage {
    entries: Vec<(Key, bool)>,
}

/// Entry `i` of `entries` is the one under `slot`.
spec fn holds_at(entries: Seq<(Key, bool)>, slot: Slot, i: int) -> bool {
    0 <= i < entries.len() && entries[i].0@ == slot
}

/// No two of `entries` are under the same key.
spec fn keys_distinct(entries: Seq<(Key, bool)>) -> bool {
    forall|i: int, j: int|
        0 <= i < entries.len() && 0 <= j < entries.len() && i != j
            ==> entries[i].0@ != entries[j].0@
}

/// The map that `entries` spell out.
spec fn entries_map(entries: Seq<(Key, bool)>) -> Map<Slot, bool> {
    Map::new(
        |slot: Slot| exists|i: int| holds_at(entries, slot, i),
        |slot: Slot| entries[choose|i: int| holds_at(entries, slot, i)].1,
    )
}

/// With distinct keys, entry `i` is what the map holds under its key.
proof fn lemma_entry_in_map(entries: Seq<(Key, bool)>, i: int)
    requires
        keys_distinct(entries),
        0 <= i < entries.len(),
    ensures
        entries_map(entries).contains_key(entries[i].0@),
        entries_map(entries)[entries[i].0@] == entries[i].1,
{
    assert(holds_at(entries, entries[i].0@, i));
}

/// Writing a value over the entry of a key that is held changes the map at
/// that key and nowhere else.
proof fn lemma_overwrite(entries: Seq<(Key, bool)>, i: int, key: Key, value: bool)
    requires
        keys_distinct(entries),
        holds_at(entries, key@, i),
    ensures
        keys_distinct(entries.update(i, (key, value))),
        entries_map(entries.update(i, (key, value))) == entries_map(entries).insert(key@, value),
{
    let after = entries.update(i, (key, value));
    let wanted = entries_map(entries).insert(key@, value);
    assert(keys_distinct(after));
    assert forall|slot: Slot|
        entries_map(after).contains_key(slot) == #[trigger] wanted.contains_key(slot) by {
        if entries_map(after).contains_key(slot) {
            let a = choose|a: int| holds_at(after, slot, a);
            assert(holds_at(entries, slot, a));
        }
        if slot == key@ {
            assert(holds_at(after, slot, i));
        } else if wanted.contains_key(slot) {
            let a = choose|a: int| holds_at(entries, slot, a);
            assert(holds_at(after, slot, a));
        }
    }
    assert forall|slot: Slot| #[trigger]
        entries_map(after).contains_key(slot) implies entries_map(after)[slot]
        == wanted[slot] by {
        let a = choose|a: int| holds_at(after, slot, a);
        lemma_entry_in_map(after, a);
        if a != i {
            lemma_entry_in_map(entries, a);
        }
    }
}

/// Appending an entry under a key that is not held adds that key to the map
/// and changes nothing else.
proof fn lemma_append(entries: Seq<(Key, bool)>, key: Key, value: bool)
    requires
        keys_distinct(entries),
        forall|i: int| !holds_at(entries, key@, i),
    ensures
        keys_distinct(entries.push((key, value))),
        entries_map(entries.push((key, value))) == entries_map(entries).insert(key@, value),
{
    let after = entries.push((key, value));
    let wanted = entries_map(entries).insert(key@, value);
    let n = entries.len() as int;
    assert forall|a: int, b: int|
        0 <= a < after.len() && 0 <= b < after.len() && a != b implies after[a].0@
        != after[b].0@ by {
        assert(!holds_at(entries, key@, a));
        assert(!holds_at(entries, key@, b));
    }
    assert forall|slot: Slot|
        entries_map(after).contains_key(slot) == #[trigger] wanted.contains_key(slot) by {
        if entries_map(after).contains_key(slot) {
            let a = choose|a: int| holds_at(after, slot, a);
            if a < n {
                assert(holds_at(entries, slot, a));
            }
        }
        if slot == key@ {
            assert(holds_at(after, slot, n));
        } else if wanted.contains_key(slot) {
            let a = choose|a: int| holds_at(entries, slot, a);
            assert(holds_at(after, slot, a));
        }
    }
    assert forall|slot: Slot| #[trigger]
        entries_map(after).contains_key(slot) implies entries_map(after)[slot]
        == wanted[slot] by {
        let a = choose|a: int| holds_at(after, slot, a);
        lemma_entry_in_map(after, a);
        if a < n {
            lemma_entry_in_map(entries, a);
        }
    }
}

/// Dropping entry `i` takes its key out of the map and changes nothing else.
proof fn lemma_drop(entries: Seq<(Key, bool)>, i: int)
    requires
        keys_distinct(entries),
        0 <= i < entries.len(),
    ensures
        keys_distinct(entries.remove(i)),
        entries_map(entries.remove(i)) == entries_map(entries).remove(entries[i].0@),
{
    let after = entries.remove(i);
    let wanted = entries_map(entries).remove(entries[i].0@);
    // Entry `a` of `after` was entry `a` or `a + 1` of `entries`.
    let was = |a: int| if a < i { a } else { a + 1 };
    assert(keys_distinct(after)) by {
        assert forall|a: int, b: int|
            0 <= a < after.len() && 0 <= b < after.len() && a != b implies after[a].0@
            != after[b].0@ by {
            assert(after[a] == entries[was(a)] && after[b] == entries[was(b)]);
        }
    }
    assert forall|slot: Slot|
        entries_map(after).contains_key(slot) == #[trigger] wanted.contains_key(slot) by {
        if entries_map(after).contains_key(slot) {
            let a = choose|a: int| holds_at(after, slot, a);
            assert(holds_at(entries, slot, was(a)));
        }
        if wanted.contains_key(slot) {
            let b = choose|b: int| holds_at(entries, slot, b);
            assert(holds_at(after, slot, if b < i { b } else { b - 1 }));
        }
    }
    assert forall|slot: Slot| #[trigger]
        entries_map(after).contains_key(slot) implies entries_map(after)[slot]
        == wanted[slot] by {
        let a = choose|a: int| holds_at(after, slot, a);
        lemma_entry_in_map(after, a);
        lemma_entry_in_map(entries, was(a));
    }
}

impl View for Storage {
    type V = Map<Slot, bool>;

    closed spec fn view(&self) -> Map<Slot, bool> {
        entries_map(self.entries@)
    }
}

impl Storage {
    #[verifier::type_invariant]
    spec fn well_formed(self) -> bool {
        keys_distinct(self.entries@)
    }

    /// A store that holds nothing.
    pub fn new() -> (store: Self)
        ensures
            store@ == Map::<Slot, bool>::empty(),
    {
        Storage { entries: Vec::new() }
    }

    /// Where `key` is held, if it is.
    fn position(&self, key: &Key) -> (found: Option<usize>)
        ensures
            match found {
                Some(i) => holds_at(self.entries@, key@, i as int),
                None => forall|i: int| !holds_at(self.entries@, key@, i),
            },
    {
        let mut i: usize = 0;
        while i < self.entries.len()
            invariant
                i <= self.entries@.len(),
                forall|j: int| 0 <= j < i ==> self.entries@[j].0@ != key@,
            decreases self.entries@.len() - i,
        {
            if self.entries[i].0.same_as(key) {
                return Some(i);
            }
            i += 1;
        }
        None
    }

    /// The value under `key`, or `None` where the store holds none.
    pub fn get(&self, key: &Key) -> (value: Option<bool>)
        ensures
            value == (if self@.contains_key(key@) {
                Some(self@[key@])
            } else {
                None
            }),
    {
        proof {
            use_type_invariant(self);
        }
        match self.position(key) {
            Some(i) => {
                proof {
                    lemma_entry_in_map(self.entries@, i as int);
                }
                Some(self.entries[i].1)
            },
            None => None,
        }
    }

    /// Puts `value` under `key`, in place of what was there.
    pub fn set(&mut self, key: &Key, value: bool)
        ensures
            final(self)@ == old(self)@.insert(key@, value),
    {
        proof {
            use_type_invariant(&*self);
        }
        let found = self.position(key);
        let entry = (key.clone(), value);
        // The entries are taken out for the change and put back after it,
        // so that the store is well formed whatever happens in between.
        let mut entries: Vec<(Key, bool)> = Vec::new();
        core::mem::swap(&mut self.entries, &mut entries);
        match found {
            Some(i) => {
                proof {
                    lemma_overwrite(entries@, i as int, entry.0, value);
                }
                entries.set(i, entry);
            },
            None => {
                proof {
                    lemma_append(entries@, entry.0, value);
                }
                entries.push(entry);
            },
        }
        self.entries = entries;
    }

    /// Takes away what is under `key`, if anything is.
    pub fn remove(&mut self, key: &Key)
        ensures
            final(self)@ == old(self)@.remove(key@),
    {
        proof {
            use_type_invariant(&*self);
        }
        let found = self.position(key);
        let mut entries: Vec<(Key, bool)> = Vec::new();
        core::mem::swap(&mut self.entries, &mut entries);
        match found {
            Some(i) => {
                proof {
                    lemma_drop(entries@, i as int);
                }
                entries.remove(i);
            },
            None => {
            },
        }
        self.entries = entries;
    }
}

} // verus!
