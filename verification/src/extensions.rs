//! Per-request storage for what middleware wants to pass along.

use std::collections::HashMap;
use vstd::prelude::*;

verus! {

broadcast use vstd::std_specs::hash::group_hash_axioms;

/// A value that middleware attaches to a request.
#[derive(Clone, Debug, PartialEq, Eq)]
pub enum Extension {
    Flag(bool),
    Number(u64),
    Text(String),
    Bytes(Vec<u8>),
}

/// What `store` holds under `key`, if anything.
pub open spec fn lookup(store: Map<u64, Extension>, key: u64) -> Option<Extension> {
    if store.contains_key(key) {
        Some(store[key])
    } else {
        None
    }
}

/// A store that holds at most one value under each key. A key stands for
/// one capability: the middleware that owns it picks the number.
#[derive(Debug)]
pub struct ExtensionStore {
    entries: HashMap<u64, Extension>,
}

impl View for ExtensionStore {
    type V = Map<u64, Extension>;

    closed spec fn view(&self) -> Map<u64, Extension> {
        self.entries@
    }
}

impl ExtensionStore {
    /// A store that holds nothing.
    pub fn new() -> (store: ExtensionStore)
        ensures
            store@ == Map::<u64, Extension>::empty(),
    {
        ExtensionStore { entries: HashMap::new() }
    }

    /// Stores `value` under `key`, in place of whatever was there, and
    /// returns what was there.
    pub fn set(&mut self, key: u64, value: Extension) -> (previous: Option<Extension>)
        ensures
            final(self)@ == old(self)@.insert(key, value),
            previous == lookup(old(self)@, key),
    {
        self.entries.insert(key, value)
    }

    /// The value stored under `key`, if there is one.
    pub fn get(&self, key: u64) -> (found: Option<&Extension>)
        ensures
            match found {
                Some(value) => lookup(self@, key) == Some(*value),
                None => lookup(self@, key) is None,
            },
    {
        self.entries.get(&key)
    }

    /// Takes out the value stored under `key` and returns it, if there is
    /// one. The other keys keep their values.
    pub fn remove(&mut self, key: u64) -> (removed: Option<Extension>)
        ensures
            final(self)@ == old(self)@.remove(key),
            removed == lookup(old(self)@, key),
    {
        self.entries.remove(&key)
    }

    /// Whether a value is stored under `key`.
    pub fn contains(&self, key: u64) -> (present: bool)
        ensures
            present == self@.contains_key(key),
    {
        self.entries.contains_key(&key)
    }

    /// The number of keys that hold a value.
    pub fn len(&self) -> (n: usize)
        ensures
            n == self@.len(),
    {
        self.entries.len()
    }
}

/// After a value is set under a key, that key holds exactly this value,
/// whatever it held before, and every other key holds what it held.
pub proof fn set_then_get(store: Map<u64, Extension>, key: u64, value: Extension, other: u64)
    ensures
        lookup(store.insert(key, value), key) == Some(value),
        other != key ==> lookup(store.insert(key, value), other) == lookup(store, other),
{
}

/// Of two values set under one key in turn, the later one is found.
pub proof fn last_set_wins(store: Map<u64, Extension>, key: u64, first: Extension, second: Extension)
    ensures
        lookup(store.insert(key, first).insert(key, second), key) == Some(second),
        store.insert(key, first).insert(key, second) == store.insert(key, second),
{
    assert(store.insert(key, first).insert(key, second) =~= store.insert(key, second));
}

/// After a key is removed it holds nothing, and every other key holds
/// what it held.
pub proof fn remove_then_get(store: Map<u64, Extension>, key: u64, other: u64)
    ensures
        lookup(store.remove(key), key) is None,
        other != key ==> lookup(store.remove(key), other) == lookup(store, other),
{
}

} // verus!
