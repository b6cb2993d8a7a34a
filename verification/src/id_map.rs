//! The identifier tables of the window registry.
//!
//! The tables are `bevy_utils::HashMap`s, that is `hashbrown` maps with the
//! engine's hasher. Verus cannot look inside that type, so this module is the
//! trusted boundary around it: what a table holds has a name, and each method
//! states over that name what the map's own method does. Nothing here is
//! proved; everything else in the crate is proved from it.

use vstd::prelude::*;

verus! {

/// A hash map from one 64-bit identifier to another, stored in a
/// `bevy_utils::HashMap<u64, u64>`.
///
/// Trusted: the field is hidden from Verus. `id_map_entries` stands for the
/// key-value pairs that the map holds.
#[verifier::external_body]
#[derive(Debug)]
pub struct IdMap {
    inner: bevy_utils::HashMap<u64, u64>,
}

/// The key-value pairs that an `IdMap` holds.
pub uninterp spec fn id_map_entries(m: IdMap) -> Map<u64, u64>;

impl View for IdMap {
    type V = Map<u64, u64>;

    open spec fn view(&self) -> Map<u64, u64> {
        id_map_entries(*self)
    }
}

impl IdMap {
    /// Trusted: `hashbrown::HashMap::default` makes a map that holds no entry.
    #[verifier::external_body]
    pub(crate) fn new() -> (m: IdMap)
        ensures
            id_map_entries(m) == (Map::<u64, u64>::empty()),
    {
        IdMap { inner: bevy_utils::HashMap::default() }
    }

    /// Trusted: `hashbrown::HashMap::insert` binds `key` to `value`, leaves
    /// every other entry alone, and returns the value that `key` had before, if
    /// any.
    #[verifier::external_body]
    pub(crate) fn insert(&mut self, key: u64, value: u64) -> (previous: Option<u64>)
        ensures
            id_map_entries(*final(self)) == id_map_entries(*old(self)).insert(key, value),
            previous == (if id_map_entries(*old(self)).contains_key(key) {
                Some(id_map_entries(*old(self))[key])
            } else {
                None
            }),
    {
        self.inner.insert(key, value)
    }

    /// Trusted: `hashbrown::HashMap::get` finds the value bound to `key`, if
    /// there is one, and changes nothing.
    #[verifier::external_body]
    pub(crate) fn get(&self, key: u64) -> (found: Option<u64>)
        ensures
            found == (if id_map_entries(*self).contains_key(key) {
                Some(id_map_entries(*self)[key])
            } else {
                None
            }),
    {
        self.inner.get(&key).copied()
    }

    /// Trusted: `hashbrown::HashMap::keys` visits each key of the map once, in
    /// an order that is not stated.
    #[verifier::external_body]
    pub(crate) fn keys(&self) -> (keys: Vec<u64>)
        ensures
            keys@.no_duplicates(),
            keys@.to_set() == id_map_entries(*self).dom(),
    {
        self.inner.keys().copied().collect()
    }

    /// Trusted: `hashbrown::HashMap::remove` takes the entry of `key` out of
    /// the map, leaves every other entry alone, and returns the value that was
    /// bound, if any.
    #[verifier::external_body]
    pub(crate) fn remove(&mut self, key: u64) -> (removed: Option<u64>)
        ensures
            id_map_entries(*final(self)) == id_map_entries(*old(self)).remove(key),
            removed == (if id_map_entries(*old(self)).contains_key(key) {
                Some(id_map_entries(*old(self))[key])
            } else {
                None
            }),
    {
        self.inner.remove(&key)
    }
}

} // verus!
