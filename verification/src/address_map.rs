//! A map keyed by identity.
//!
//! An [`Address`] is wider than any machine integer, so the map is kept in
//! two levels: the low 128 bits pick a shard, the high 32 bits pick the
//! entry in it. A lookup and an update cost two hash-map operations.

use std::collections::HashMap;
use vstd::prelude::*;
use crate::primitives::Address;

verus! {

broadcast use vstd::std_specs::hash::group_hash_axioms;

pub struct AddressMap<V> {
    shards: HashMap<u128, HashMap<u32, V>>,
}

impl<V> View for AddressMap<V> {
    type V = Map<Address, V>;

    closed spec fn view(&self) -> Map<Address, V> {
        Map::new(
            |a: Address| self.shards@.contains_key(a.lo) && self.shards@[a.lo]@.contains_key(a.hi),
            |a: Address| self.shards@[a.lo]@[a.hi],
        )
    }
}

impl<V> AddressMap<V> {
    /// The empty map.
    pub fn new() -> (m: AddressMap<V>)
        ensures
            m@ == Map::<Address, V>::empty(),
    {
        let m = AddressMap { shards: HashMap::new() };
        assert(m@ =~= Map::<Address, V>::empty());
        m
    }

    /// The value stored under `key`, if there is one.
    pub fn get(&self, key: Address) -> (r: Option<&V>)
        ensures
            match r {
                Some(v) => self@.contains_key(key) && *v == self@[key],
                None => !self@.contains_key(key),
            },
    {
        match self.shards.get(&key.lo) {
            Some(shard) => shard.get(&key.hi),
            None => None,
        }
    }

    /// Stores `value` under `key`, in place of what was there.
    pub fn insert(&mut self, key: Address, value: V)
        ensures
            final(self)@ == old(self)@.insert(key, value),
    {
        let mut shard = match self.shards.remove(&key.lo) {
            Some(s) => s,
            None => HashMap::new(),
        };
        shard.insert(key.hi, value);
        self.shards.insert(key.lo, shard);
        assert(self@ =~= old(self)@.insert(key, value));
    }

    /// Takes out what is stored under `key`, if anything.
    pub fn remove(&mut self, key: Address) -> (r: Option<V>)
        ensures
            final(self)@ == old(self)@.remove(key),
            match r {
                Some(v) => old(self)@.contains_key(key) && v == old(self)@[key],
                None => !old(self)@.contains_key(key),
            },
    {
        match self.shards.remove(&key.lo) {
            Some(mut shard) => {
                let r = shard.remove(&key.hi);
                self.shards.insert(key.lo, shard);
                assert(self@ =~= old(self)@.remove(key));
                r
            },
            None => {
                assert(self@ =~= old(self)@.remove(key));
                None
            },
        }
    }
}

} // verus!
