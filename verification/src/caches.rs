//! The entities that later updates refer to, kept in memory so that a
//! reference is resolved without asking the store again.

use vstd::prelude::*;
use std::collections::HashMap;

verus! {

broadcast use vstd::std_specs::hash::group_hash_axioms;

/// Mathematical model of [`EntityCaches`]: for each token and each pool that
/// is in the store, its key and the row that stands for it.
pub struct CachesView {
    pub tokens: Map<u64, u64>,
    pub pools: Map<u64, u64>,
}

impl CachesView {
    /// Every entity of `self` is in `other`. The rows may differ: a later
    /// write of the same key replaces the row.
    pub open spec fn within(self, other: CachesView) -> bool {
        &&& self.tokens.dom().subset_of(other.tokens.dom())
        &&& self.pools.dom().subset_of(other.pools.dom())
    }
}

/// Tokens and pools that are in the store, by key.
pub struct EntityCaches {
    tokens: HashMap<u64, u64>,
    pools: HashMap<u64, u64>,
}

impl View for EntityCaches {
    type V = CachesView;

    closed spec fn view(&self) -> CachesView {
        CachesView { tokens: self.tokens@, pools: self.pools@ }
    }
}

impl EntityCaches {
    /// Caches that hold nothing.
    pub fn new() -> (caches: EntityCaches)
        ensures
            caches@.tokens == Map::<u64, u64>::empty(),
            caches@.pools == Map::<u64, u64>::empty(),
    {
        EntityCaches { tokens: HashMap::new(), pools: HashMap::new() }
    }

    /// Records that the token `key` is in the store as `row`.
    pub fn insert_token(&mut self, key: u64, row: u64)
        ensures
            final(self)@.tokens == old(self)@.tokens.insert(key, row),
            final(self)@.pools == old(self)@.pools,
    {
        let _ = self.tokens.insert(key, row);
    }

    /// Records that the pool `key` is in the store as `row`.
    pub fn insert_pool(&mut self, key: u64, row: u64)
        ensures
            final(self)@.pools == old(self)@.pools.insert(key, row),
            final(self)@.tokens == old(self)@.tokens,
    {
        let _ = self.pools.insert(key, row);
    }

    /// The row of the token `key`, if that token is in the store.
    pub fn token_row(&self, key: u64) -> (row: Option<u64>)
        ensures
            row == if self@.tokens.contains_key(key) {
                Some(self@.tokens[key])
            } else {
                None
            },
    {
        match self.tokens.get(&key) {
            Some(row) => Some(*row),
            None => None,
        }
    }

    /// The row of the pool `key`, if that pool is in the store.
    pub fn pool_row(&self, key: u64) -> (row: Option<u64>)
        ensures
            row == if self@.pools.contains_key(key) {
                Some(self@.pools[key])
            } else {
                None
            },
    {
        match self.pools.get(&key) {
            Some(row) => Some(*row),
            None => None,
        }
    }

    /// Whether the token `key` is in the store.
    pub fn has_token(&self, key: u64) -> (found: bool)
        ensures
            found == self@.tokens.contains_key(key),
    {
        self.tokens.contains_key(&key)
    }

    /// Whether the pool `key` is in the store.
    pub fn has_pool(&self, key: u64) -> (found: bool)
        ensures
            found == self@.pools.contains_key(key),
    {
        self.pools.contains_key(&key)
    }
}

} // verus!
