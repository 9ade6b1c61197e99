//! The in-memory result cache: parameter hash to content hash, one shared
//! mapping with no eviction, consulted before the pipeline runs and
//! written after it.

use vstd::prelude::*;
use std::collections::HashMap;

verus! {

broadcast use vstd::std_specs::hash::group_hash_axioms;

/// Maps a request's parameter hash to the content hash of its computed
/// output. Owned by its constructor's caller and handed to every request
/// handler; entries are only ever added, never evicted.
pub struct ResultCache {
    map: HashMap<u64, u64>,
}

impl View for ResultCache {
    type V = Map<u64, u64>;

    closed spec fn view(&self) -> Map<u64, u64> {
        self.map@
    }
}

impl ResultCache {
    /// A fresh, empty cache.
    pub fn new() -> (r: ResultCache)
        ensures
            r@ == Map::<u64, u64>::empty(),
    {
        ResultCache { map: HashMap::new() }
    }

    /// The content hash recorded for a parameter hash, if any.
    pub fn lookup(&self, param_hash: u64) -> (r: Option<u64>)
        ensures
            (match r {
                Some(c) => self@.contains_key(param_hash) && self@[param_hash] == c,
                None => !self@.contains_key(param_hash),
            }),
    {
        match self.map.get(&param_hash) {
            Some(c) => Some(*c),
            None => None,
        }
    }

    /// Records the content hash computed for a parameter hash; a repeated
    /// record overwrites with the value a deterministic pipeline computed
    /// again.
    pub fn record(&mut self, param_hash: u64, content_hash: u64)
        ensures
            final(self)@ == old(self)@.insert(param_hash, content_hash),
    {
        self.map.insert(param_hash, content_hash);
    }

    /// How many distinct request shapes have been recorded.
    pub fn len(&self) -> (r: usize)
        ensures
            r == self@.len(),
    {
        self.map.len()
    }
}

} // verus!
