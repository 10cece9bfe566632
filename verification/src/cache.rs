use vstd::prelude::*;
use crate::movie::Movie;
use std::collections::HashMap;

verus! {

broadcast use vstd::std_specs::hash::group_hash_axioms;

/// The in-memory cache: a map from record id to the record last stored or
/// fetched under that id. There is no eviction; an insert under an id that
/// is already present replaces the earlier entry.
pub struct MovieCache {
    map: HashMap<i32, Movie>,
}

impl View for MovieCache {
    type V = Map<i32, Movie>;

    closed spec fn view(&self) -> Map<i32, Movie> {
        self.map@
    }
}

impl MovieCache {
    /// An empty cache, as each service process starts with.
    pub fn new() -> (c: MovieCache)
        ensures
            c@ == Map::<i32, Movie>::empty(),
    {
        MovieCache { map: HashMap::new() }
    }

    /// Probes the cache for `id`. The cache itself is not changed.
    pub fn lookup(&self, id: i32) -> (r: Option<&Movie>)
        ensures
            match r {
                Some(m) => self@.contains_key(id) && *m == self@[id],
                None => !self@.contains_key(id),
            },
    {
        self.map.get(&id)
    }

    /// Stores `m` under `id`, replacing any earlier entry for that id.
    pub fn store(&mut self, id: i32, m: Movie)
        ensures
            final(self)@ == old(self)@.insert(id, m),
    {
        self.map.insert(id, m);
    }

    /// How many ids the cache currently holds.
    pub fn len(&self) -> (n: usize)
        ensures
            n == self@.len(),
    {
        self.map.len()
    }
}

} // verus!
