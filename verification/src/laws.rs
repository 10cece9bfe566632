use vstd::prelude::*;
use crate::handler::{
    cache_entry, create_transition, get_transition, FetchOutcome, InsertOutcome, STATUS_NOT_FOUND,
    STATUS_OK,
};
use crate::movie::Movie;

verus! {

/// Every cache entry is stored under its own record id.
pub open spec fn cache_consistent(c: Map<i32, Movie>) -> bool {
    forall|k: i32| c.contains_key(k) ==> #[trigger] c[k].id == k
}

/// The datastore's answer names the id it was asked for: a fetch by
/// primary key `id`, when it finds a row, finds the row whose id is `id`.
pub open spec fn answer_for(id: i32, db: FetchOutcome) -> bool {
    db matches FetchOutcome::Found(m) ==> m.id == id
}

/// Storing a record and then fetching it by its id returns the same
/// field values: a completed create reports success, and a fetch of the
/// new id then starts as a cache hit that hands back the record just
/// stored, unchanged.
pub proof fn lemma_insert_then_fetch(c: Map<i32, Movie>, m: Movie)
    ensures
        ({
            let (c2, status) = create_transition(c, m, InsertOutcome::Inserted);
            status == STATUS_OK && cache_entry(c2, m.id) == Some(m)
        }),
{
}

/// Fetching an id that was never stored: the probe misses, and when the
/// datastore reports no row either, the response is not-found and the
/// cache is left as it was.
pub proof fn lemma_missing_id_not_found(c: Map<i32, Movie>, id: i32)
    requires
        !c.contains_key(id),
    ensures
        cache_entry(c, id) is None,
        get_transition(c, id, FetchOutcome::NotFound) == (c, Err::<Movie, u16>(STATUS_NOT_FOUND)),
{
}

/// After a fetch has populated the cache, a second fetch of the same id
/// needs no datastore round trip: the first fetch answers with the row
/// and caches it, so the second probe of that id is a hit on the same
/// record — and the datastore is consulted only on a miss.
pub proof fn lemma_second_fetch_is_cached(c: Map<i32, Movie>, id: i32, m: Movie)
    ensures
        ({
            let (c2, resp) = get_transition(c, id, FetchOutcome::Found(m));
            resp == Ok::<Movie, u16>(m) && cache_entry(c2, id) == Some(m)
        }),
{
}

/// Two fetches of the same id from the same cache contents may run in
/// parallel: each transition depends only on its own inputs, each record
/// returned carries the requested id, and either resulting cache is
/// consistent again. (Mutual exclusion between the two cache updates
/// themselves is the surrounding lock's job, outside this crate.)
pub proof fn lemma_parallel_fetches_valid(
    c: Map<i32, Movie>,
    id: i32,
    db1: FetchOutcome,
    db2: FetchOutcome,
)
    requires
        cache_consistent(c),
        answer_for(id, db1),
        answer_for(id, db2),
    ensures
        ({
            let (c1, r1) = get_transition(c, id, db1);
            let (c2, r2) = get_transition(c, id, db2);
            &&& (r1 matches Ok(m) ==> m.id == id)
            &&& (r2 matches Ok(m) ==> m.id == id)
            &&& cache_consistent(c1)
            &&& cache_consistent(c2)
        }),
{
}

/// A completed create keeps the cache consistent: the new record is
/// stored under its own id, and a failed one changes nothing.
pub proof fn lemma_create_keeps_consistency(c: Map<i32, Movie>, m: Movie, db: InsertOutcome)
    requires
        cache_consistent(c),
    ensures
        cache_consistent(create_transition(c, m, db).0),
{
}

} // verus!
