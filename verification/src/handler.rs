use vstd::prelude::*;
use crate::cache::MovieCache;
use crate::movie::Movie;

verus! {

/// HTTP status codes the service answers with.
pub const STATUS_OK: u16 = 200;

pub const STATUS_BAD_REQUEST: u16 = 400;

pub const STATUS_NOT_FOUND: u16 = 404;

pub const STATUS_CONFLICT: u16 = 409;

pub const STATUS_INTERNAL_SERVER_ERROR: u16 = 500;

/// The datastore's answer to a fetch by id, as the handler sees it once
/// the caller has performed the query: the row under that id, no such
/// row, or a failure (drawing a pooled connection, or the query itself)
/// with its message.
pub enum FetchOutcome {
    Found(Movie),
    NotFound,
    Failure(String),
}

/// The datastore's answer to an insert: the row went in, the statement
/// failed, or no connection could be drawn from the pool.
pub enum InsertOutcome {
    Inserted,
    Rejected(String),
    PoolUnavailable(String),
}

/// What a probe of the cache yields for `id`: the entry under that id,
/// if there is one.
pub open spec fn cache_entry(c: Map<i32, Movie>, id: i32) -> Option<Movie> {
    if c.contains_key(id) {
        Some(c[id])
    } else {
        None
    }
}

/// The fetch-record transition: from the cache contents and the answer
/// obtained for `id` to the cache contents afterwards and the response.
/// A row found is returned and cached; no row is the not-found response;
/// a failure is the internal-error response. Only success touches the
/// cache.
pub open spec fn get_transition(c: Map<i32, Movie>, id: i32, db: FetchOutcome) -> (Map<
    i32,
    Movie,
>, Result<Movie, u16>) {
    match db {
        FetchOutcome::Found(m) => (c.insert(id, m), Ok(m)),
        FetchOutcome::NotFound => (c, Err(STATUS_NOT_FOUND)),
        FetchOutcome::Failure(_) => (c, Err(STATUS_INTERNAL_SERVER_ERROR)),
    }
}

/// The create-record transition: from the cache contents, the record of
/// the request body and the datastore's answer to the cache contents
/// afterwards and the status returned. A completed insert caches the new
/// record under its own id and is the ok status; a failed statement is
/// the conflict status; an exhausted pool is the internal-error status.
/// Only success touches the cache.
pub open spec fn create_transition(c: Map<i32, Movie>, m: Movie, db: InsertOutcome) -> (Map<
    i32,
    Movie,
>, u16) {
    match db {
        InsertOutcome::Inserted => (c.insert(m.id, m), STATUS_OK),
        InsertOutcome::Rejected(_) => (c, STATUS_CONFLICT),
        InsertOutcome::PoolUnavailable(_) => (c, STATUS_INTERNAL_SERVER_ERROR),
    }
}

/// Renders a datastore failure, already turned into text, as the
/// internal-server-error status paired with that text.
pub fn internal_error(msg: String) -> (r: (u16, String))
    ensures
        r.0 == STATUS_INTERNAL_SERVER_ERROR,
        r.1 == msg,
{
    (STATUS_INTERNAL_SERVER_ERROR, msg)
}

/// The first step of the fetch handler: a probe of the cache.
pub enum CacheProbe {
    Hit(Movie),
    Miss,
}

/// Probes the cache for `req_id`. A hit hands back exactly the cached
/// record; the caller queries the datastore only on a miss.
pub fn get_movie_probe(cache: &MovieCache, req_id: i32) -> (r: CacheProbe)
    ensures
        match r {
            CacheProbe::Hit(m) => cache_entry(cache@, req_id) == Some(m),
            CacheProbe::Miss => cache_entry(cache@, req_id) is None,
        },
{
    match cache.lookup(req_id) {
        Some(m) => CacheProbe::Hit(m.duplicate()),
        None => CacheProbe::Miss,
    }
}

/// The second step of the fetch handler: applies the answer for `req_id`
/// (the cached record on a hit, the datastore's row on a miss) to the
/// cache and forms the response, exactly as `get_transition` says.
pub fn get_movie_complete(cache: &mut MovieCache, req_id: i32, db: FetchOutcome) -> (r: Result<
    Movie,
    u16,
>)
    ensures
        ({
            let (c2, resp) = get_transition(old(cache)@, req_id, db);
            final(cache)@ == c2 && r == resp
        }),
{
    match db {
        FetchOutcome::Found(m) => {
            let out = m.duplicate();
            cache.store(req_id, m);
            Ok(out)
        },
        FetchOutcome::NotFound => Err(STATUS_NOT_FOUND),
        FetchOutcome::Failure(_msg) => Err(STATUS_INTERNAL_SERVER_ERROR),
    }
}

/// The first step of the create handler: what to do with a request body.
pub enum CreateStep {
    Reject(u16),
    Insert(Movie),
}

/// Screens a create request. A body that did not parse as a record
/// (`None`) is rejected here with the bad-request status, and the
/// datastore is never reached for it; only a parsed record, handed back
/// unchanged, goes on to the insert.
pub fn create_movie_screen(body: Option<Movie>) -> (r: CreateStep)
    ensures
        match r {
            CreateStep::Reject(s) => body is None && s == STATUS_BAD_REQUEST,
            CreateStep::Insert(m) => body == Some(m),
        },
{
    match body {
        Some(m) => CreateStep::Insert(m),
        None => CreateStep::Reject(STATUS_BAD_REQUEST),
    }
}

/// The second step of the create handler: applies the datastore's answer
/// for the new record to the cache and picks the status, exactly as
/// `create_transition` says.
pub fn create_movie_complete(cache: &mut MovieCache, new_movie: Movie, db: InsertOutcome) -> (r:
    u16)
    ensures
        ({
            let (c2, status) = create_transition(old(cache)@, new_movie, db);
            final(cache)@ == c2 && r == status
        }),
{
    match db {
        InsertOutcome::Inserted => {
            let id = new_movie.id;
            cache.store(id, new_movie);
            STATUS_OK
        },
        InsertOutcome::Rejected(_msg) => STATUS_CONFLICT,
        InsertOutcome::PoolUnavailable(_msg) => STATUS_INTERNAL_SERVER_ERROR,
    }
}

} // verus!
