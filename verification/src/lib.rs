//! A small movie store: the record type, an in-memory read-through cache
//! keyed by record id, and the decision logic of the two HTTP handlers
//! (create a record, fetch a record by id) as pure transition functions.
//! The HTTP framework and the relational datastore live outside this
//! crate; the handlers here take the datastore's answer as an argument
//! and say exactly what response and what cache contents follow from it.

pub mod cache;
pub mod handler;
pub mod laws;
pub mod movie;
