//! A verified core for a small read-only recipe catalog service.
//!
//! The library holds the parts of the service that are worth proving:
//! the repository's failure-fallback policy (a storage error degrades to
//! an empty listing or to a sentinel entity, never to an error), an
//! in-memory model of the backing table with the lookup semantics the
//! repository relies on, and the plain-text rendering of every route body.
//! The HTTP server and the real database pool live outside the library
//! and hand it plain values.

pub mod recipe;
pub mod render;
pub mod repo;
pub mod store;
