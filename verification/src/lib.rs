//! A partition-aware data access layer with cache-aside reads and
//! write-through saves.
//!
//! Records come in two kinds: structured tokens and opaque byte blobs.
//! Reads check an in-memory cache first and fall back to a per-partition
//! storage backend, populating the cache on a miss.  Writes go to the
//! backend first and update the cache only after the write succeeded, so
//! the cache is never ahead of durable state.  Values are returned as
//! shared, lock-guarded handles so every holder observes the same record.

pub mod backend;
pub mod codec;
pub mod errors;
pub mod handle;
pub mod memory;
pub mod provider;
pub mod record_cache;
pub mod token;
