//! The data provider facade: the public entry point of the layer.
//!
//! Reads are cache-aside: check the record cache, fall back to the
//! partition's backend store, populate the cache, and return the
//! freshly cached handle.  Writes are write-through: the backend
//! write must succeed before the cache is touched, so a failed save
//! leaves both the stores and the caches exactly as they were, and a
//! reader never finds the cache ahead of durable state.

use vstd::prelude::*;
use crate::backend::Db;
use crate::backend::get_token_from;
use crate::backend::save_token_to;
use crate::codec::serialize_token;
use crate::codec::spec_deserialize_token;
use crate::codec::spec_serialize_token;
use crate::errors::DataError;
use crate::handle::DataHandle;
use crate::handle::TokenHandle;
use crate::record_cache::DataCache;
use crate::record_cache::MAX_IDLE_SECS;
use crate::record_cache::TokenCache;
use crate::record_cache::data_cache_get;
use crate::record_cache::data_cache_insert;
use crate::record_cache::data_entries;
use crate::record_cache::new_data_cache;
use crate::record_cache::new_token_cache;
use crate::record_cache::token_cache_get;
use crate::record_cache::token_cache_insert;
use crate::record_cache::token_entries;
use crate::token::Token;

verus! {

/// Shared handle identity: a record cache holds at most one handle
/// per partition and key, so all callers served from the cache for
/// that key observe the same underlying record — two loads can never
/// install two diverging handles that both stay visible.
pub proof fn lemma_shared_handle_identity<B: Db>(
    provider: SafeDataProvider<B>,
    partition: Seq<char>,
    key: Seq<u8>,
    h1: TokenHandle,
    h2: TokenHandle,
)
    requires
        provider.tokens_cached().contains_pair((partition, key), h1),
        provider.tokens_cached().contains_pair((partition, key), h2),
    ensures
        h1 == h2,
{
}

/// The cache-aside facade over one injected storage backend and two
/// independent record caches, one per record kind.  The two caches
/// share no entries: a partition and key present in one says nothing
/// about the other.
pub struct SafeDataProvider<B: Db> {
    /// The injected storage backend, one durable store per partition.
    pub backend: B,
    token_cache: TokenCache,
    data_cache: DataCache,
}

impl<B: Db> SafeDataProvider<B> {
    /// The durable contents of one partition's backend store.
    pub closed spec fn stored(&self, partition: Seq<char>) -> Map<Seq<u8>, Seq<u8>> {
        self.backend.store(partition)
    }

    /// The token-cache entries that may still be served, by partition
    /// and key.  Idle expiry can drop any of them at any time, so a
    /// lookup may miss a named entry, but a hit only ever returns one.
    pub closed spec fn tokens_cached(&self) -> Map<(Seq<char>, Seq<u8>), TokenHandle> {
        token_entries(self.token_cache)
    }

    /// The data-cache entries that may still be served, bounded the
    /// same way as [`Self::tokens_cached`].
    pub closed spec fn blobs_cached(&self) -> Map<(Seq<char>, Seq<u8>), DataHandle> {
        data_entries(self.data_cache)
    }

    /// Builds the facade around an injected backend.  Each record
    /// cache idle-expires an entry after the given number of seconds
    /// without access to it; the cache component refuses an idle
    /// duration over [`MAX_IDLE_SECS`] (1000 years), so the bound is
    /// required here.
    pub fn new(backend: B, token_idle_secs: u64, data_idle_secs: u64) -> (provider:
        SafeDataProvider<B>)
        requires
            token_idle_secs <= MAX_IDLE_SECS,
            data_idle_secs <= MAX_IDLE_SECS,
        ensures
            forall|p: Seq<char>| #[trigger] provider.stored(p) == backend.store(p),
            provider.tokens_cached() =~= Map::empty(),
            provider.blobs_cached() =~= Map::empty(),
    {
        SafeDataProvider {
            backend,
            token_cache: new_token_cache(token_idle_secs),
            data_cache: new_data_cache(data_idle_secs),
        }
    }

    /// Returns the shared handle for the token under `key` in the
    /// partition: the cached handle on a hit; on a miss the token is
    /// loaded from the backend, decoded, cached, and the cache is
    /// re-read, so the handle returned is the very entry subsequent
    /// readers share.  Fails with `DataNotFound` when the backend has
    /// no such key, `DeserializationError` when the stored bytes
    /// decode to no record, and `CacheError` when the post-insert
    /// re-read missed.  No read ever writes to a backend store.
    pub fn get_token(&mut self, key: &Vec<u8>, partition_id: &str) -> (r: Result<
        TokenHandle,
        DataError,
    >)
        ensures
            forall|p: Seq<char>| #[trigger] final(self).stored(p) == old(self).stored(p),
            final(self).blobs_cached() == old(self).blobs_cached(),
            final(self).tokens_cached() == old(self).tokens_cached() || final(self).tokens_cached()
                == old(self).tokens_cached().insert(
                (partition_id@, key@),
                final(self).tokens_cached()[(partition_id@, key@)],
            ),
            r matches Ok(h) ==> final(self).tokens_cached().contains_pair(
                (partition_id@, key@),
                h,
            ),
            r matches Ok(h) ==> (old(self).tokens_cached().contains_pair((partition_id@, key@), h)
                || (old(self).stored(partition_id@).contains_key(key@) && spec_deserialize_token(
                old(self).stored(partition_id@)[key@],
            ) == Some(h.value()) && final(self).tokens_cached() == old(
                self,
            ).tokens_cached().insert((partition_id@, key@), h))),
            r == Err::<TokenHandle, DataError>(DataError::DataNotFound) ==> !old(self).stored(
                partition_id@,
            ).contains_key(key@) && final(self).tokens_cached() == old(self).tokens_cached(),
            (r matches Err(e) && e matches DataError::FromStore(_)) ==> final(self).tokens_cached()
                == old(self).tokens_cached(),
            r == Err::<TokenHandle, DataError>(DataError::DeserializationError) ==> old(
                self,
            ).stored(partition_id@).contains_key(key@) && spec_deserialize_token(
                old(self).stored(partition_id@)[key@],
            ) is None && final(self).tokens_cached() == old(self).tokens_cached(),
            (!old(self).tokens_cached().contains_key((partition_id@, key@)) && !old(self).stored(
                partition_id@,
            ).contains_key(key@)) ==> (r == Err::<TokenHandle, DataError>(DataError::DataNotFound)
                || (r matches Err(e) && e matches DataError::FromStore(_))),
            r == Err::<TokenHandle, DataError>(DataError::CacheError) ==> old(self).stored(
                partition_id@,
            ).contains_key(key@),
            r matches Err(e) ==> (e == DataError::DataNotFound || e
                == DataError::DeserializationError || e == DataError::CacheError || e matches
                DataError::FromStore(_)),
    {
        match token_cache_get(&self.token_cache, partition_id, key) {
            Some(entry) => {
                return Ok(entry);
            },
            None => {},
        }
        let token = match get_token_from(&mut self.backend, key, partition_id) {
            Ok(t) => t,
            Err(e) => {
                return Err(e);
            },
        };
        token_cache_insert(&mut self.token_cache, partition_id, key, TokenHandle::new(token));
        match token_cache_get(&self.token_cache, partition_id, key) {
            Some(entry) => Ok(entry),
            None => Err(DataError::CacheError),
        }
    }

    /// Serializes the record the handle shares — under its exclusive
    /// write lock — writes it durably, and only then installs that
    /// same handle (never a copy) into the token cache, so the
    /// caller's handle and the cached one are one shared object from
    /// then on.  Fails with `Poisoned`, touching nothing, when the
    /// lock is unusable; a backend failure likewise changes nothing.
    pub fn save_token(&mut self, key: &Vec<u8>, token_ref: TokenHandle, partition_id: &str) -> (r:
        Result<(), DataError>)
        ensures
            final(self).blobs_cached() == old(self).blobs_cached(),
            r is Ok ==> final(self).stored(partition_id@) == old(self).stored(
                partition_id@,
            ).insert(key@, spec_serialize_token(token_ref.value())) && (forall|p: Seq<char>|
                p != partition_id@ ==> #[trigger] final(self).stored(p) == old(self).stored(p))
                && final(self).tokens_cached() == old(self).tokens_cached().insert(
                (partition_id@, key@),
                token_ref,
            ),
            r is Err ==> (forall|p: Seq<char>| #[trigger] final(self).stored(p) == old(self).stored(
                p,
            )) && final(self).tokens_cached() == old(self).tokens_cached(),
            r matches Err(e) ==> (e == DataError::Poisoned || e matches DataError::FromStore(_)),
    {
        match save_token_to(&mut self.backend, key, &token_ref, partition_id) {
            Ok(_) => {},
            Err(e) => {
                return Err(e);
            },
        }
        token_cache_insert(&mut self.token_cache, partition_id, key, token_ref);
        Ok(())
    }

    /// Returns the shared handle for the blob under `key` in the
    /// partition, with the same cache-aside shape as
    /// [`Self::get_token`] but no decoding step: bytes are cached
    /// as they are.  Absence is `DataNotFound`, never an empty blob.
    pub fn get_data(&mut self, key: &Vec<u8>, partition_id: &str) -> (r: Result<
        DataHandle,
        DataError,
    >)
        ensures
            forall|p: Seq<char>| #[trigger] final(self).stored(p) == old(self).stored(p),
            final(self).tokens_cached() == old(self).tokens_cached(),
            final(self).blobs_cached() == old(self).blobs_cached() || final(self).blobs_cached()
                == old(self).blobs_cached().insert(
                (partition_id@, key@),
                final(self).blobs_cached()[(partition_id@, key@)],
            ),
            r matches Ok(h) ==> final(self).blobs_cached().contains_pair((partition_id@, key@), h),
            r matches Ok(h) ==> (old(self).blobs_cached().contains_pair((partition_id@, key@), h)
                || (old(self).stored(partition_id@).contains_key(key@) && h.bytes() == old(
                self,
            ).stored(partition_id@)[key@] && final(self).blobs_cached() == old(
                self,
            ).blobs_cached().insert((partition_id@, key@), h))),
            r == Err::<DataHandle, DataError>(DataError::DataNotFound) ==> !old(self).stored(
                partition_id@,
            ).contains_key(key@) && final(self).blobs_cached() == old(self).blobs_cached(),
            (r matches Err(e) && e matches DataError::FromStore(_)) ==> final(self).blobs_cached()
                == old(self).blobs_cached(),
            (!old(self).blobs_cached().contains_key((partition_id@, key@)) && !old(self).stored(
                partition_id@,
            ).contains_key(key@)) ==> (r == Err::<DataHandle, DataError>(DataError::DataNotFound)
                || (r matches Err(e) && e matches DataError::FromStore(_))),
            r == Err::<DataHandle, DataError>(DataError::CacheError) ==> old(self).stored(
                partition_id@,
            ).contains_key(key@),
            r matches Err(e) ==> (e == DataError::DataNotFound || e == DataError::CacheError
                || e matches DataError::FromStore(_)),
    {
        match data_cache_get(&self.data_cache, partition_id, key) {
            Some(entry) => {
                return Ok(entry);
            },
            None => {},
        }
        let bytes = match self.backend.get_data(key, partition_id) {
            Ok(b) => b,
            Err(e) => {
                return Err(e);
            },
        };
        data_cache_insert(&mut self.data_cache, partition_id, key, DataHandle::new(bytes));
        match data_cache_get(&self.data_cache, partition_id, key) {
            Some(entry) => Ok(entry),
            None => Err(DataError::CacheError),
        }
    }

    /// Writes the bytes durably first, and only then wraps them in a
    /// fresh shared handle installed in the data cache, replacing any
    /// prior entry for the partition and key.  A backend failure
    /// changes nothing: neither store nor cache.
    pub fn save_data(&mut self, key: &Vec<u8>, data: Vec<u8>, partition_id: &str) -> (r: Result<
        (),
        DataError,
    >)
        ensures
            final(self).tokens_cached() == old(self).tokens_cached(),
            r is Ok ==> final(self).stored(partition_id@) == old(self).stored(
                partition_id@,
            ).insert(key@, data@) && (forall|p: Seq<char>|
                p != partition_id@ ==> #[trigger] final(self).stored(p) == old(self).stored(p))
                && final(self).blobs_cached() == old(self).blobs_cached().insert(
                (partition_id@, key@),
                final(self).blobs_cached()[(partition_id@, key@)],
            ) && final(self).blobs_cached()[(partition_id@, key@)].bytes() == data@,
            r is Err ==> (forall|p: Seq<char>| #[trigger] final(self).stored(p) == old(self).stored(
                p,
            )) && final(self).blobs_cached() == old(self).blobs_cached(),
            r matches Err(e) ==> e matches DataError::FromStore(_),
    {
        match self.backend.save_data(key, &data, partition_id) {
            Ok(_) => {},
            Err(e) => {
                return Err(e);
            },
        }
        data_cache_insert(&mut self.data_cache, partition_id, key, DataHandle::new(data));
        Ok(())
    }

    /// Encodes a structured value and then behaves as
    /// [`Self::save_data`] on the encoded bytes.  Encoding is total,
    /// so this path fails only on a backend error.
    pub fn save_typed_data(&mut self, key: &Vec<u8>, value: &Token, partition_id: &str) -> (r:
        Result<(), DataError>)
        ensures
            final(self).tokens_cached() == old(self).tokens_cached(),
            r is Ok ==> final(self).stored(partition_id@) == old(self).stored(
                partition_id@,
            ).insert(key@, spec_serialize_token(value@)) && (forall|p: Seq<char>|
                p != partition_id@ ==> #[trigger] final(self).stored(p) == old(self).stored(p))
                && final(self).blobs_cached() == old(self).blobs_cached().insert(
                (partition_id@, key@),
                final(self).blobs_cached()[(partition_id@, key@)],
            ) && final(self).blobs_cached()[(partition_id@, key@)].bytes() == spec_serialize_token(
                value@,
            ),
            r is Err ==> (forall|p: Seq<char>| #[trigger] final(self).stored(p) == old(self).stored(
                p,
            )) && final(self).blobs_cached() == old(self).blobs_cached(),
            r matches Err(e) ==> e matches DataError::FromStore(_),
    {
        let bytes = serialize_token(value);
        self.save_data(key, bytes, partition_id)
    }

    /// The mutate-in-place-then-persist path: serializes the record
    /// the handle currently shares — under its exclusive write lock —
    /// persists the bytes, and installs them as a fresh data-cache
    /// entry.  Fails with `Poisoned`, touching nothing, when a prior
    /// holder left the lock unusable, so a corrupted record is never
    /// written.
    pub fn save_locked_data(&mut self, key: &Vec<u8>, data: &TokenHandle, partition_id: &str) -> (r:
        Result<(), DataError>)
        ensures
            final(self).tokens_cached() == old(self).tokens_cached(),
            r is Ok ==> final(self).stored(partition_id@) == old(self).stored(
                partition_id@,
            ).insert(key@, spec_serialize_token(data.value())) && (forall|p: Seq<char>|
                p != partition_id@ ==> #[trigger] final(self).stored(p) == old(self).stored(p))
                && final(self).blobs_cached() == old(self).blobs_cached().insert(
                (partition_id@, key@),
                final(self).blobs_cached()[(partition_id@, key@)],
            ) && final(self).blobs_cached()[(partition_id@, key@)].bytes() == spec_serialize_token(
                data.value(),
            ),
            r is Err ==> (forall|p: Seq<char>| #[trigger] final(self).stored(p) == old(self).stored(
                p,
            )) && final(self).blobs_cached() == old(self).blobs_cached(),
            r matches Err(e) ==> (e == DataError::Poisoned || e matches DataError::FromStore(_)),
    {
        let t = match data.read_for_save() {
            Ok(t) => t,
            Err(e) => {
                return Err(e);
            },
        };
        let bytes = serialize_token(&t);
        self.save_data(key, bytes, partition_id)
    }
}

} // verus!
