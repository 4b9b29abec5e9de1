//! The in-memory record caches, one per record kind.
//!
//! A cache maps a partition identifier and key to a shared value
//! handle — partitions share no cache entries, just as they share no
//! keyspace — and expires an entry autonomously once it has gone
//! unread for a configured idle duration.  The entry maps named here
//! are an upper bound on what a lookup can still serve: expiry may
//! drop an entry at any moment, so a lookup may miss even a named
//! entry, but a hit only ever returns a named one.  Eviction drops
//! the cache's own reference alone; handles already returned to
//! callers stay valid.

use vstd::prelude::*;
use crate::handle::DataHandle;
use crate::handle::TokenHandle;

verus! {

/// Declares moka's cache type to the verifier; a cache is opaque and
/// is reached only through the trusted helpers below.
#[verifier::external_type_specification]
#[verifier::external_body]
#[verifier::reject_recursive_types(K)]
#[verifier::reject_recursive_types(V)]
#[verifier::reject_recursive_types(S)]
pub struct ExCache<K, V, S>(moka::sync::Cache<K, V, S>);

/// The token-cache instance: partition and key to shared token handle.
pub type TokenCache = moka::sync::Cache<(String, Vec<u8>), TokenHandle>;

/// The data-cache instance: partition and key to shared blob handle.
pub type DataCache = moka::sync::Cache<(String, Vec<u8>), DataHandle>;

/// The longest idle duration the cache builder accepts, in seconds:
/// moka's builder panics on an expiry over 1000 years.
pub const MAX_IDLE_SECS: u64 = 31_536_000_000;

/// The entries the token cache may still serve, by partition and key.
pub uninterp spec fn token_entries(c: TokenCache) -> Map<(Seq<char>, Seq<u8>), TokenHandle>;

/// The entries the data cache may still serve, by partition and key.
pub uninterp spec fn data_entries(c: DataCache) -> Map<(Seq<char>, Seq<u8>), DataHandle>;

/// Relies on moka's Cache builder: a fresh cache is empty, and its
/// entries idle-expire after the given number of seconds without
/// access.  The builder panics on an idle duration over
/// [`MAX_IDLE_SECS`], so longer ones are excluded here.
#[verifier::external_body]
pub(crate) fn new_token_cache(idle_secs: u64) -> (cache: TokenCache)
    requires
        idle_secs <= MAX_IDLE_SECS,
    ensures
        token_entries(cache) =~= Map::empty(),
{
    moka::sync::Cache::builder().time_to_idle(std::time::Duration::from_secs(idle_secs)).build()
}

/// Relies on moka's Cache::get: a hit returns the entry stored under
/// the partition and key and resets its idle timer; a miss returns
/// nothing, and may happen for any entry, since an entry can
/// idle-expire at any time.
#[verifier::external_body]
pub(crate) fn token_cache_get(c: &TokenCache, partition_id: &str, key: &Vec<u8>) -> (r: Option<
    TokenHandle,
>)
    ensures
        r matches Some(h) ==> token_entries(*c).contains_pair((partition_id@, key@), h),
{
    c.get(&(partition_id.to_owned(), key.clone()))
}

/// Relies on moka's Cache::insert: stores the handle under the
/// partition and key, replacing any prior entry, and resets the
/// entry's idle timer.
#[verifier::external_body]
pub(crate) fn token_cache_insert(
    c: &mut TokenCache,
    partition_id: &str,
    key: &Vec<u8>,
    h: TokenHandle,
)
    ensures
        token_entries(*final(c)) == token_entries(*old(c)).insert((partition_id@, key@), h),
{
    c.insert((partition_id.to_owned(), key.clone()), h)
}

/// Relies on moka's Cache builder: a fresh cache is empty, and its
/// entries idle-expire after the given number of seconds without
/// access.  The builder panics on an idle duration over
/// [`MAX_IDLE_SECS`], so longer ones are excluded here.
#[verifier::external_body]
pub(crate) fn new_data_cache(idle_secs: u64) -> (cache: DataCache)
    requires
        idle_secs <= MAX_IDLE_SECS,
    ensures
        data_entries(cache) =~= Map::empty(),
{
    moka::sync::Cache::builder().time_to_idle(std::time::Duration::from_secs(idle_secs)).build()
}

/// Relies on moka's Cache::get: a hit returns the entry stored under
/// the partition and key and resets its idle timer; a miss returns
/// nothing, and may happen for any entry, since an entry can
/// idle-expire at any time.
#[verifier::external_body]
pub(crate) fn data_cache_get(c: &DataCache, partition_id: &str, key: &Vec<u8>) -> (r: Option<
    DataHandle,
>)
    ensures
        r matches Some(h) ==> data_entries(*c).contains_pair((partition_id@, key@), h),
{
    c.get(&(partition_id.to_owned(), key.clone()))
}

/// Relies on moka's Cache::insert: stores the handle under the
/// partition and key, replacing any prior entry, and resets the
/// entry's idle timer.
#[verifier::external_body]
pub(crate) fn data_cache_insert(
    c: &mut DataCache,
    partition_id: &str,
    key: &Vec<u8>,
    h: DataHandle,
)
    ensures
        data_entries(*final(c)) == data_entries(*old(c)).insert((partition_id@, key@), h),
{
    c.insert((partition_id.to_owned(), key.clone()), h)
}

} // verus!
