//! The pluggable storage-backend abstraction.
//!
//! A backend is a family of independent, durable key-value stores,
//! one per partition identifier.  Partitions share no keyspace: a
//! write in one is invisible in every other.  The facade talks to the
//! backend only through this interface, so alternate storage engines
//! can be substituted without touching the facade.
//!
//! Token records ride on the raw byte interface: inside one partition
//! store, tokens and blobs share the physical keyspace, so callers
//! must not reuse a key across the two record kinds if they need
//! independent values.

use vstd::prelude::*;
use crate::codec::deserialize_token;
use crate::codec::serialize_token;
use crate::codec::spec_deserialize_token;
use crate::codec::spec_serialize_token;
use crate::errors::DataError;
use crate::handle::TokenHandle;
use crate::token::Token;

verus! {

/// One storage backend: a durable key-value store per partition.
///
/// `store(p)` is the durable contents of partition `p`'s store; a
/// partition never opened is an empty store, so opening is idempotent.
/// Loads leave every store unchanged.  A successful save updates
/// exactly the addressed partition's store; a failed save changes
/// nothing.  Absence of a key is reported as `DataNotFound`, never as
/// an empty value; every other failure is the backend's own, carried
/// as `FromStore`.
pub trait Db: Sized {
    /// The durable contents of the partition's store.
    spec fn store(&self, partition: Seq<char>) -> Map<Seq<u8>, Seq<u8>>;

    /// Loads the bytes under `key` in the partition's store.
    fn get_data(&mut self, key: &Vec<u8>, partition_id: &str) -> (r: Result<Vec<u8>, DataError>)
        ensures
            forall|p: Seq<char>| #[trigger] final(self).store(p) == old(self).store(p),
            r matches Ok(b) ==> old(self).store(partition_id@).contains_key(key@) && b@ == old(
                self,
            ).store(partition_id@)[key@],
            r matches Err(e) ==> match e {
                DataError::DataNotFound => !old(self).store(partition_id@).contains_key(key@),
                DataError::FromStore(_) => true,
                _ => false,
            },
    ;

    /// Stores the bytes under `key`, durably, in the partition's store.
    fn save_data(&mut self, key: &Vec<u8>, data: &Vec<u8>, partition_id: &str) -> (r: Result<
        (),
        DataError,
    >)
        ensures
            r is Ok ==> final(self).store(partition_id@) == old(self).store(
                partition_id@,
            ).insert(key@, data@) && forall|p: Seq<char>|
                p != partition_id@ ==> #[trigger] final(self).store(p) == old(self).store(p),
            r matches Err(e) ==> (e matches DataError::FromStore(_)) && forall|p: Seq<char>|
                #[trigger] final(self).store(p) == old(self).store(p),
    ;
}

/// Loads and decodes the token stored under `key` in the partition's
/// store.  Fails with `DataNotFound` when the key is absent and with
/// `DeserializationError` when the stored bytes decode to no record.
pub fn get_token_from<B: Db>(db: &mut B, key: &Vec<u8>, partition_id: &str) -> (r: Result<
    Token,
    DataError,
>)
    ensures
        forall|p: Seq<char>| #[trigger] final(db).store(p) == old(db).store(p),
        r matches Ok(t) ==> old(db).store(partition_id@).contains_key(key@)
            && spec_deserialize_token(old(db).store(partition_id@)[key@]) == Some(t@),
        r == Err::<Token, DataError>(DataError::DataNotFound) ==> !old(db).store(
            partition_id@,
        ).contains_key(key@),
        r == Err::<Token, DataError>(DataError::DeserializationError) ==> old(db).store(
            partition_id@,
        ).contains_key(key@) && spec_deserialize_token(old(db).store(partition_id@)[key@]) is None,
        r matches Err(e) ==> (e == DataError::DataNotFound || e == DataError::DeserializationError
            || e matches DataError::FromStore(_)),
{
    let bytes = match db.get_data(key, partition_id) {
        Ok(b) => b,
        Err(e) => {
            return Err(e);
        },
    };
    match deserialize_token(bytes.as_slice()) {
        Ok(t) => Ok(t),
        Err(e) => Err(e),
    }
}

/// Serializes the record a handle shares — under its exclusive write
/// lock — and stores it durably under `key` in the partition's store.
/// Fails with `Poisoned`, changing nothing, when the lock is unusable.
pub fn save_token_to<B: Db>(
    db: &mut B,
    key: &Vec<u8>,
    handle: &TokenHandle,
    partition_id: &str,
) -> (r: Result<(), DataError>)
    ensures
        r is Ok ==> final(db).store(partition_id@) == old(db).store(partition_id@).insert(
            key@,
            spec_serialize_token(handle.value()),
        ) && forall|p: Seq<char>|
            p != partition_id@ ==> #[trigger] final(db).store(p) == old(db).store(p),
        r is Err ==> forall|p: Seq<char>| #[trigger] final(db).store(p) == old(db).store(p),
        r matches Err(e) ==> (e == DataError::Poisoned || e matches DataError::FromStore(_)),
{
    let t = match handle.read_for_save() {
        Ok(t) => t,
        Err(e) => {
            return Err(e);
        },
    };
    let bytes = serialize_token(&t);
    db.save_data(key, &bytes, partition_id)
}

} // verus!
