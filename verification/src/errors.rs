//! The failure kinds this layer surfaces to callers.

use vstd::prelude::*;

verus! {

/// Every fallible operation of the layer reports one of these kinds.
/// No failure is ever swallowed or replaced by a default value.
#[derive(Debug, Clone, PartialEq, Eq)]
pub enum DataError {
    /// The key is absent from the backend store of the requested
    /// partition.  A cache miss alone never produces this: a miss
    /// triggers a backend load first.
    DataNotFound,
    /// Stored bytes could not be decoded into a structured record.
    DeserializationError,
    /// A structured record could not be encoded.
    SerializationError,
    /// A shared handle's lock is unusable because a prior holder did
    /// not release it cleanly.
    Poisoned,
    /// A cache insert immediately followed by a lookup of the same key
    /// found nothing: an internal consistency failure of the cache
    /// component, distinct from `DataNotFound`.
    CacheError,
    /// The storage backend itself failed; carries the backend's own
    /// message.
    FromStore(String),
}

impl DataError {
    /// A short description of the error kind, for callers that log it.
    pub fn describe(&self) -> (msg: String)
        ensures
            msg@.len() > 0,
    {
        match self {
            DataError::DataNotFound => {
                let m = "data not found".to_owned();
                proof {
                    reveal_strlit("data not found");
                }
                m
            },
            DataError::DeserializationError => {
                let m = "deserialization failed".to_owned();
                proof {
                    reveal_strlit("deserialization failed");
                }
                m
            },
            DataError::SerializationError => {
                let m = "serialization failed".to_owned();
                proof {
                    reveal_strlit("serialization failed");
                }
                m
            },
            DataError::Poisoned => {
                let m = "lock poisoned".to_owned();
                proof {
                    reveal_strlit("lock poisoned");
                }
                m
            },
            DataError::CacheError => {
                let m = "cache inconsistency".to_owned();
                proof {
                    reveal_strlit("cache inconsistency");
                }
                m
            },
            DataError::FromStore(_) => {
                let m = "storage backend failure".to_owned();
                proof {
                    reveal_strlit("storage backend failure");
                }
                m
            },
        }
    }
}

} // verus!
