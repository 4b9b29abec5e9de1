//! Shared, lock-guarded value handles.
//!
//! A handle is a reference-counted pointer to a lock-guarded cell
//! holding one record.  Ownership is shared among every holder — the
//! cache and every caller that received the handle — and all of them
//! observe the same underlying record.  A lock left unusable by a
//! holder that did not release it cleanly surfaces as
//! [`DataError::Poisoned`], never as silently inconsistent data.
//!
//! A deliberate restriction: the handles expose no write operation,
//! so a cell's record is fixed at creation and a record is replaced
//! by saving a new handle under its key, not by mutating in place.
//! This is narrower than a raw reference-counted lock, which would
//! let a holder rewrite the shared value; the restriction is what
//! lets the contracts below speak of *the* record a cell holds
//! ([`locked_token`], [`locked_blob`]) while the cells are shared.
//! The write lock is still taken on every save path, so a holder
//! that poisoned a lock is reported rather than read around.

use vstd::prelude::*;
use crate::errors::DataError;
use crate::token::Token;
use crate::token::TokenValue;

verus! {

/// Declares std's reader-writer lock to the verifier; a cell of it is
/// opaque and is reached only through the trusted helpers below.
#[verifier::external_type_specification]
#[verifier::external_body]
#[verifier::reject_recursive_types(T)]
pub struct ExRwLock<T: ?Sized>(std::sync::RwLock<T>);

/// The record a shared token cell holds: the value it was created
/// around, since no holder can replace it through this layer.
pub uninterp spec fn locked_token(cell: std::sync::Arc<std::sync::RwLock<Token>>) -> TokenValue;

/// The bytes a shared blob cell holds: the value it was created
/// around, since no holder can replace it through this layer.
pub uninterp spec fn locked_blob(cell: std::sync::Arc<std::sync::RwLock<Vec<u8>>>) -> Seq<u8>;

/// Relies on std::sync::RwLock::new: the fresh lock holds exactly the
/// given record.  Arc::new only shares the cell.
#[verifier::external_body]
fn new_token_cell(t: Token) -> (cell: std::sync::Arc<std::sync::RwLock<Token>>)
    ensures
        locked_token(cell) == t@,
{
    std::sync::Arc::new(std::sync::RwLock::new(t))
}

/// Relies on std::sync::RwLock::read: hands back the guarded record,
/// or an error exactly when the lock is poisoned.
#[verifier::external_body]
fn read_token_cell(cell: &std::sync::Arc<std::sync::RwLock<Token>>) -> (r: Result<
    Token,
    DataError,
>)
    ensures
        r matches Ok(t) ==> t@ == locked_token(*cell),
        r matches Err(e) ==> e == DataError::Poisoned,
{
    match cell.read() {
        Ok(guard) => Ok(guard.clone()),
        Err(_) => Err(DataError::Poisoned),
    }
}

/// Relies on std::sync::RwLock::write: holds the exclusive lock while
/// the guarded record is copied out, or fails exactly when the lock is
/// poisoned.
#[verifier::external_body]
fn write_token_cell(cell: &std::sync::Arc<std::sync::RwLock<Token>>) -> (r: Result<
    Token,
    DataError,
>)
    ensures
        r matches Ok(t) ==> t@ == locked_token(*cell),
        r matches Err(e) ==> e == DataError::Poisoned,
{
    match cell.write() {
        Ok(guard) => Ok(guard.clone()),
        Err(_) => Err(DataError::Poisoned),
    }
}

/// Relies on std::sync::RwLock::new: the fresh lock holds exactly the
/// given bytes.  Arc::new only shares the cell.
#[verifier::external_body]
fn new_blob_cell(bytes: Vec<u8>) -> (cell: std::sync::Arc<std::sync::RwLock<Vec<u8>>>)
    ensures
        locked_blob(cell) == bytes@,
{
    std::sync::Arc::new(std::sync::RwLock::new(bytes))
}

/// Relies on std::sync::RwLock::read: hands back the guarded bytes, or
/// an error exactly when the lock is poisoned.
#[verifier::external_body]
fn read_blob_cell(cell: &std::sync::Arc<std::sync::RwLock<Vec<u8>>>) -> (r: Result<
    Vec<u8>,
    DataError,
>)
    ensures
        r matches Ok(b) ==> b@ == locked_blob(*cell),
        r matches Err(e) ==> e == DataError::Poisoned,
{
    match cell.read() {
        Ok(guard) => Ok(guard.clone()),
        Err(_) => Err(DataError::Poisoned),
    }
}

/// A shared, lock-guarded handle to one structured record.
#[derive(Debug)]
pub struct TokenHandle {
    inner: std::sync::Arc<std::sync::RwLock<Token>>,
}

impl TokenHandle {
    /// The record value every holder of this handle observes.
    pub closed spec fn value(&self) -> TokenValue {
        locked_token(self.inner)
    }

    /// Wraps a record in a fresh shared handle.
    pub fn new(t: Token) -> (h: TokenHandle)
        ensures
            h.value() == t@,
    {
        TokenHandle { inner: new_token_cell(t) }
    }

    /// Reads the shared record, failing with `Poisoned` exactly when a
    /// prior holder left the lock unusable.
    pub fn read(&self) -> (r: Result<Token, DataError>)
        ensures
            r matches Ok(t) ==> t@ == self.value(),
            r matches Err(e) ==> e == DataError::Poisoned,
    {
        read_token_cell(&self.inner)
    }

    /// Copies the record out under the exclusive write lock, failing
    /// with `Poisoned` exactly when the lock is unusable.  The save
    /// paths use this so a record is serialized only while no other
    /// writer holds it.
    pub(crate) fn read_for_save(&self) -> (r: Result<Token, DataError>)
        ensures
            r matches Ok(t) ==> t@ == self.value(),
            r matches Err(e) ==> e == DataError::Poisoned,
    {
        write_token_cell(&self.inner)
    }
}

impl Clone for TokenHandle {
    /// Relies on Arc::clone: the clone shares the same cell, so it
    /// carries the same record value.
    #[verifier::external_body]
    fn clone(&self) -> (res: Self)
        ensures
            res == *self,
    {
        TokenHandle { inner: self.inner.clone() }
    }
}

/// A shared, lock-guarded handle to one opaque byte blob.
#[derive(Debug)]
pub struct DataHandle {
    inner: std::sync::Arc<std::sync::RwLock<Vec<u8>>>,
}

impl DataHandle {
    /// The bytes every holder of this handle observes.
    pub closed spec fn bytes(&self) -> Seq<u8> {
        locked_blob(self.inner)
    }

    /// Wraps a blob in a fresh shared handle.
    pub fn new(bytes: Vec<u8>) -> (h: DataHandle)
        ensures
            h.bytes() == bytes@,
    {
        DataHandle { inner: new_blob_cell(bytes) }
    }

    /// Reads the shared bytes, failing with `Poisoned` exactly when a
    /// prior holder left the lock unusable.
    pub fn read(&self) -> (r: Result<Vec<u8>, DataError>)
        ensures
            r matches Ok(b) ==> b@ == self.bytes(),
            r matches Err(e) ==> e == DataError::Poisoned,
    {
        read_blob_cell(&self.inner)
    }
}

impl Clone for DataHandle {
    /// Relies on Arc::clone: the clone shares the same cell, so it
    /// carries the same bytes.
    #[verifier::external_body]
    fn clone(&self) -> (res: Self)
        ensures
            res == *self,
    {
        DataHandle { inner: self.inner.clone() }
    }
}

} // verus!
