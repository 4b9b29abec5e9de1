//! The structured record kind this layer stores and retrieves.

use vstd::prelude::*;

verus! {

/// A structured, serializable record.  The fields are domain data: the
/// layer persists and caches them but never interprets them.
#[derive(Debug, Clone, PartialEq, Eq)]
pub struct Token {
    /// The byte identity of the record's owner.
    pub owner: Vec<u8>,
    /// A domain quantity carried by the record.
    pub balance: u64,
    /// A domain revision number carried by the record.
    pub version: u32,
}

/// The mathematical value of a [`Token`].
pub struct TokenValue {
    pub owner: Seq<u8>,
    pub balance: u64,
    pub version: u32,
}

impl View for Token {
    type V = TokenValue;

    open spec fn view(&self) -> TokenValue {
        TokenValue { owner: self.owner@, balance: self.balance, version: self.version }
    }
}

impl Token {
    /// Builds a record from its parts.
    pub fn new(owner: Vec<u8>, balance: u64, version: u32) -> (t: Token)
        ensures
            t@ == (TokenValue { owner: owner@, balance, version }),
    {
        Token { owner, balance, version }
    }
}

} // verus!
