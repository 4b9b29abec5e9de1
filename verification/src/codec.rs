//! The serialization contract for structured records.
//!
//! A [`Token`](crate::token::Token) is encoded as a tag byte, the
//! little-endian balance, the little-endian version, and the owner
//! bytes, in that order.  Decoding rejects anything shorter than the
//! fixed header or carrying the wrong tag.  Encoding and decoding are
//! exact inverses: see [`lemma_token_round_trip`].

use vstd::prelude::*;
use vstd::bytes::lemma_auto_spec_u32_to_from_le_bytes;
use vstd::bytes::lemma_auto_spec_u64_to_from_le_bytes;
use vstd::bytes::spec_u32_from_le_bytes;
use vstd::bytes::spec_u32_to_le_bytes;
use vstd::bytes::spec_u64_from_le_bytes;
use vstd::bytes::spec_u64_to_le_bytes;
use vstd::bytes::u32_from_le_bytes;
use vstd::bytes::u32_to_le_bytes;
use vstd::bytes::u64_from_le_bytes;
use vstd::bytes::u64_to_le_bytes;
use vstd::slice::slice_subrange;
use crate::errors::DataError;
use crate::token::Token;
use crate::token::TokenValue;

verus! {

/// First byte of every encoded record.
pub const TOKEN_TAG: u8 = 1;

/// Bytes before the owner field: the tag, the balance, the version.
pub const TOKEN_HEADER_LEN: usize = 13;

/// The byte sequence that encodes a record value.
pub open spec fn spec_serialize_token(t: TokenValue) -> Seq<u8> {
    seq![TOKEN_TAG] + spec_u64_to_le_bytes(t.balance) + spec_u32_to_le_bytes(t.version) + t.owner
}

/// The record value a byte sequence decodes to, or `None` where the
/// bytes are malformed.
pub open spec fn spec_deserialize_token(b: Seq<u8>) -> Option<TokenValue> {
    if b.len() >= TOKEN_HEADER_LEN && b[0] == TOKEN_TAG {
        Some(
            TokenValue {
                owner: b.subrange(TOKEN_HEADER_LEN as int, b.len() as int),
                balance: spec_u64_from_le_bytes(b.subrange(1, 9)),
                version: spec_u32_from_le_bytes(b.subrange(9, 13)),
            },
        )
    } else {
        None
    }
}

/// Decoding inverts encoding: every representable record value decodes
/// from its own encoding, unchanged.
pub proof fn lemma_token_round_trip(t: TokenValue)
    ensures
        spec_deserialize_token(spec_serialize_token(t)) == Some(t),
{
    lemma_auto_spec_u64_to_from_le_bytes();
    lemma_auto_spec_u32_to_from_le_bytes();
    let b = spec_serialize_token(t);
    assert(b.subrange(1, 9) =~= spec_u64_to_le_bytes(t.balance));
    assert(b.subrange(9, 13) =~= spec_u32_to_le_bytes(t.version));
    assert(b.subrange(TOKEN_HEADER_LEN as int, b.len() as int) =~= t.owner);
}

/// Encoding is injective: two record values with the same encoding
/// are the same record, so the codec never conflates stored records.
pub proof fn lemma_token_encoding_injective(t1: TokenValue, t2: TokenValue)
    requires
        spec_serialize_token(t1) == spec_serialize_token(t2),
    ensures
        t1 == t2,
{
    lemma_token_round_trip(t1);
    lemma_token_round_trip(t2);
}

/// Encodes a record.  Encoding is total: it cannot fail.
pub fn serialize_token(t: &Token) -> (out: Vec<u8>)
    ensures
        out@ == spec_serialize_token(t@),
{
    proof {
        lemma_auto_spec_u64_to_from_le_bytes();
        lemma_auto_spec_u32_to_from_le_bytes();
    }
    let mut out: Vec<u8> = Vec::new();
    out.push(TOKEN_TAG);
    let mut balance_bytes = u64_to_le_bytes(t.balance);
    out.append(&mut balance_bytes);
    let mut version_bytes = u32_to_le_bytes(t.version);
    out.append(&mut version_bytes);
    let mut i: usize = 0;
    while i < t.owner.len()
        invariant
            i <= t.owner@.len(),
            out@ == seq![TOKEN_TAG] + spec_u64_to_le_bytes(t.balance) + spec_u32_to_le_bytes(
                t.version,
            ) + t.owner@.subrange(0, i as int),
        decreases t.owner@.len() - i,
    {
        out.push(t.owner[i]);
        i = i + 1;
        proof {
            assert(t.owner@.subrange(0, i as int) =~= t.owner@.subrange(0, i - 1) + seq![
                t.owner@[i - 1],
            ]);
        }
    }
    proof {
        assert(t.owner@.subrange(0, t.owner@.len() as int) =~= t.owner@);
        assert(out@ =~= spec_serialize_token(t@));
    }
    out
}

/// Decodes a record, failing with `DeserializationError` exactly on the
/// byte sequences that encode no record.
pub fn deserialize_token(b: &[u8]) -> (r: Result<Token, DataError>)
    ensures
        match r {
            Ok(t) => spec_deserialize_token(b@) == Some(t@),
            Err(e) => e == DataError::DeserializationError && spec_deserialize_token(b@) is None,
        },
{
    if b.len() < TOKEN_HEADER_LEN {
        return Err(DataError::DeserializationError);
    }
    let tag = b[0];
    if tag != TOKEN_TAG {
        return Err(DataError::DeserializationError);
    }
    let balance = u64_from_le_bytes(slice_subrange(b, 1, 9));
    let version = u32_from_le_bytes(slice_subrange(b, 9, 13));
    let mut owner: Vec<u8> = Vec::new();
    let mut i: usize = TOKEN_HEADER_LEN;
    while i < b.len()
        invariant
            TOKEN_HEADER_LEN <= i <= b@.len(),
            owner@ == b@.subrange(TOKEN_HEADER_LEN as int, i as int),
        decreases b@.len() - i,
    {
        owner.push(b[i]);
        i = i + 1;
        proof {
            assert(b@.subrange(TOKEN_HEADER_LEN as int, i as int) =~= b@.subrange(
                TOKEN_HEADER_LEN as int,
                i - 1,
            ) + seq![b@[i - 1]]);
        }
    }
    let t = Token { owner, balance, version };
    proof {
        assert(spec_deserialize_token(b@) == Some(t@));
    }
    Ok(t)
}

} // verus!
