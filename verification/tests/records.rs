//! The record codec, the shared handles, the error kinds, and the
//! in-memory backend on their own.

use pneumatic_data::backend::Db;
use pneumatic_data::codec::deserialize_token;
use pneumatic_data::codec::serialize_token;
use pneumatic_data::errors::DataError;
use pneumatic_data::handle::DataHandle;
use pneumatic_data::handle::TokenHandle;
use pneumatic_data::memory::MemoryDb;
use pneumatic_data::token::Token;

#[test]
fn serialization_round_trips() {
    let samples = vec![
        Token::new(vec![], 0, 0),
        Token::new(vec![1u8], 1, 1),
        Token::new(vec![255u8; 40], u64::MAX, u32::MAX),
        Token::new(vec![0u8, 1, 2, 3, 4, 5], 123_456_789, 42),
    ];
    for token in samples {
        let bytes = serialize_token(&token);
        let back = deserialize_token(bytes.as_slice()).unwrap();
        assert_eq!(back, token);
    }
}

#[test]
fn serialized_layout_is_tag_balance_version_owner() {
    let token = Token::new(vec![0xAA, 0xBB], 0x0102030405060708, 0x0A0B0C0D);
    let bytes = serialize_token(&token);
    let expected = vec![
        1u8, 0x08, 0x07, 0x06, 0x05, 0x04, 0x03, 0x02, 0x01, 0x0D, 0x0C, 0x0B, 0x0A, 0xAA, 0xBB,
    ];
    assert_eq!(bytes, expected);
}

#[test]
fn short_or_mistagged_bytes_fail_to_decode() {
    assert_eq!(
        deserialize_token(&[]).unwrap_err(),
        DataError::DeserializationError
    );
    assert_eq!(
        deserialize_token(&[1u8, 2, 3]).unwrap_err(),
        DataError::DeserializationError
    );
    let mut wrong_tag = serialize_token(&Token::new(vec![], 5, 5));
    wrong_tag[0] = 9;
    assert_eq!(
        deserialize_token(wrong_tag.as_slice()).unwrap_err(),
        DataError::DeserializationError
    );
}

#[test]
fn token_handle_shares_one_record() {
    let token = Token::new(vec![3u8, 4], 9, 1);
    let handle = TokenHandle::new(token.clone());
    let alias = handle.clone();
    assert_eq!(handle.read().unwrap(), token);
    assert_eq!(alias.read().unwrap(), token);
}

#[test]
fn data_handle_holds_its_bytes() {
    let handle = DataHandle::new(vec![9u8, 8, 7]);
    assert_eq!(handle.read().unwrap(), vec![9u8, 8, 7]);
    assert_eq!(handle.clone().read().unwrap(), vec![9u8, 8, 7]);
}

#[test]
fn memory_backend_newest_write_wins() {
    let mut db = MemoryDb::new();
    let key = vec![1u8];
    db.save_data(&key, &vec![1u8], "p").unwrap();
    db.save_data(&key, &vec![2u8], "p").unwrap();
    assert_eq!(db.get_data(&key, "p").unwrap(), vec![2u8]);
}

#[test]
fn memory_backend_partitions_are_independent() {
    let mut db = MemoryDb::new();
    let key = vec![1u8];
    db.save_data(&key, &vec![1u8], "left").unwrap();
    assert_eq!(db.get_data(&key, "right").unwrap_err(), DataError::DataNotFound);
    assert_eq!(db.get_data(&key, "left").unwrap(), vec![1u8]);
}

#[test]
fn memory_backend_counts_calls_and_injects_failures() {
    let mut db = MemoryDb::new();
    let key = vec![1u8];
    assert_eq!(db.get_calls, 0);
    assert_eq!(db.put_calls, 0);
    let _ = db.get_data(&key, "p");
    assert_eq!(db.get_calls, 1);
    db.fail_puts = true;
    let r = db.save_data(&key, &vec![5u8], "p");
    assert!(matches!(r.unwrap_err(), DataError::FromStore(_)));
    assert_eq!(db.put_calls, 1);
    assert_eq!(db.get_data(&key, "p").unwrap_err(), DataError::DataNotFound);
}

#[test]
fn error_kinds_describe_themselves() {
    let kinds = vec![
        DataError::DataNotFound,
        DataError::DeserializationError,
        DataError::SerializationError,
        DataError::Poisoned,
        DataError::CacheError,
        DataError::FromStore("backend says no".to_owned()),
    ];
    for kind in kinds {
        assert!(!kind.describe().is_empty());
    }
}

#[test]
fn token_new_keeps_its_fields() {
    let token = Token::new(vec![1u8, 2], 77, 3);
    assert_eq!(token.owner, vec![1u8, 2]);
    assert_eq!(token.balance, 77);
    assert_eq!(token.version, 3);
}
