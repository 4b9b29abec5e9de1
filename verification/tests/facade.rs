//! End-to-end behaviour of the data provider facade over the
//! in-memory backend.

use pneumatic_data::backend::Db;
use pneumatic_data::codec::serialize_token;
use pneumatic_data::errors::DataError;
use pneumatic_data::handle::TokenHandle;
use pneumatic_data::memory::MemoryDb;
use pneumatic_data::record_cache::MAX_IDLE_SECS;
use pneumatic_data::provider::SafeDataProvider;
use pneumatic_data::token::Token;

fn fresh_provider() -> SafeDataProvider<MemoryDb> {
    SafeDataProvider::new(MemoryDb::new(), 30, 30)
}

#[test]
fn save_then_get_data_round_trips() {
    let mut provider = fresh_provider();
    let key = vec![1u8, 2, 3];
    let r = provider.save_data(&key, vec![1u8, 2, 3], "part-A");
    assert!(r.is_ok());
    let handle = provider.get_data(&key, "part-A").unwrap();
    assert_eq!(handle.read().unwrap(), vec![1u8, 2, 3]);
}

#[test]
fn partition_isolation_for_data() {
    let mut provider = fresh_provider();
    let key = vec![1u8, 2, 3];
    provider.save_data(&key, vec![1u8, 2, 3], "part-A").unwrap();
    let other = provider.get_data(&key, "part-B");
    assert_eq!(other.unwrap_err(), DataError::DataNotFound);
}

#[test]
fn cache_miss_loads_from_backend_then_hits_cache() {
    let mut db = MemoryDb::new();
    let key = vec![10u8, 11];
    db.save_data(&key, &vec![42u8, 43], "part-A").unwrap();
    let puts_before = db.put_calls;
    let mut provider = SafeDataProvider::new(db, 30, 30);

    let first = provider.get_data(&key, "part-A").unwrap();
    assert_eq!(first.read().unwrap(), vec![42u8, 43]);
    assert_eq!(provider.backend.get_calls, 1);

    let second = provider.get_data(&key, "part-A").unwrap();
    assert_eq!(second.read().unwrap(), vec![42u8, 43]);
    assert_eq!(provider.backend.get_calls, 1);
    assert_eq!(provider.backend.put_calls, puts_before);
}

#[test]
fn failed_put_returns_error_and_leaves_cache_empty() {
    let mut provider = fresh_provider();
    provider.backend.fail_puts = true;
    let key = vec![7u8];
    let r = provider.save_data(&key, vec![9u8], "part-A");
    assert!(matches!(r.unwrap_err(), DataError::FromStore(_)));

    provider.backend.fail_puts = false;
    let after = provider.get_data(&key, "part-A");
    assert_eq!(after.unwrap_err(), DataError::DataNotFound);
}

#[test]
fn failed_put_keeps_old_value_authoritative() {
    let mut provider = fresh_provider();
    let key = vec![7u8];
    provider.save_data(&key, vec![1u8], "part-A").unwrap();
    provider.backend.fail_puts = true;
    let r = provider.save_data(&key, vec![2u8], "part-A");
    assert!(r.is_err());
    provider.backend.fail_puts = false;
    let handle = provider.get_data(&key, "part-A").unwrap();
    assert_eq!(handle.read().unwrap(), vec![1u8]);
}

#[test]
fn unknown_key_is_not_found_not_empty() {
    let mut provider = fresh_provider();
    let r = provider.get_data(&vec![99u8], "part-A");
    assert_eq!(r.unwrap_err(), DataError::DataNotFound);
}

#[test]
fn save_token_then_get_token_shares_content() {
    let mut provider = fresh_provider();
    let key = vec![5u8, 6];
    let token = Token::new(vec![1u8, 1, 2], 500, 2);
    let handle = TokenHandle::new(token.clone());
    provider.save_token(&key, handle, "part-A").unwrap();

    let first = provider.get_token(&key, "part-A").unwrap();
    let second = provider.get_token(&key, "part-A").unwrap();
    assert_eq!(first.read().unwrap(), token);
    assert_eq!(second.read().unwrap(), token);
}

#[test]
fn get_token_loads_and_decodes_from_backend() {
    let mut db = MemoryDb::new();
    let key = vec![5u8];
    let token = Token::new(vec![9u8, 9], 77, 1);
    db.save_data(&key, &serialize_token(&token), "part-A").unwrap();
    let mut provider = SafeDataProvider::new(db, 30, 30);

    let handle = provider.get_token(&key, "part-A").unwrap();
    assert_eq!(handle.read().unwrap(), token);
    assert_eq!(provider.backend.get_calls, 1);

    provider.get_token(&key, "part-A").unwrap();
    assert_eq!(provider.backend.get_calls, 1);
}

#[test]
fn get_token_on_malformed_bytes_is_deserialization_error() {
    let mut provider = fresh_provider();
    let key = vec![3u8];
    provider.save_data(&key, vec![0u8, 0, 0], "part-A").unwrap();
    let r = provider.get_token(&key, "part-A");
    assert_eq!(r.unwrap_err(), DataError::DeserializationError);
}

#[test]
fn get_token_unknown_key_is_not_found() {
    let mut provider = fresh_provider();
    let r = provider.get_token(&vec![1u8], "part-A");
    assert_eq!(r.unwrap_err(), DataError::DataNotFound);
}

#[test]
fn save_typed_data_stores_encoded_token() {
    let mut provider = fresh_provider();
    let key = vec![8u8];
    let token = Token::new(vec![4u8], 12, 9);
    provider.save_typed_data(&key, &token, "part-A").unwrap();

    let blob = provider.get_data(&key, "part-A").unwrap();
    assert_eq!(blob.read().unwrap(), serialize_token(&token));

    let decoded = provider.get_token(&key, "part-A").unwrap();
    assert_eq!(decoded.read().unwrap(), token);
}

#[test]
fn save_locked_data_persists_current_record() {
    let mut provider = fresh_provider();
    let key = vec![2u8, 2];
    let token = Token::new(vec![6u8, 6], 1000, 4);
    let handle = TokenHandle::new(token.clone());
    provider.save_locked_data(&key, &handle, "part-A").unwrap();

    let blob = provider.get_data(&key, "part-A").unwrap();
    assert_eq!(blob.read().unwrap(), serialize_token(&token));
}

#[test]
fn save_token_failed_put_leaves_token_cache_empty() {
    let mut provider = fresh_provider();
    provider.backend.fail_puts = true;
    let key = vec![4u8];
    let handle = TokenHandle::new(Token::new(vec![1u8], 1, 1));
    let r = provider.save_token(&key, handle, "part-A");
    assert!(matches!(r.unwrap_err(), DataError::FromStore(_)));

    provider.backend.fail_puts = false;
    let after = provider.get_token(&key, "part-A");
    assert_eq!(after.unwrap_err(), DataError::DataNotFound);
}

#[test]
fn builder_accepts_the_longest_idle_duration() {
    let mut provider = SafeDataProvider::new(MemoryDb::new(), MAX_IDLE_SECS, MAX_IDLE_SECS);
    let key = vec![14u8];
    provider.save_data(&key, vec![5u8], "part-A").unwrap();
    let handle = provider.get_data(&key, "part-A").unwrap();
    assert_eq!(handle.read().unwrap(), vec![5u8]);
}

#[test]
fn idle_entry_expires_and_next_access_reloads() {
    let mut db = MemoryDb::new();
    let key = vec![12u8];
    db.save_data(&key, &vec![1u8], "part-A").unwrap();
    let mut provider = SafeDataProvider::new(db, 1, 1);

    provider.get_data(&key, "part-A").unwrap();
    assert_eq!(provider.backend.get_calls, 1);

    let start = std::time::Instant::now();
    while start.elapsed() < std::time::Duration::from_millis(1300) {
        std::hint::spin_loop();
    }

    let reloaded = provider.get_data(&key, "part-A").unwrap();
    assert_eq!(reloaded.read().unwrap(), vec![1u8]);
    assert_eq!(provider.backend.get_calls, 2);
}

#[test]
fn partitions_do_not_share_token_entries() {
    let mut provider = fresh_provider();
    let key = vec![1u8];
    let handle = TokenHandle::new(Token::new(vec![2u8], 2, 2));
    provider.save_token(&key, handle, "part-A").unwrap();
    let r = provider.get_token(&key, "part-B");
    assert_eq!(r.unwrap_err(), DataError::DataNotFound);
}
