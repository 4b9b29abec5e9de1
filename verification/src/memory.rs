//! A log-structured, in-memory storage backend.
//!
//! Every save appends one entry tagged with its partition and key; a
//! load scans from the newest entry backwards, so the newest write
//! wins.  The backend counts its calls and can be told to fail every
//! save, which makes it the substitutable test double the backend
//! abstraction calls for, as well as a complete in-process store.

use vstd::prelude::*;
use vstd::slice::slice_to_vec;
use crate::backend::Db;
use crate::errors::DataError;

verus! {

/// The store one partition sees in an entry log: newest entry wins.
pub open spec fn log_view(entries: Seq<(String, Vec<u8>, Vec<u8>)>, p: Seq<char>) -> Map<
    Seq<u8>,
    Seq<u8>,
>
    decreases entries.len(),
{
    if entries.len() == 0 {
        Map::empty()
    } else {
        let rest = log_view(entries.drop_last(), p);
        if entries.last().0@ == p {
            rest.insert(entries.last().1@, entries.last().2@)
        } else {
            rest
        }
    }
}

/// An entry whose partition and key match nothing newer fixes the
/// partition's value for that key.
proof fn lemma_log_match(s: Seq<(String, Vec<u8>, Vec<u8>)>, p: Seq<char>, k: Seq<u8>, i: int)
    requires
        0 <= i < s.len(),
        s[i].0@ == p,
        s[i].1@ == k,
        forall|j: int| i < j < s.len() ==> !((#[trigger] s[j]).0@ == p && s[j].1@ == k),
    ensures
        log_view(s, p).contains_key(k),
        log_view(s, p)[k] == s[i].2@,
    decreases s.len(),
{
    if i < s.len() - 1 {
        lemma_log_match(s.drop_last(), p, k, i);
    }
}

/// A key no entry of the partition carries is absent from its store.
proof fn lemma_log_absent(s: Seq<(String, Vec<u8>, Vec<u8>)>, p: Seq<char>, k: Seq<u8>)
    requires
        forall|j: int| 0 <= j < s.len() ==> !((#[trigger] s[j]).0@ == p && s[j].1@ == k),
    ensures
        !log_view(s, p).contains_key(k),
    decreases s.len(),
{
    if s.len() > 0 {
        lemma_log_absent(s.drop_last(), p, k);
    }
}

/// Byte-wise equality of two keys.
fn bytes_eq(a: &Vec<u8>, b: &Vec<u8>) -> (r: bool)
    ensures
        r == (a@ == b@),
{
    if a.len() != b.len() {
        return false;
    }
    let mut i: usize = 0;
    while i < a.len()
        invariant
            i <= a@.len(),
            a@.len() == b@.len(),
            forall|j: int| 0 <= j < i ==> a@[j] == b@[j],
        decreases a@.len() - i,
    {
        if a[i] != b[i] {
            return false;
        }
        i = i + 1;
    }
    proof {
        assert(a@ =~= b@);
    }
    true
}

/// The in-memory backend: an append-only entry log plus the test
/// instrumentation the layer's properties ask for.
pub struct MemoryDb {
    /// The append-only entry log: partition, key, value, oldest first.
    pub entries: Vec<(String, Vec<u8>, Vec<u8>)>,
    /// How many loads this backend has served.
    pub get_calls: u64,
    /// How many saves this backend has been asked for.
    pub put_calls: u64,
    /// While set, every save fails with a backend error and stores
    /// nothing.
    pub fail_puts: bool,
}

impl MemoryDb {
    /// A fresh backend: every partition's store is empty.
    pub fn new() -> (db: MemoryDb)
        ensures
            forall|p: Seq<char>| #[trigger] db.store(p) == Map::<Seq<u8>, Seq<u8>>::empty(),
            db.get_calls == 0,
            db.put_calls == 0,
            !db.fail_puts,
    {
        MemoryDb { entries: Vec::new(), get_calls: 0, put_calls: 0, fail_puts: false }
    }
}

impl Db for MemoryDb {
    closed spec fn store(&self, partition: Seq<char>) -> Map<Seq<u8>, Seq<u8>> {
        log_view(self.entries@, partition)
    }

    fn get_data(&mut self, key: &Vec<u8>, partition_id: &str) -> (r: Result<Vec<u8>, DataError>)
        ensures
            r is Ok <==> old(self).store(partition_id@).contains_key(key@),
            final(self).fail_puts == old(self).fail_puts,
    {
        if self.get_calls < u64::MAX {
            self.get_calls = self.get_calls + 1;
        }
        let pid: String = partition_id.to_owned();
        let mut i: usize = self.entries.len();
        while i > 0
            invariant
                i <= self.entries@.len(),
                pid@ == partition_id@,
                self.entries == old(self).entries,
                self.put_calls == old(self).put_calls,
                self.fail_puts == old(self).fail_puts,
                forall|j: int|
                    i <= j < self.entries@.len() ==> !((#[trigger] self.entries@[j]).0@
                        == partition_id@ && self.entries@[j].1@ == key@),
            decreases i,
        {
            i = i - 1;
            if self.entries[i].0 == pid && bytes_eq(&self.entries[i].1, key) {
                let value = slice_to_vec(self.entries[i].2.as_slice());
                proof {
                    lemma_log_match(self.entries@, partition_id@, key@, i as int);
                }
                return Ok(value);
            }
        }
        proof {
            lemma_log_absent(self.entries@, partition_id@, key@);
        }
        Err(DataError::DataNotFound)
    }

    fn save_data(&mut self, key: &Vec<u8>, data: &Vec<u8>, partition_id: &str) -> (r: Result<
        (),
        DataError,
    >)
        ensures
            r is Ok <==> !old(self).fail_puts,
            final(self).fail_puts == old(self).fail_puts,
    {
        if self.put_calls < u64::MAX {
            self.put_calls = self.put_calls + 1;
        }
        if self.fail_puts {
            let msg = "injected backend failure".to_owned();
            return Err(DataError::FromStore(msg));
        }
        let pid: String = partition_id.to_owned();
        let owned_key = slice_to_vec(key.as_slice());
        let owned_data = slice_to_vec(data.as_slice());
        let ghost before = self.entries@;
        self.entries.push((pid, owned_key, owned_data));
        proof {
            assert(self.entries@.drop_last() =~= before);
            assert forall|p: Seq<char>| p != partition_id@ implies #[trigger] log_view(
                self.entries@,
                p,
            ) == log_view(before, p) by {}
        }
        Ok(())
    }
}

} // verus!
