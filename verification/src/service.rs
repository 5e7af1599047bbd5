//! The cache service: writes stamped by the expiry policy, reads that pass
//! over what has expired, and expiry on request.

use vstd::prelude::*;
use crate::key::{CacheKey, KeyView};
use crate::policy::{
    expiry_at, expiry_fits, expiry_hours, expiry_hours_for, expiry_instant, expiry_is_representable,
};
use crate::record::{fresh_record_id, live_at, CacheRecord, RecordId, Row};
use crate::store::{expired, id_in_use, upsert_id, upserted, CacheStore};
use crate::time::{current_time, Timestamp};

verus! {

/// The settings that the cache reads: a snapshot, fixed when the service is
/// made.
#[derive(Clone, Copy, Debug)]
pub struct CacheConfig {
    /// The hours for which a cached progress update stays valid.
    pub progress_update_threshold: i64,
}

/// Why a cache operation failed.
#[derive(Clone, Copy, Debug, PartialEq, Eq, Structural)]
pub enum CacheError {
    /// The value could not be encoded as a JSON document.
    SerializationError,
    /// The record could not be stored.
    StorageError,
}

/// The row that a write at `now` stores: the document `value` under the
/// identifier `id`, created at `now` and expiring as the time-to-live `ttl`
/// says.
pub open spec fn written_row(
    ttl: Option<i64>,
    value: serde_json::Value,
    now: Timestamp,
    id: RecordId,
) -> Row {
    Row { id, value, created_at: now, expires_at: expiry_instant(now, ttl) }
}

/// What a read of `key` at `now` finds in `table`: the document kept for the
/// key, unless there is none or it has expired.
pub open spec fn read_at(table: Map<KeyView, Row>, key: KeyView, now: Timestamp) -> Option<
    serde_json::Value,
> {
    if table.contains_key(key) && live_at(table[key].expires_at, now) {
        Some(table[key].value)
    } else {
        None
    }
}

/// Whether `found` is what a read gives that met `document` in the table
/// and decoded it with `decode`: nothing where there was no document or
/// `decode` failed on it, else the value that `decode` made of it.
pub open spec fn decodes_to<T, F: FnOnce(serde_json::Value) -> Result<T, serde_json::Error>>(
    document: Option<serde_json::Value>,
    decode: F,
    found: Option<T>,
) -> bool {
    match document {
        None => found is None,
        Some(document) => exists|decoded: Result<T, serde_json::Error>|
            #[trigger] decode.ensures((document,), decoded) && found == decoded_value(decoded),
    }
}

/// What a read makes of the outcome `decoded` of decoding the document it
/// found: the value, or nothing where decoding failed.
pub open spec fn decoded_value<T>(decoded: Result<T, serde_json::Error>) -> Option<T> {
    match decoded {
        Ok(value) => Some(value),
        Err(_) => None,
    }
}

/// Turns the outcome of decoding a cached document into the result of the
/// read: a document that does not decode is a miss, never an error.
pub fn decoded_or_miss<T>(decoded: Result<T, serde_json::Error>) -> (found: Option<T>)
    ensures
        found == decoded_value(decoded),
{
    match decoded {
        Ok(value) => Some(value),
        Err(_) => None,
    }
}

/// Whether an update that touched `affected` rows found a record to expire.
pub fn any_affected(affected: u64) -> (found: bool)
    ensures
        found == (affected > 0),
{
    affected > 0
}

/// The outcome of a write whose upsert reported `id`.
pub open spec fn write_outcome(id: Option<RecordId>) -> Result<RecordId, CacheError> {
    match id {
        Some(id) => Ok(id),
        None => Err(CacheError::StorageError),
    }
}

/// A cache of JSON documents, each kept under a `CacheKey` for as long as
/// the expiry policy gives its key.
pub struct CacheService {
    config: CacheConfig,
    store: CacheStore,
}

impl View for CacheService {
    type V = Map<KeyView, Row>;

    /// The records that the cache keeps, expired ones included.
    closed spec fn view(&self) -> Map<KeyView, Row> {
        self.store@
    }
}

impl CacheService {
    /// The configured progress update threshold, in hours.
    pub closed spec fn threshold(&self) -> i64 {
        self.config.progress_update_threshold
    }

    /// The time-to-live that the policy gives `key` in this cache.
    pub open spec fn ttl(&self, key: KeyView) -> Option<i64> {
        expiry_hours(key, self.threshold())
    }

    /// An empty cache that reads its settings from `config`.
    pub fn new(config: CacheConfig) -> (service: CacheService)
        ensures
            service.threshold() == config.progress_update_threshold,
            service@ == Map::<KeyView, Row>::empty(),
    {
        CacheService { config, store: CacheStore::new() }
    }

    /// A cache over the records of `store`, which reads its settings from
    /// `config`.
    pub fn with_store(store: CacheStore, config: CacheConfig) -> (service: CacheService)
        ensures
            service.threshold() == config.progress_update_threshold,
            service@ == store@,
    {
        CacheService { config, store }
    }

    /// The table that the cache keeps its records in.
    pub fn store(&self) -> (store: &CacheStore)
        ensures
            store@ == self@,
    {
        &self.store
    }

    /// The hours for which a value cached under `key` stays valid, or `None`
    /// where it never expires.
    pub fn get_expiry_for_key(&self, key: &CacheKey) -> (ttl: Option<i64>)
        ensures
            ttl == self.ttl(key@),
    {
        expiry_hours_for(key, self.config.progress_update_threshold)
    }

    /// Caches `value` under `key` as a write made at `now`, with `fresh` as
    /// the identifier of the record if the key has none yet.
    ///
    /// The record is created at `now` and expires as the policy says for
    /// `key`. A record that the key already has is overwritten and keeps
    /// its identifier. The identifier of the record written is returned.
    /// Where the key has no record and `fresh` is the identifier of another,
    /// the cache stays as it was and the write fails with `StorageError`.
    pub fn set_key_at(
        &mut self,
        key: CacheKey,
        value: serde_json::Value,
        now: Timestamp,
        fresh: RecordId,
    ) -> (outcome: Result<RecordId, CacheError>)
        requires
            expiry_fits(now, old(self).ttl(key@)),
        ensures
            final(self).threshold() == old(self).threshold(),
            final(self)@ == upserted(
                old(self)@,
                key@,
                written_row(old(self).ttl(key@), value, now, fresh),
            ),
            outcome == write_outcome(
                upsert_id(old(self)@, key@, written_row(old(self).ttl(key@), value, now, fresh)),
            ),
    {
        let ttl = self.get_expiry_for_key(&key);
        let expires_at = expiry_at(now, ttl);
        let record = CacheRecord { id: fresh, key, value, created_at: now, expires_at };
        match self.store.upsert(record) {
            Some(id) => Ok(id),
            None => Err(CacheError::StorageError),
        }
    }

    /// The document cached under `key`, as a read at `now` finds it: `None`
    /// where the key has no record, or one that has expired by `now`.
    pub fn get_value_at(&self, key: CacheKey, now: Timestamp) -> (found: Option<serde_json::Value>)
        ensures
            found == read_at(self@, key@, now),
    {
        match self.store.find_by_key(&key) {
            Some(record) => {
                if record.is_live(now) {
                    Some(record.value.clone())
                } else {
                    None
                }
            },
            None => None,
        }
    }

    /// Makes the record under `key` expire at `now`, so that reads from
    /// `now` on pass over it. Returns whether the key had a record.
    pub fn expire_key_at(&mut self, key: CacheKey, now: Timestamp) -> (outcome: Result<
        bool,
        CacheError,
    >)
        ensures
            final(self).threshold() == old(self).threshold(),
            final(self)@ == expired(old(self)@, key@, now),
            outcome == Ok::<bool, CacheError>(old(self)@.contains_key(key@)),
    {
        let affected = self.store.expire_matching(&key, now);
        Ok(any_affected(affected))
    }
}

impl CacheService {
    /// Caches `value` under `key`, as a write made now.
    ///
    /// `encode` turns the value into the JSON document that is kept. Where
    /// it fails, nothing is written and the call fails with
    /// `SerializationError`; no other failure comes of a value that was not
    /// encoded. Otherwise the clock is read, a new identifier is drawn, and
    /// the write is that of `set_key_at` with both, except where the expiry
    /// counted from the clock's reading cannot be held in a `Timestamp`:
    /// such a record cannot be stored, so nothing is written and the call
    /// fails with `StorageError`.
    pub fn set_key<T, F: FnOnce(T) -> Result<serde_json::Value, serde_json::Error>>(
        &mut self,
        key: CacheKey,
        value: T,
        encode: F,
    ) -> (outcome: Result<RecordId, CacheError>)
        requires
            encode.requires((value,)),
        ensures
            final(self).threshold() == old(self).threshold(),
            match outcome {
                Ok(id) => exists|document: serde_json::Value, now: Timestamp, fresh: RecordId|
                    #![trigger written_row(old(self).ttl(key@), document, now, fresh)]
                    {
                        &&& encode.ensures((value,), Ok(document))
                        &&& expiry_fits(now, old(self).ttl(key@))
                        &&& final(self)@ == upserted(
                            old(self)@,
                            key@,
                            written_row(old(self).ttl(key@), document, now, fresh),
                        )
                        &&& upsert_id(
                            old(self)@,
                            key@,
                            written_row(old(self).ttl(key@), document, now, fresh),
                        ) == Some(id)
                    },
                Err(CacheError::SerializationError) => {
                    &&& final(self)@ == old(self)@
                    &&& exists|e: serde_json::Error| encode.ensures((value,), Err(e))
                },
                Err(CacheError::StorageError) => {
                    &&& final(self)@ == old(self)@
                    &&& exists|document: serde_json::Value|
                        encode.ensures((value,), Ok(document))
                    &&& {
                        ||| exists|now: Timestamp| !expiry_fits(now, old(self).ttl(key@))
                        ||| {
                            &&& !old(self)@.contains_key(key@)
                            &&& exists|fresh: RecordId| id_in_use(old(self)@, fresh)
                        }
                    }
                },
            },
    {
        match encode(value) {
            Err(_) => Err(CacheError::SerializationError),
            Ok(document) => {
                assert(encode.ensures((value,), Ok(document)));
                let now = current_time();
                let ttl = self.get_expiry_for_key(&key);
                if expiry_is_representable(now, ttl) {
                    let fresh = fresh_record_id();
                    self.set_key_at(key, document, now, fresh)
                } else {
                    assert(!expiry_fits(now, self.ttl(key@)));
                    Err(CacheError::StorageError)
                }
            },
        }
    }

    /// The value cached under `key`, as a read made now finds it.
    ///
    /// `decode` turns the document kept into the value asked for. The
    /// result is `None` where the key has no record, where its record has
    /// expired, and where `decode` fails on the document: a document of
    /// another shape is a miss, never an error.
    pub fn get_value<T, F: FnOnce(serde_json::Value) -> Result<T, serde_json::Error>>(
        &self,
        key: CacheKey,
        decode: F,
    ) -> (found: Option<T>)
        requires
            forall|document: serde_json::Value| decode.requires((document,)),
        ensures
            exists|now: Timestamp| #[trigger]
                decodes_to(read_at(self@, key@, now), decode, found),
    {
        let now = current_time();
        let found = match self.get_value_at(key, now) {
            None => None,
            Some(document) => {
                let decoded = decode(document);
                assert(decode.ensures((document,), decoded));
                decoded_or_miss(decoded)
            },
        };
        assert(decodes_to(read_at(self@, key@, now), decode, found));
        found
    }

    /// Makes the record under `key` expire now, so that later reads pass
    /// over it. Returns whether the key had a record.
    pub fn expire_key(&mut self, key: CacheKey) -> (outcome: Result<bool, CacheError>)
        ensures
            final(self).threshold() == old(self).threshold(),
            exists|now: Timestamp| final(self)@ == expired(old(self)@, key@, now),
            outcome == Ok::<bool, CacheError>(old(self)@.contains_key(key@)),
    {
        let now = current_time();
        self.expire_key_at(key, now)
    }
}

} // verus!
