//! Cache records: what is kept for one key.

use vstd::prelude::*;
use crate::key::CacheKey;
use crate::time::Timestamp;

verus! {

/// The surrogate identifier of a record: the 128 bits of a UUID.
#[derive(Clone, Copy, Debug, PartialEq, Eq, Structural, Hash)]
pub struct RecordId(pub u128);

/// An identifier for a new record: a random version-4 UUID from
/// `uuid::Uuid::new_v4`, as the number that `Uuid::as_u128` gives for it.
///
/// Trusted, and nothing is claimed of the identifier: a random one may
/// repeat an earlier one, so whoever inserts with it checks. `uuid` stops
/// the program when the system's source of randomness fails.
#[verifier::external_body]
pub(crate) fn fresh_record_id() -> RecordId {
    RecordId(uuid::Uuid::new_v4().as_u128())
}

/// One persisted row: a key, the JSON document cached for it, the instant of
/// the write that produced it, and the instant from which it no longer
/// counts, if there is one.
#[derive(Clone, Debug, PartialEq, Eq)]
pub struct CacheRecord {
    pub id: RecordId,
    pub key: CacheKey,
    pub value: serde_json::Value,
    pub created_at: Timestamp,
    pub expires_at: Option<Timestamp>,
}

/// What a record holds besides its key.
pub struct Row {
    pub id: RecordId,
    pub value: serde_json::Value,
    pub created_at: Timestamp,
    pub expires_at: Option<Timestamp>,
}

/// Whether something that expires at `expires_at` still counts at `now`:
/// it never expires, or its expiry lies strictly in the future.
pub open spec fn live_at(expires_at: Option<Timestamp>, now: Timestamp) -> bool {
    match expires_at {
        None => true,
        Some(end) => end.micros > now.micros,
    }
}

impl CacheRecord {
    /// The record without its key.
    pub open spec fn row(&self) -> Row {
        Row {
            id: self.id,
            value: self.value,
            created_at: self.created_at,
            expires_at: self.expires_at,
        }
    }

    /// Whether a read at `now` may still return this record.
    pub fn is_live(&self, now: Timestamp) -> (r: bool)
        ensures
            r == live_at(self.expires_at, now),
    {
        match self.expires_at {
            None => true,
            Some(end) => end.is_after(now),
        }
    }
}

} // verus!
