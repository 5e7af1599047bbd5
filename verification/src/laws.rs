//! What holds of the cache whatever it keeps: the properties that relate
//! writes, reads and expiry to one another.
//!
//! Each is stated over the table that the service shows as its view, with
//! the functions in which the contracts of the service speak.

use vstd::prelude::*;
use crate::key::KeyView;
use crate::policy::{expiry_fits, expiry_hours, expiry_instant};
use crate::record::{RecordId, Row};
use crate::service::{read_at, written_row};
use crate::store::{expired, ids_distinct, rows_matching, upsert_id, upserted};
use crate::time::{hours_after, Timestamp};

verus! {

/// The policy gives every key an answer, and the answer depends on the kind
/// of the key alone: settings never expire, and every other key lives a
/// number of hours that is one, two, eight, or the configured threshold.
pub proof fn policy_is_total(key: KeyView, threshold: i64)
    ensures
        expiry_hours(key, threshold) is None <==> (key is IgdbSettings
            || key is ListennotesSettings || key is TmdbSettings),
        (key is CoreDetails || key is PeopleSearch || key is MetadataSearch
            || key is MetadataGroupSearch || key is MetadataRecentlyConsumed) ==> expiry_hours(
            key,
            threshold,
        ) == Some(1i64),
        key is UserAnalytics ==> expiry_hours(key, threshold) == Some(2i64),
        (key is UserCollectionsList || key is UserAnalyticsParameters) ==> expiry_hours(
            key,
            threshold,
        ) == Some(8i64),
        key is ProgressUpdateCache ==> expiry_hours(key, threshold) == Some(threshold),
{
}

/// A write stamps the record it leaves: after a write of `value` under
/// `key` at `now` that succeeded, the key has a record that holds `value`,
/// was created at `now`, and expires as the policy says for the key,
/// counted from `now`. Its identifier is the one reported, and the one
/// that the key's record had where there was one.
pub proof fn write_stamps_record(
    table: Map<KeyView, Row>,
    threshold: i64,
    key: KeyView,
    value: serde_json::Value,
    now: Timestamp,
    fresh: RecordId,
)
    requires
        upsert_id(table, key, written_row(expiry_hours(key, threshold), value, now, fresh))
            is Some,
    ensures
        ({
            let row = written_row(expiry_hours(key, threshold), value, now, fresh);
            let after = upserted(table, key, row);
            &&& after.contains_key(key)
            &&& after[key].value == value
            &&& after[key].created_at == now
            &&& after[key].expires_at == expiry_instant(now, expiry_hours(key, threshold))
            &&& upsert_id(table, key, row) == Some(after[key].id)
            &&& table.contains_key(key) ==> after[key].id == table[key].id
            &&& !table.contains_key(key) ==> after[key].id == fresh
        }),
{
}

/// A value that was just written is read back: after a write of `value`
/// under `key` at `now` that succeeded, a read of `key` at `now` gives
/// `value`, provided the key never expires or lives a positive number of
/// hours.
pub proof fn write_then_read(
    table: Map<KeyView, Row>,
    threshold: i64,
    key: KeyView,
    value: serde_json::Value,
    now: Timestamp,
    fresh: RecordId,
)
    requires
        expiry_fits(now, expiry_hours(key, threshold)),
        expiry_hours(key, threshold) matches Some(hours) ==> hours > 0,
        upsert_id(table, key, written_row(expiry_hours(key, threshold), value, now, fresh))
            is Some,
    ensures
        read_at(
            upserted(table, key, written_row(expiry_hours(key, threshold), value, now, fresh)),
            key,
            now,
        ) == Some(value),
{
}

/// The later of two writes under one key wins, and the key still has a
/// single record: the second write keeps the keys of the table and the
/// identifier that the first one reported, and a read at the instant of
/// the second write gives the second value.
pub proof fn last_write_wins(
    table: Map<KeyView, Row>,
    threshold: i64,
    key: KeyView,
    first: serde_json::Value,
    first_at: Timestamp,
    first_id: RecordId,
    second: serde_json::Value,
    second_at: Timestamp,
    second_id: RecordId,
)
    requires
        expiry_fits(first_at, expiry_hours(key, threshold)),
        expiry_fits(second_at, expiry_hours(key, threshold)),
        expiry_hours(key, threshold) matches Some(hours) ==> hours > 0,
        upsert_id(
            table,
            key,
            written_row(expiry_hours(key, threshold), first, first_at, first_id),
        ) is Some,
    ensures
        ({
            let ttl = expiry_hours(key, threshold);
            let once = upserted(table, key, written_row(ttl, first, first_at, first_id));
            let twice = upserted(once, key, written_row(ttl, second, second_at, second_id));
            &&& read_at(twice, key, second_at) == Some(second)
            &&& twice.dom() == once.dom()
            &&& upsert_id(once, key, written_row(ttl, second, second_at, second_id))
                == upsert_id(table, key, written_row(ttl, first, first_at, first_id))
            &&& twice[key].created_at == second_at
        }),
{
    let ttl = expiry_hours(key, threshold);
    let once = upserted(table, key, written_row(ttl, first, first_at, first_id));
    let twice = upserted(once, key, written_row(ttl, second, second_at, second_id));
    assert(once.contains_key(key));
    assert(twice.dom() =~= once.dom());
}

/// A value is gone once its time is up: after a write under a key that
/// lives `hours` hours, a read at any instant from `hours` hours after the
/// write on finds nothing.
pub proof fn read_after_expiry(
    table: Map<KeyView, Row>,
    threshold: i64,
    key: KeyView,
    value: serde_json::Value,
    now: Timestamp,
    fresh: RecordId,
    later: Timestamp,
)
    requires
        expiry_fits(now, expiry_hours(key, threshold)),
        upsert_id(table, key, written_row(expiry_hours(key, threshold), value, now, fresh))
            is Some,
        expiry_hours(key, threshold) matches Some(hours) && later.micros >= hours_after(
            now,
            hours,
        ),
    ensures
        read_at(
            upserted(table, key, written_row(expiry_hours(key, threshold), value, now, fresh)),
            key,
            later,
        ) is None,
{
}

/// Until its time is up a value stays: after a write under a key, a read at
/// any instant before the expiry of the write gives the value.
pub proof fn read_before_expiry(
    table: Map<KeyView, Row>,
    threshold: i64,
    key: KeyView,
    value: serde_json::Value,
    now: Timestamp,
    fresh: RecordId,
    later: Timestamp,
)
    requires
        expiry_fits(now, expiry_hours(key, threshold)),
        upsert_id(table, key, written_row(expiry_hours(key, threshold), value, now, fresh))
            is Some,
        expiry_hours(key, threshold) matches Some(hours) ==> later.micros < hours_after(
            now,
            hours,
        ),
    ensures
        read_at(
            upserted(table, key, written_row(expiry_hours(key, threshold), value, now, fresh)),
            key,
            later,
        ) == Some(value),
{
}

/// Expiry on request takes effect at once: a key that has a record has none
/// to read from the instant `at` on, once it was made to expire at `at`;
/// the record itself stays in the table, with the document, identifier and
/// creation instant it had.
pub proof fn expire_then_read(
    table: Map<KeyView, Row>,
    key: KeyView,
    at: Timestamp,
    later: Timestamp,
)
    requires
        table.contains_key(key),
        later.micros >= at.micros,
    ensures
        rows_matching(table, key) == 1,
        read_at(expired(table, key, at), key, later) is None,
        expired(table, key, at).dom() == table.dom(),
        expired(table, key, at)[key].value == table[key].value,
        expired(table, key, at)[key].id == table[key].id,
        expired(table, key, at)[key].created_at == table[key].created_at,
{
    assert(expired(table, key, at).dom() =~= table.dom());
}

/// Expiry on request of a key without a record changes nothing and counts
/// no record.
pub proof fn expire_without_record(table: Map<KeyView, Row>, key: KeyView, at: Timestamp)
    requires
        !table.contains_key(key),
    ensures
        rows_matching(table, key) == 0,
        expired(table, key, at) == table,
{
}

/// Writes and expiry under one key leave the records of every other key as
/// they were.
pub proof fn other_keys_untouched(
    table: Map<KeyView, Row>,
    key: KeyView,
    incoming: Row,
    at: Timestamp,
    other: KeyView,
)
    requires
        other != key,
    ensures
        upserted(table, key, incoming).contains_key(other) == table.contains_key(other),
        upserted(table, key, incoming)[other] == table[other],
        expired(table, key, at).contains_key(other) == table.contains_key(other),
        expired(table, key, at)[other] == table[other],
{
}

/// Two writes under one key, applied one after the other in either order,
/// leave one record whose document and instants are those of the write
/// that was applied last: no record mixes the two.
pub proof fn writes_do_not_mix(table: Map<KeyView, Row>, key: KeyView, one: Row, other: Row)
    requires
        upsert_id(table, key, one) is Some,
        upsert_id(table, key, other) is Some,
    ensures
        ({
            let last_other = upserted(upserted(table, key, one), key, other);
            let last_one = upserted(upserted(table, key, other), key, one);
            &&& last_other.contains_key(key)
            &&& last_other[key].value == other.value
            &&& last_other[key].created_at == other.created_at
            &&& last_other[key].expires_at == other.expires_at
            &&& last_one.contains_key(key)
            &&& last_one[key].value == one.value
            &&& last_one[key].created_at == one.created_at
            &&& last_one[key].expires_at == one.expires_at
            &&& last_other.dom() == table.dom().insert(key)
            &&& last_one.dom() == table.dom().insert(key)
        }),
{
    let last_other = upserted(upserted(table, key, one), key, other);
    let last_one = upserted(upserted(table, key, other), key, one);
    assert(upserted(table, key, one).contains_key(key));
    assert(upserted(table, key, other).contains_key(key));
    assert(last_other.dom() =~= table.dom().insert(key));
    assert(last_one.dom() =~= table.dom().insert(key));
}

/// A table in which no two records share an identifier stays so under
/// writes and under expiry.
pub proof fn identifiers_stay_distinct(
    table: Map<KeyView, Row>,
    key: KeyView,
    incoming: Row,
    at: Timestamp,
)
    requires
        ids_distinct(table),
    ensures
        ids_distinct(upserted(table, key, incoming)),
        ids_distinct(expired(table, key, at)),
{
    let written = upserted(table, key, incoming);
    assert forall|j: KeyView, k: KeyView|
        written.contains_key(j) && written.contains_key(k) && j != k implies written[j].id
        != written[k].id by {
        if j != key {
            assert(table.contains_key(j));
        }
        if k != key {
            assert(table.contains_key(k));
        }
    }
    let ended = expired(table, key, at);
    assert forall|j: KeyView, k: KeyView|
        ended.contains_key(j) && ended.contains_key(k) && j != k implies ended[j].id
        != ended[k].id by {
        assert(table.contains_key(j));
        assert(table.contains_key(k));
    }
}

} // verus!
