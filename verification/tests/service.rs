use cache_service::key::CacheKey;
use cache_service::record::{CacheRecord, RecordId};
use cache_service::service::{
    any_affected, decoded_or_miss, CacheConfig, CacheError, CacheService,
};
use cache_service::store::CacheStore;
use cache_service::time::{Timestamp, MICROS_PER_HOUR};
use serde_json::Value;
use std::collections::BTreeMap;

fn service(threshold: i64) -> CacheService {
    CacheService::new(CacheConfig { progress_update_threshold: threshold })
}

fn at(micros: i64) -> Timestamp {
    Timestamp { micros }
}

fn analytics(user: &str, params: &str) -> CacheKey {
    CacheKey::UserAnalytics { user_id: user.to_string(), params: params.to_string() }
}

fn progress(params: &str) -> CacheKey {
    CacheKey::ProgressUpdateCache { params: params.to_string() }
}

#[test]
fn a_new_service_holds_nothing() {
    let cache = service(2);
    assert_eq!(cache.store().len(), 0);
    assert_eq!(cache.get_value_at(CacheKey::CoreDetails, at(0)), None);
}

#[test]
fn a_written_value_is_read_back_at_once() {
    let mut cache = service(2);
    let id = cache.set_key_at(CacheKey::CoreDetails, Value::from("details"), at(1_000), RecordId(1));
    assert_eq!(id, Ok(RecordId(1)));
    assert_eq!(cache.get_value_at(CacheKey::CoreDetails, at(1_000)), Some(Value::from("details")));
}

#[test]
fn a_value_that_never_expires_is_read_back_at_any_time() {
    let mut cache = service(2);
    assert_eq!(
        cache.set_key_at(CacheKey::TmdbSettings, Value::from(7), at(1_000), RecordId(1)),
        Ok(RecordId(1))
    );
    assert_eq!(cache.get_value_at(CacheKey::TmdbSettings, at(1_000)), Some(Value::from(7)));
    assert_eq!(cache.get_value_at(CacheKey::TmdbSettings, at(i64::MAX)), Some(Value::from(7)));
    assert_eq!(cache.get_value_at(CacheKey::TmdbSettings, at(i64::MIN)), Some(Value::from(7)));
}

#[test]
fn the_record_is_stamped_with_the_write_and_its_expiry() {
    let mut cache = service(2);
    let key = analytics("u1", "{}");
    assert_eq!(cache.set_key_at(key.clone(), Value::from(7), at(500), RecordId(9)), Ok(RecordId(9)));
    let expected = CacheRecord {
        id: RecordId(9),
        key: key.clone(),
        value: Value::from(7),
        created_at: at(500),
        expires_at: Some(at(500 + 2 * MICROS_PER_HOUR)),
    };
    assert_eq!(cache.store().find_by_key(&key), Some(&expected));
}

#[test]
fn a_record_that_never_expires_has_no_expiry() {
    let mut cache = service(2);
    assert_eq!(
        cache.set_key_at(CacheKey::IgdbSettings, Value::from(7), at(500), RecordId(9)),
        Ok(RecordId(9))
    );
    let expected = CacheRecord {
        id: RecordId(9),
        key: CacheKey::IgdbSettings,
        value: Value::from(7),
        created_at: at(500),
        expires_at: None,
    };
    assert_eq!(cache.store().find_by_key(&CacheKey::IgdbSettings), Some(&expected));
}

#[test]
fn the_later_write_wins_and_no_second_record_appears() {
    let mut cache = service(2);
    let key = analytics("u1", "{}");
    assert_eq!(cache.set_key_at(key.clone(), Value::from("v1"), at(10), RecordId(1)), Ok(RecordId(1)));
    assert_eq!(cache.set_key_at(key.clone(), Value::from("v2"), at(20), RecordId(2)), Ok(RecordId(1)));
    assert_eq!(cache.get_value_at(key.clone(), at(20)), Some(Value::from("v2")));
    assert_eq!(cache.store().len(), 1);
    let expected = CacheRecord {
        id: RecordId(1),
        key: key.clone(),
        value: Value::from("v2"),
        created_at: at(20),
        expires_at: Some(at(20 + 2 * MICROS_PER_HOUR)),
    };
    assert_eq!(cache.store().find_by_key(&key), Some(&expected));
}

#[test]
fn a_value_is_gone_once_its_time_is_up() {
    let mut cache = service(2);
    let key = CacheKey::UserCollectionsList { user_id: "u1".to_string() };
    assert_eq!(cache.set_key_at(key.clone(), Value::from(true), at(100), RecordId(1)), Ok(RecordId(1)));
    let end: i64 = 100 + 8 * MICROS_PER_HOUR;
    assert_eq!(cache.get_value_at(key.clone(), at(end - 1)), Some(Value::from(true)));
    assert_eq!(cache.get_value_at(key.clone(), at(end)), None);
    assert_eq!(cache.get_value_at(key.clone(), at(end + 1)), None);
    assert_eq!(cache.store().len(), 1);
}

#[test]
fn the_configured_threshold_sets_the_life_of_a_progress_update() {
    let mut cache = service(3);
    assert_eq!(cache.set_key_at(progress("p"), Value::from(1), at(0), RecordId(1)), Ok(RecordId(1)));
    assert_eq!(cache.get_value_at(progress("p"), at(3 * MICROS_PER_HOUR - 1)), Some(Value::from(1)));
    assert_eq!(cache.get_value_at(progress("p"), at(3 * MICROS_PER_HOUR)), None);
}

#[test]
fn a_threshold_of_zero_or_less_caches_nothing_readable() {
    let mut cache = service(0);
    assert_eq!(cache.set_key_at(progress("p"), Value::from(1), at(50), RecordId(1)), Ok(RecordId(1)));
    assert_eq!(cache.get_value_at(progress("p"), at(50)), None);
    assert_eq!(cache.get_value_at(progress("p"), at(49)), Some(Value::from(1)));

    let mut cache = service(-1);
    assert_eq!(cache.set_key_at(progress("p"), Value::from(1), at(50), RecordId(1)), Ok(RecordId(1)));
    assert_eq!(cache.get_value_at(progress("p"), at(50)), None);
    let record = cache.store().find_by_key(&progress("p")).map(|r| r.expires_at);
    assert_eq!(record, Some(Some(at(50 - MICROS_PER_HOUR))));
}

#[test]
fn expiry_on_request_hides_the_value_at_once_and_reports_the_record() {
    let mut cache = service(2);
    assert_eq!(
        cache.set_key_at(CacheKey::TmdbSettings, Value::from(7), at(100), RecordId(1)),
        Ok(RecordId(1))
    );
    assert_eq!(cache.expire_key_at(CacheKey::TmdbSettings, at(150)), Ok(true));
    assert_eq!(cache.get_value_at(CacheKey::TmdbSettings, at(150)), None);
    assert_eq!(cache.get_value_at(CacheKey::TmdbSettings, at(151)), None);
    assert_eq!(cache.get_value_at(CacheKey::TmdbSettings, at(149)), Some(Value::from(7)));
    let expected = CacheRecord {
        id: RecordId(1),
        key: CacheKey::TmdbSettings,
        value: Value::from(7),
        created_at: at(100),
        expires_at: Some(at(150)),
    };
    assert_eq!(cache.store().find_by_key(&CacheKey::TmdbSettings), Some(&expected));
}

#[test]
fn expiry_on_request_of_a_key_without_record_reports_none() {
    let mut cache = service(2);
    assert_eq!(cache.expire_key_at(CacheKey::TmdbSettings, at(150)), Ok(false));
    assert_eq!(cache.store().len(), 0);
}

#[test]
fn expiry_on_request_leaves_other_keys_alone() {
    let mut cache = service(2);
    assert_eq!(cache.set_key_at(analytics("u1", "a"), Value::from(1), at(0), RecordId(1)), Ok(RecordId(1)));
    assert_eq!(cache.set_key_at(analytics("u2", "a"), Value::from(2), at(0), RecordId(2)), Ok(RecordId(2)));
    assert_eq!(cache.expire_key_at(analytics("u1", "a"), at(5)), Ok(true));
    assert_eq!(cache.get_value_at(analytics("u1", "a"), at(5)), None);
    assert_eq!(cache.get_value_at(analytics("u2", "a"), at(5)), Some(Value::from(2)));
}

#[test]
fn a_write_after_expiry_on_request_is_read_again() {
    let mut cache = service(2);
    assert_eq!(cache.set_key_at(CacheKey::CoreDetails, Value::from(1), at(0), RecordId(1)), Ok(RecordId(1)));
    assert_eq!(cache.expire_key_at(CacheKey::CoreDetails, at(5)), Ok(true));
    assert_eq!(cache.set_key_at(CacheKey::CoreDetails, Value::from(2), at(6), RecordId(2)), Ok(RecordId(1)));
    assert_eq!(cache.get_value_at(CacheKey::CoreDetails, at(6)), Some(Value::from(2)));
}

#[test]
fn a_new_record_with_a_used_identifier_is_a_storage_error() {
    let mut cache = service(2);
    assert_eq!(cache.set_key_at(CacheKey::CoreDetails, Value::from(1), at(0), RecordId(1)), Ok(RecordId(1)));
    assert_eq!(
        cache.set_key_at(CacheKey::TmdbSettings, Value::from(2), at(0), RecordId(1)),
        Err(CacheError::StorageError)
    );
    assert_eq!(cache.get_value_at(CacheKey::TmdbSettings, at(0)), None);
    assert_eq!(cache.get_value_at(CacheKey::CoreDetails, at(0)), Some(Value::from(1)));
    assert_eq!(cache.store().len(), 1);
}

#[test]
fn two_writes_in_either_order_leave_the_record_of_the_last() {
    let key = analytics("u1", "{}");
    let mut one_then_two = service(2);
    assert_eq!(one_then_two.set_key_at(key.clone(), Value::from("v1"), at(10), RecordId(1)), Ok(RecordId(1)));
    assert_eq!(one_then_two.set_key_at(key.clone(), Value::from("v2"), at(20), RecordId(2)), Ok(RecordId(1)));
    let last = one_then_two.store().find_by_key(&key).map(|r| (r.value.clone(), r.created_at, r.expires_at));
    assert_eq!(last, Some((Value::from("v2"), at(20), Some(at(20 + 2 * MICROS_PER_HOUR)))));
    assert_eq!(one_then_two.store().len(), 1);

    let mut two_then_one = service(2);
    assert_eq!(two_then_one.set_key_at(key.clone(), Value::from("v2"), at(20), RecordId(2)), Ok(RecordId(2)));
    assert_eq!(two_then_one.set_key_at(key.clone(), Value::from("v1"), at(10), RecordId(1)), Ok(RecordId(2)));
    let last = two_then_one.store().find_by_key(&key).map(|r| (r.value.clone(), r.created_at, r.expires_at));
    assert_eq!(last, Some((Value::from("v1"), at(10), Some(at(10 + 2 * MICROS_PER_HOUR)))));
    assert_eq!(two_then_one.store().len(), 1);
}

#[test]
fn decoded_or_miss_keeps_a_value_and_drops_a_failure() {
    assert_eq!(decoded_or_miss(serde_json::from_value::<i64>(Value::from(3))), Some(3));
    assert_eq!(decoded_or_miss(serde_json::from_value::<String>(Value::from(3))), None);
}

#[test]
fn set_key_and_get_value_round_trip_a_typed_value() {
    let mut cache = service(2);
    let value: Vec<String> = vec!["a".to_string(), "b".to_string()];
    let written = cache.set_key(analytics("u1", "{}"), &value, |v| serde_json::to_value(v));
    assert!(written.is_ok());
    let read: Option<Vec<String>> = cache.get_value(analytics("u1", "{}"), |d| serde_json::from_value(d));
    assert_eq!(read, Some(value));
    assert_eq!(cache.store().len(), 1);
}

#[test]
fn set_key_stamps_the_record_from_the_clock() {
    let mut cache = service(2);
    let written = cache.set_key(CacheKey::CoreDetails, 5, |v: i32| serde_json::to_value(v));
    let record = cache.store().find_by_key(&CacheKey::CoreDetails).cloned();
    match (written, record) {
        (Ok(id), Some(record)) => {
            assert_eq!(record.id, id);
            assert_eq!(record.value, Value::from(5));
            assert!(record.created_at.micros > 0);
            assert_eq!(record.expires_at, record.created_at.checked_plus_hours(1));
        }
        other => panic!("the write did not leave a record: {:?}", other),
    }
}

#[test]
fn set_key_twice_keeps_the_identifier_and_the_later_value() {
    let mut cache = service(2);
    let first = cache.set_key(CacheKey::CoreDetails, "v1", |v: &str| serde_json::to_value(v));
    let second = cache.set_key(CacheKey::CoreDetails, "v2", |v: &str| serde_json::to_value(v));
    assert!(first.is_ok());
    assert_eq!(first, second);
    let read: Option<String> = cache.get_value(CacheKey::CoreDetails, |d| serde_json::from_value(d));
    assert_eq!(read, Some("v2".to_string()));
    assert_eq!(cache.store().len(), 1);
}

#[test]
fn set_key_gives_new_records_identifiers_of_their_own() {
    let mut cache = service(2);
    let first = cache.set_key(CacheKey::CoreDetails, 1, |v: i32| serde_json::to_value(v));
    let second = cache.set_key(CacheKey::TmdbSettings, 2, |v: i32| serde_json::to_value(v));
    assert!(first.is_ok());
    assert!(second.is_ok());
    assert_ne!(first, second);
    assert_eq!(cache.store().len(), 2);
}

#[test]
fn a_value_that_cannot_be_encoded_is_a_serialization_error() {
    let mut cache = service(2);
    let mut value: BTreeMap<(i32, i32), i32> = BTreeMap::new();
    value.insert((1, 2), 3);
    let written = cache.set_key(CacheKey::CoreDetails, &value, |v| serde_json::to_value(v));
    assert_eq!(written, Err(CacheError::SerializationError));
    assert_eq!(cache.store().len(), 0);
}

#[test]
fn an_expiry_beyond_all_instants_is_refused() {
    let mut cache = service(i64::MAX);
    let written = cache.set_key(progress("p"), 1, |v: i32| serde_json::to_value(v));
    assert_eq!(written, Err(CacheError::StorageError));
    assert_eq!(cache.store().len(), 0);
    let other = cache.set_key(CacheKey::CoreDetails, 1, |v: i32| serde_json::to_value(v));
    assert!(other.is_ok());
}

#[test]
fn a_document_of_another_shape_is_a_miss() {
    let mut cache = service(2);
    assert!(cache.set_key(CacheKey::CoreDetails, 5, |v: i32| serde_json::to_value(v)).is_ok());
    let as_text: Option<String> = cache.get_value(CacheKey::CoreDetails, |d| serde_json::from_value(d));
    assert_eq!(as_text, None);
    let as_list: Option<Vec<i32>> = cache.get_value(CacheKey::CoreDetails, |d| serde_json::from_value(d));
    assert_eq!(as_list, None);
    let as_number: Option<i32> = cache.get_value(CacheKey::CoreDetails, |d| serde_json::from_value(d));
    assert_eq!(as_number, Some(5));
}

#[test]
fn reading_does_not_use_the_value_up() {
    let mut cache = service(2);
    assert!(cache.set_key(CacheKey::TmdbSettings, "kept", |v: &str| serde_json::to_value(v)).is_ok());
    let first: Option<String> = cache.get_value(CacheKey::TmdbSettings, |d| serde_json::from_value(d));
    let second: Option<String> = cache.get_value(CacheKey::TmdbSettings, |d| serde_json::from_value(d));
    assert_eq!(first, Some("kept".to_string()));
    assert_eq!(second, Some("kept".to_string()));
}

#[test]
fn get_value_of_a_key_without_record_is_a_miss() {
    let cache = service(2);
    let read: Option<i32> = cache.get_value(CacheKey::CoreDetails, |d| serde_json::from_value(d));
    assert_eq!(read, None);
}

#[test]
fn expire_key_hides_the_value_from_the_next_read() {
    let mut cache = service(2);
    assert!(cache.set_key(CacheKey::TmdbSettings, 5, |v: i32| serde_json::to_value(v)).is_ok());
    assert_eq!(cache.expire_key(CacheKey::TmdbSettings), Ok(true));
    let read: Option<i32> = cache.get_value(CacheKey::TmdbSettings, |d| serde_json::from_value(d));
    assert_eq!(read, None);
    assert_eq!(cache.store().len(), 1);
}

#[test]
fn expire_key_of_a_key_without_record_is_false() {
    let mut cache = service(2);
    assert_eq!(cache.expire_key(CacheKey::TmdbSettings), Ok(false));
}

#[test]
fn a_progress_update_with_no_time_to_live_is_not_read_back() {
    let mut cache = service(0);
    assert!(cache.set_key(progress("p"), 5, |v: i32| serde_json::to_value(v)).is_ok());
    let read: Option<i32> = cache.get_value(progress("p"), |d| serde_json::from_value(d));
    assert_eq!(read, None);
}

#[test]
fn a_service_over_a_store_reads_what_the_store_holds() {
    let mut store = CacheStore::new();
    let kept = CacheRecord {
        id: RecordId(4),
        key: CacheKey::TmdbSettings,
        value: Value::from("kept"),
        created_at: at(10),
        expires_at: Some(at(100)),
    };
    assert_eq!(store.upsert(kept.clone()), Some(RecordId(4)));
    let mut cache = CacheService::with_store(store, CacheConfig { progress_update_threshold: 6 });
    assert_eq!(cache.store().len(), 1);
    assert_eq!(cache.store().find_by_key(&CacheKey::TmdbSettings), Some(&kept));
    assert_eq!(cache.get_value_at(CacheKey::TmdbSettings, at(99)), Some(Value::from("kept")));
    assert_eq!(cache.get_value_at(CacheKey::TmdbSettings, at(100)), None);
    assert_eq!(cache.get_expiry_for_key(&progress("p")), Some(6));
    assert_eq!(cache.set_key_at(CacheKey::TmdbSettings, Value::from("new"), at(200), RecordId(5)), Ok(RecordId(4)));
    assert_eq!(cache.get_value_at(CacheKey::TmdbSettings, at(i64::MAX)), Some(Value::from("new")));
    assert_eq!(cache.set_key_at(CacheKey::CoreDetails, Value::from(1), at(200), RecordId(4)), Err(CacheError::StorageError));
}

#[test]
fn a_service_over_an_empty_store_is_a_new_service() {
    let cache = CacheService::with_store(CacheStore::new(), CacheConfig { progress_update_threshold: 6 });
    assert_eq!(cache.store().len(), 0);
    assert_eq!(cache.get_value_at(CacheKey::CoreDetails, at(0)), None);
}

#[test]
fn an_update_found_a_record_when_it_touched_a_row() {
    assert!(!any_affected(0));
    assert!(any_affected(1));
    assert!(any_affected(u64::MAX));
}

#[test]
fn an_unencodable_value_is_a_serialization_error_whatever_the_key() {
    let mut value: BTreeMap<(i32, i32), i32> = BTreeMap::new();
    value.insert((1, 2), 3);
    let mut cache = service(i64::MAX);
    assert_eq!(
        cache.set_key(progress("p"), &value, |v| serde_json::to_value(v)),
        Err(CacheError::SerializationError)
    );
    assert!(cache.set_key(CacheKey::CoreDetails, 1, |v: i32| serde_json::to_value(v)).is_ok());
    assert_eq!(
        cache.set_key(CacheKey::TmdbSettings, &value, |v| serde_json::to_value(v)),
        Err(CacheError::SerializationError)
    );
    assert_eq!(
        cache.set_key(CacheKey::CoreDetails, &value, |v| serde_json::to_value(v)),
        Err(CacheError::SerializationError)
    );
    assert_eq!(cache.get_value_at(CacheKey::CoreDetails, at(0)), Some(Value::from(1)));
    assert_eq!(cache.store().len(), 1);
}
