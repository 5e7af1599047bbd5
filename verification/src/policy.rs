//! The expiry policy: how long a value cached under a key stays valid.

use vstd::prelude::*;
use crate::key::{CacheKey, KeyView};
use crate::time::{hours_after, hours_after_fits, Timestamp};

verus! {

/// The hours a value cached under `key` lives, counted from its write;
/// `None` when it never expires.
///
/// Settings never expire. Core details and search results live one hour,
/// a user's analytics two, a user's collection list and analytics
/// parameters eight, and a progress update as many hours as `threshold`,
/// the configured progress update threshold.
pub open spec fn expiry_hours(key: KeyView, threshold: i64) -> Option<i64> {
    match key {
        KeyView::IgdbSettings | KeyView::ListennotesSettings | KeyView::TmdbSettings => None,
        KeyView::CoreDetails
        | KeyView::PeopleSearch { .. }
        | KeyView::MetadataSearch { .. }
        | KeyView::MetadataGroupSearch { .. }
        | KeyView::MetadataRecentlyConsumed { .. } => Some(1i64),
        KeyView::UserAnalytics { .. } => Some(2i64),
        KeyView::UserCollectionsList { .. } | KeyView::UserAnalyticsParameters { .. } => Some(
            8i64,
        ),
        KeyView::ProgressUpdateCache { .. } => Some(threshold),
    }
}

/// Whether the expiry of a write at `now` with time-to-live `ttl` can be
/// held in a `Timestamp`.
pub open spec fn expiry_fits(now: Timestamp, ttl: Option<i64>) -> bool {
    match ttl {
        None => true,
        Some(hours) => hours_after_fits(now, hours),
    }
}

/// The expiry of a write at `now` with time-to-live `ttl`: none where the
/// value never expires, else `now` plus that many hours.
pub open spec fn expiry_instant(now: Timestamp, ttl: Option<i64>) -> Option<Timestamp> {
    match ttl {
        None => None,
        Some(hours) => Some(Timestamp { micros: hours_after(now, hours) as i64 }),
    }
}

/// Computes `expiry_hours`.
pub fn expiry_hours_for(key: &CacheKey, threshold: i64) -> (ttl: Option<i64>)
    ensures
        ttl == expiry_hours(key@, threshold),
{
    match key {
        CacheKey::IgdbSettings | CacheKey::ListennotesSettings | CacheKey::TmdbSettings => None,
        CacheKey::CoreDetails
        | CacheKey::PeopleSearch { .. }
        | CacheKey::MetadataSearch { .. }
        | CacheKey::MetadataGroupSearch { .. }
        | CacheKey::MetadataRecentlyConsumed { .. } => Some(1),
        CacheKey::UserAnalytics { .. } => Some(2),
        CacheKey::UserCollectionsList { .. } | CacheKey::UserAnalyticsParameters { .. } => Some(8),
        CacheKey::ProgressUpdateCache { .. } => Some(threshold),
    }
}

/// Computes `expiry_instant`.
pub fn expiry_at(now: Timestamp, ttl: Option<i64>) -> (r: Option<Timestamp>)
    requires
        expiry_fits(now, ttl),
    ensures
        r == expiry_instant(now, ttl),
{
    match ttl {
        None => None,
        Some(hours) => Some(now.plus_hours(hours)),
    }
}

/// Computes `expiry_fits`.
pub fn expiry_is_representable(now: Timestamp, ttl: Option<i64>) -> (r: bool)
    ensures
        r == expiry_fits(now, ttl),
{
    match ttl {
        None => true,
        Some(hours) => now.checked_plus_hours(hours).is_some(),
    }
}

} // verus!
