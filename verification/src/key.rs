//! Cache keys: the closed set of things the cache can hold.

use vstd::prelude::*;

verus! {

/// Selects which cached value a call concerns.
///
/// Some keys stand alone; the others carry the parameters that tell one
/// cached value of their kind from another: the identifier of the user the
/// value belongs to, and the encoded parameters of the query it answers.
/// Two keys address the same record exactly when they are the same variant
/// with the same contents.
#[derive(Clone, Debug, PartialEq, Eq, Hash)]
pub enum CacheKey {
    IgdbSettings,
    ListennotesSettings,
    TmdbSettings,
    CoreDetails,
    PeopleSearch { params: String },
    MetadataSearch { params: String },
    MetadataGroupSearch { params: String },
    MetadataRecentlyConsumed { params: String },
    UserAnalytics { user_id: String, params: String },
    UserCollectionsList { user_id: String },
    UserAnalyticsParameters { user_id: String },
    ProgressUpdateCache { params: String },
}

/// What a `CacheKey` is: its variant and the text it carries.
pub enum KeyView {
    IgdbSettings,
    ListennotesSettings,
    TmdbSettings,
    CoreDetails,
    PeopleSearch { params: Seq<char> },
    MetadataSearch { params: Seq<char> },
    MetadataGroupSearch { params: Seq<char> },
    MetadataRecentlyConsumed { params: Seq<char> },
    UserAnalytics { user_id: Seq<char>, params: Seq<char> },
    UserCollectionsList { user_id: Seq<char> },
    UserAnalyticsParameters { user_id: Seq<char> },
    ProgressUpdateCache { params: Seq<char> },
}

impl View for CacheKey {
    type V = KeyView;

    open spec fn view(&self) -> KeyView {
        match *self {
            CacheKey::IgdbSettings => KeyView::IgdbSettings,
            CacheKey::ListennotesSettings => KeyView::ListennotesSettings,
            CacheKey::TmdbSettings => KeyView::TmdbSettings,
            CacheKey::CoreDetails => KeyView::CoreDetails,
            CacheKey::PeopleSearch { params } => KeyView::PeopleSearch { params: params@ },
            CacheKey::MetadataSearch { params } => KeyView::MetadataSearch { params: params@ },
            CacheKey::MetadataGroupSearch { params } => KeyView::MetadataGroupSearch {
                params: params@,
            },
            CacheKey::MetadataRecentlyConsumed { params } => KeyView::MetadataRecentlyConsumed {
                params: params@,
            },
            CacheKey::UserAnalytics { user_id, params } => KeyView::UserAnalytics {
                user_id: user_id@,
                params: params@,
            },
            CacheKey::UserCollectionsList { user_id } => KeyView::UserCollectionsList {
                user_id: user_id@,
            },
            CacheKey::UserAnalyticsParameters { user_id } => KeyView::UserAnalyticsParameters {
                user_id: user_id@,
            },
            CacheKey::ProgressUpdateCache { params } => KeyView::ProgressUpdateCache {
                params: params@,
            },
        }
    }
}

impl CacheKey {
    /// Whether two keys address the same record.
    pub fn same(&self, other: &CacheKey) -> (r: bool)
        ensures
            r == (self@ == other@),
    {
        match self {
            CacheKey::IgdbSettings => match other {
                CacheKey::IgdbSettings => true,
                _ => false,
            },
            CacheKey::ListennotesSettings => match other {
                CacheKey::ListennotesSettings => true,
                _ => false,
            },
            CacheKey::TmdbSettings => match other {
                CacheKey::TmdbSettings => true,
                _ => false,
            },
            CacheKey::CoreDetails => match other {
                CacheKey::CoreDetails => true,
                _ => false,
            },
            CacheKey::PeopleSearch { params: mine } => match other {
                CacheKey::PeopleSearch { params: theirs } => *mine == *theirs,
                _ => false,
            },
            CacheKey::MetadataSearch { params: mine } => match other {
                CacheKey::MetadataSearch { params: theirs } => *mine == *theirs,
                _ => false,
            },
            CacheKey::MetadataGroupSearch { params: mine } => match other {
                CacheKey::MetadataGroupSearch { params: theirs } => *mine == *theirs,
                _ => false,
            },
            CacheKey::MetadataRecentlyConsumed { params: mine } => match other {
                CacheKey::MetadataRecentlyConsumed { params: theirs } => *mine == *theirs,
                _ => false,
            },
            CacheKey::UserAnalytics { user_id: my_user, params: mine } => match other {
                CacheKey::UserAnalytics { user_id: their_user, params: theirs } => *my_user
                    == *their_user && *mine == *theirs,
                _ => false,
            },
            CacheKey::UserCollectionsList { user_id: mine } => match other {
                CacheKey::UserCollectionsList { user_id: theirs } => *mine == *theirs,
                _ => false,
            },
            CacheKey::UserAnalyticsParameters { user_id: mine } => match other {
                CacheKey::UserAnalyticsParameters { user_id: theirs } => *mine == *theirs,
                _ => false,
            },
            CacheKey::ProgressUpdateCache { params: mine } => match other {
                CacheKey::ProgressUpdateCache { params: theirs } => *mine == *theirs,
                _ => false,
            },
        }
    }
}

} // verus!
