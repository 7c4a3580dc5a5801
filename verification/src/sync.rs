//! Watchlist synchronisation endpoints.

use crate::Extended;
use crate::Timestamp;
use crate::API_URL;
use vstd::prelude::*;

verus! {

/// Retrieve the latest activity timestamps for the user: the last time
/// each category and media type was updated.
///
/// `POST`, with headers `Authorization: Bearer [token]` and
/// `simkl-api-key: [client_id]`.
pub const USER_ACTIVITIES: &'static str = "https://api.simkl.com/sync/activities";

#[derive(Default, Debug, Clone, PartialEq)]
pub struct SyncSettings {
    pub all: Timestamp,
}

#[derive(Default, Debug, Clone, PartialEq)]
pub struct MediaActivity {
    pub all: Timestamp,
    pub rated_at: Timestamp,
    pub plan_to_watch: Timestamp,
    pub watching: Option<Timestamp>,
    pub completed: Timestamp,
    pub hold: Option<Timestamp>,
    pub dropped: Timestamp,
    pub removed_from_list: Timestamp,
}

#[derive(Default, Debug, Clone, PartialEq)]
pub struct Activities {
    pub all: Timestamp,
    pub settings: SyncSettings,
    pub tv_shows: MediaActivity,
    pub anime: MediaActivity,
    pub movies: MediaActivity,
}

/// Retrieve the entire watchlist.
///
/// `POST`, with headers `Authorization: Bearer [token]` and
/// `simkl-api-key: [client_id]`.
pub const USER_ITEMS: &'static str = "https://api.simkl.com/sync/all-items/";

/// What `get_all_items_request` appends for the optional category filter.
pub open spec fn items_filter_of(what: Option<String>) -> Seq<char> {
    match what {
        Some(w) => w@ + "/"@,
        None => Seq::empty(),
    }
}

/// What `get_all_items_request` appends for the optional starting date.
pub open spec fn items_from_of(from: Option<Timestamp>) -> Seq<char> {
    match from {
        Some(_) => "?date_from="@,
        None => Seq::empty(),
    }
}

/// Instead of getting everything, you can get only one element (animes,
/// movies, shows, ..., ratings, ...). You can also use a starting date.
pub fn get_all_items_request(
    what: Option<String>,
    from: Option<Timestamp>,
    extended: Option<Extended>,
) -> (r: String)
    ensures
        r@ == USER_ITEMS@ + items_filter_of(what) + items_from_of(from),
{
    let _ = extended;
    let mut result = String::from_str(USER_ITEMS);
    if let Some(w) = &what {
        result.append(w.as_str());
        result.append("/");
    }
    if from.is_some() {
        result.append("?date_from=");
    }
    proof {
        assert(result@ =~= USER_ITEMS@ + items_filter_of(what) + items_from_of(from));
    }
    result
}

pub fn get_add_to_history_request() -> (r: String)
    ensures
        r@ == API_URL@ + "sync/history"@,
{
    let mut result = String::from_str(API_URL);
    result.append("sync/history");
    result
}

pub fn get_remove_from_history_request() -> (r: String)
    ensures
        r@ == API_URL@ + "sync/history/remove"@,
{
    let mut result = String::from_str(API_URL);
    result.append("sync/history/remove");
    result
}

pub fn get_add_ratings_request() -> (r: String)
    ensures
        r@ == API_URL@ + "sync/ratings"@,
{
    let mut result = String::from_str(API_URL);
    result.append("sync/ratings");
    result
}

pub fn get_remove_ratings_request() -> (r: String)
    ensures
        r@ == API_URL@ + "sync/ratings/remove"@,
{
    let mut result = String::from_str(API_URL);
    result.append("sync/ratings/remove");
    result
}

pub fn get_add_to_list_request() -> (r: String)
    ensures
        r@ == API_URL@ + "sync/add-to-list"@,
{
    let mut result = String::from_str(API_URL);
    result.append("sync/add-to-list");
    result
}

pub fn get_check_if_watched_request() -> (r: String)
    ensures
        r@ == API_URL@ + "sync/watched"@,
{
    let mut result = String::from_str(API_URL);
    result.append("sync/watched");
    result
}

} // verus!
