//! User settings, statistics and recently-watched artwork.

use crate::text::dec_of;
use crate::text::fmt_u32;
use crate::StandardMediaObject;
use crate::API_URL;
use vstd::prelude::*;

verus! {

/// User settings endpoint; requires these headers in your request:
/// * `Content-Type:application/json`
/// * `Authorization:Bearer [token]`
/// * `simkl-api-key:[client_id]`
pub const SETTINGS_URL: &'static str = "https://api.simkl.com/users/settings";

pub const CHECKIN_URL: &'static str = "https://api.simkl.com/checkin";

#[derive(Default, Debug, Clone, PartialEq)]
pub struct Account {
    pub id: u32,
    pub timezone: String,
    pub account_type: String,
}

#[derive(Default, Debug, Clone, PartialEq)]
pub struct Connections {
    pub facebook: bool,
}

#[derive(Default, Debug, Clone, PartialEq)]
pub struct WatchedLastWeek {
    pub total_mins: u32,
    pub movies_mins: u32,
    pub tv_mins: u32,
    pub anime_mins: u32,
}

#[derive(Default, Debug, Clone, PartialEq)]
pub struct Count {
    pub mins: u32,
    pub count: u16,
}

#[derive(Default, Debug, Clone, PartialEq)]
pub struct Watched {
    pub watched_episodes_count: u16,
    pub count: u16,
    pub left_to_watch_episodes: u16,
    pub left_to_watch_mins: u16,
    pub total_episodes_count: u16,
}

#[derive(Default, Debug, Clone, PartialEq)]
pub struct CompletedOrNotInteresting {
    pub watched_episodes_count: u16,
    pub count: u16,
}

#[derive(Default, Debug, Clone, PartialEq)]
pub struct Movies {
    pub total_mins: u32,
    pub plan_to_watch: Count,
    pub not_interesting: Count,
    pub completed: CompletedOrNotInteresting,
}

#[derive(Default, Debug, Clone, PartialEq)]
pub struct TvOrAnime {
    pub total_mins: u32,
    pub watching: Watched,
    pub hold: Watched,
    pub plan_to_watch: Watched,
    pub not_interesting: CompletedOrNotInteresting,
    pub completed: CompletedOrNotInteresting,
}

#[derive(Default, Debug, Clone, PartialEq)]
pub struct Stats {
    pub total_mins: u32,
    pub movies: Movies,
    pub tv: TvOrAnime,
    pub anime: TvOrAnime,
    pub watched_last_week: WatchedLastWeek,
}

#[derive(Default, Debug, Clone, PartialEq)]
pub struct LastWatchedArts {
    pub id: u32,
    pub url: String,
    pub title: String,
    pub poster: String,
    pub fanart: String,
}

pub fn get_last_watched_arts(user_id: u32, client_id: String) -> (r: String)
    ensures
        r@ == API_URL@ + "/users/recently-watched-background/"@ + dec_of(user_id as nat) + "/?client_id="@
            + client_id@,
{
    let mut result = String::from_str(API_URL);
    result.append("/users/recently-watched-background/");
    let id = fmt_u32(user_id);
    result.append(id.as_str());
    result.append("/?client_id=");
    result.append(client_id.as_str());
    result
}

/// The image selector appended by `get_last_watched_image_request`.
pub open spec fn image_kind_of(fanart: bool) -> Seq<char> {
    if fanart {
        "fanart"@
    } else {
        "poster"@
    }
}

/// Response will redirect (`HTTP 302`) to the image to download or
/// display. Header will look like:
///
/// `location: https://simkl.in/fanart/50/500671636445e211e_0.jpg`
pub fn get_last_watched_image_request(user_id: u32, fanart: bool, client_id: String) -> (r: String)
    ensures
        r@ == API_URL@ + "users/recently-watched-background/"@ + dec_of(user_id as nat)
            + "?image="@ + image_kind_of(fanart) + "&client_id="@ + client_id@,
{
    let mut result = String::from_str(API_URL);
    result.append("users/recently-watched-background/");
    let id = fmt_u32(user_id);
    result.append(id.as_str());
    result.append("?image=");
    if fanart {
        result.append("fanart");
    } else {
        result.append("poster");
    }
    result.append("&client_id=");
    result.append(client_id.as_str());
    result
}

#[derive(Default, Debug, Clone, PartialEq)]
pub struct CheckinResponse {
    pub movie: Option<StandardMediaObject>,
    pub show: Option<StandardMediaObject>,
    pub anime: Option<StandardMediaObject>,
}

} // verus!
