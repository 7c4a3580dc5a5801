//! Airing-calendar lookups.

use crate::text::dec_of;
use crate::text::fmt_u32;
use crate::API_URL;
use vstd::prelude::*;

verus! {

pub const AIRING_NEXT_TV_URL: &'static str = "https://data.simkl.in/calendar/tv.json";

pub const AIRING_NEXT_ANIME_URL: &'static str = "https://data.simkl.in/calendar/anime.json";

pub const AIRING_NEXT_MOVIE_URL: &'static str =
    "https://data.simkl.in/calendar/movie_release.json";

pub enum Type {
    Tv,
    Anime,
    Movie,
}

#[derive(Default, Debug, Clone, PartialEq)]
pub struct IdsItem {
    pub simkl_id: u32,
    pub slug: String,
    pub tmdb: u32,
    pub imdb: Option<String>,
    pub mal: Option<u32>,
}

#[derive(Default, Debug, Clone, PartialEq)]
pub struct EpisodeItem {
    pub season: Option<u16>,
    pub episode: u16,
    pub url: Option<String>,
}

/// The calendar file name for each kind of media.
pub open spec fn monthly_file(what: Type) -> Seq<char> {
    match what {
        Type::Tv => "/tv.json"@,
        Type::Anime => "/anime.json"@,
        Type::Movie => "/movie_release.json"@,
    }
}

/// Get monthly items.
///
/// Parameters:
/// * year: 4 digits format (example: `2025`)
/// * month: from 1 to 12 where 1 is january
pub fn get_monthly_request(what: Type, year: u16, month: u8) -> (r: String)
    ensures
        r@ == API_URL@ + "calendar/"@ + dec_of(year as nat) + "/"@ + dec_of(month as nat)
            + monthly_file(what),
{
    let mut result = String::from_str(API_URL);
    result.append("calendar/");
    let y = fmt_u32(year as u32);
    result.append(y.as_str());
    result.append("/");
    let m = fmt_u32(month as u32);
    result.append(m.as_str());
    match what {
        Type::Tv => result.append("/tv.json"),
        Type::Anime => result.append("/anime.json"),
        Type::Movie => result.append("/movie_release.json"),
    }
    result
}

} // verus!
