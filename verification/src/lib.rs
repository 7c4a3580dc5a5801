//! Client-side helpers for the Simkl media-tracking REST API: request URL
//! builders, plain data holders mirroring JSON payloads, and a verified
//! sliding-window admission guard that throttles outbound calls.

use vstd::prelude::*;

pub mod anime;
pub mod auth;
pub mod calendar;
pub mod images;
pub mod movie;
pub mod pagination;
pub mod pin;
pub mod search;
pub mod rate_limit;
pub mod request;
pub mod response;
pub mod show;
pub mod sync;
pub mod text;
pub mod user;

use crate::text::dec_of;
use crate::text::fmt_u32;
use crate::text::join_all;
use crate::text::joined;

verus! {

/// Declares serde_json::Error, carried opaquely in the `Json` variant.
#[verifier::external_type_specification]
#[verifier::external_body]
pub struct ExSerdeJsonError(serde_json::Error);

/// Declares url::ParseError, carried opaquely in the `InvalidUrl` variant.
#[verifier::external_type_specification]
#[verifier::external_body]
pub struct ExUrlParseError(url::ParseError);

#[derive(Debug)]
pub enum SimklError {
    /// JSON serialization/deserialization errors
    Json(serde_json::Error),
    /// Invalid URL
    InvalidUrl(url::ParseError),
    /// Missing or wrong parameters
    InvalidParameters(String),
    /// Parse error with the response
    ParseError(String),
}

impl From<serde_json::Error> for SimklError {
    fn from(err: serde_json::Error) -> (r: Self) {
        SimklError::Json(err)
    }
}

impl vstd::std_specs::convert::FromSpecImpl<serde_json::Error> for SimklError {
    open spec fn obeys_from_spec() -> bool {
        true
    }

    open spec fn from_spec(err: serde_json::Error) -> Self {
        SimklError::Json(err)
    }
}

impl From<url::ParseError> for SimklError {
    fn from(err: url::ParseError) -> (r: Self) {
        SimklError::InvalidUrl(err)
    }
}

impl vstd::std_specs::convert::FromSpecImpl<url::ParseError> for SimklError {
    open spec fn obeys_from_spec() -> bool {
        true
    }

    open spec fn from_spec(err: url::ParseError) -> Self {
        SimklError::InvalidUrl(err)
    }
}

/// API URL, queries will need the following headers:
/// * `Content-Type: application/json`
/// * `simkl-api-key: <client_id>` (listed under your Simkl applications)
///
/// Full API doc is available at [https://simkl.docs.apiary.io/](https://simkl.docs.apiary.io/)
pub const API_URL: &'static str = "https://api.simkl.com";

pub const OAUTH_URL: &'static str = "https://simkl.com/oauth/authorize";

pub const TOKEN_URL: &'static str = "https://api.simkl.com/oauth/token";

/// A moment in time, as whole seconds since the Unix epoch: the library's
/// own stand-in for a wall-clock datetime, converted at the application
/// boundary.
#[derive(Debug, Clone, Copy, PartialEq, Eq, Default)]
pub struct Timestamp {
    pub unix_secs: i64,
}

/// By default methods are not returning additional data for movies, anime,
/// show etc. They return minimal info you need to match in the local
/// database. But, if you need more information just add
/// `extended={fields}` to the URL. Will be in lower case.
#[derive(Debug, Copy, Clone)]
pub struct Extended {
    pub full: bool,
    pub title: bool,
    pub slug: bool,
    pub overview: bool,
    pub metadata: bool,
    pub theater: bool,
    pub genres: bool,
    pub tmdb: bool,
}

impl Default for Extended {
    fn default() -> (r: Self)
        ensures
            r.full,
            !r.title,
            !r.slug,
            !r.overview,
            !r.metadata,
            !r.theater,
            !r.genres,
            !r.tmdb,
    {
        Self {
            full: true,
            title: false,
            slug: false,
            overview: false,
            metadata: false,
            theater: false,
            genres: false,
            tmdb: false,
        }
    }
}

/// The kinds of media the API distinguishes.
#[derive(Debug, Clone, PartialEq)]
pub enum MediaType {
    Movie,
    Show,
    Anime,
    Episode,
}

/// The lowercase name the API uses for each media type.
pub open spec fn media_type_name(t: MediaType) -> Seq<char> {
    match t {
        MediaType::Movie => "movie"@,
        MediaType::Show => "show"@,
        MediaType::Anime => "anime"@,
        MediaType::Episode => "episode"@,
    }
}

/// A name for what `str::to_lowercase` returns on a given string.
pub uninterp spec fn lower_of(s: Seq<char>) -> Seq<char>;

/// Relies on str::to_lowercase: the Unicode lowercase mapping of the
/// string, a function of its characters alone.
#[verifier::external_body]
fn lowercase(s: &str) -> (r: String)
    ensures
        r@ == lower_of(s@),
{
    s.to_lowercase()
}

impl MediaType {
    /// Parses a media type name, ignoring case.
    pub fn from_str(s: &str) -> (r: Result<MediaType, ()>)
        ensures
            match r {
                Ok(t) => lower_of(s@) == media_type_name(t),
                Err(_) => lower_of(s@) != "movie"@ && lower_of(s@) != "show"@ && lower_of(s@)
                    != "anime"@ && lower_of(s@) != "episode"@,
            },
    {
        let lower = lowercase(s);
        if lower == String::from_str("movie") {
            Ok(MediaType::Movie)
        } else if lower == String::from_str("show") {
            Ok(MediaType::Show)
        } else if lower == String::from_str("anime") {
            Ok(MediaType::Anime)
        } else if lower == String::from_str("episode") {
            Ok(MediaType::Episode)
        } else {
            Err(())
        }
    }

    pub fn as_str(&self) -> (r: &'static str)
        ensures
            r@ == media_type_name(*self),
    {
        match self {
            MediaType::Movie => "movie",
            MediaType::Show => "show",
            MediaType::Anime => "anime",
            MediaType::Episode => "episode",
        }
    }
}

/// `full` excludes every individual field selector.
pub open spec fn extended_conflict(e: Extended) -> bool {
    e.full && (e.title || e.slug || e.overview || e.metadata || e.theater || e.genres || e.tmdb)
}

/// The selected field names, in the fixed order the parameter lists them.
pub open spec fn extended_names(e: Extended) -> Seq<Seq<char>> {
    let s = Seq::<Seq<char>>::empty();
    let s = if e.full {
        s.push("full"@)
    } else {
        s
    };
    let s = if e.title {
        s.push("title"@)
    } else {
        s
    };
    let s = if e.slug {
        s.push("slug"@)
    } else {
        s
    };
    let s = if e.overview {
        s.push("overview"@)
    } else {
        s
    };
    let s = if e.metadata {
        s.push("metadata"@)
    } else {
        s
    };
    let s = if e.theater {
        s.push("theater"@)
    } else {
        s
    };
    let s = if e.genres {
        s.push("genres"@)
    } else {
        s
    };
    let s = if e.tmdb {
        s.push("tmdb"@)
    } else {
        s
    };
    s
}

/// Renders the `extended=` parameter value: the selected field names
/// joined with commas. Selecting `full` together with any individual
/// field is rejected.
pub fn get_extended_parameter(extended: Extended) -> (r: Result<String, &'static str>)
    ensures
        match r {
            Ok(s) => !extended_conflict(extended) && s@ == joined(
                extended_names(extended),
                ","@,
            ),
            Err(m) => extended_conflict(extended) && m@
                == "extended cannot be full and have another parameter"@,
        },
{
    if extended.full && (extended.title || extended.slug || extended.overview
        || extended.metadata || extended.theater || extended.genres || extended.tmdb) {
        return Err("extended cannot be full and have another parameter");
    }
    let mut selected: Vec<String> = Vec::new();
    if extended.full {
        selected.push(String::from_str("full"));
    }
    if extended.title {
        selected.push(String::from_str("title"));
    }
    if extended.slug {
        selected.push(String::from_str("slug"));
    }
    if extended.overview {
        selected.push(String::from_str("overview"));
    }
    if extended.metadata {
        selected.push(String::from_str("metadata"));
    }
    if extended.theater {
        selected.push(String::from_str("theater"));
    }
    if extended.genres {
        selected.push(String::from_str("genres"));
    }
    if extended.tmdb {
        selected.push(String::from_str("tmdb"));
    }
    proof {
        assert(selected@.map_values(|p: String| p@) =~= extended_names(extended));
    }
    Ok(join_all(&selected, ","))
}

/// Some endpoints are paginated and load 1 page of 10 items by default;
/// appending `?page={page}&limit={limit}` changes this.
///
/// All paginated endpoints also return these HTTP headers:
///
/// | Header | Value |
/// |--------|-------|
/// | X-Pagination-Page | Current page |
/// | X-Pagination-Limit | Items per page |
/// | X-Pagination-Page-Count | Total number of pages |
/// | X-Pagination-Item-Count | Total number of items |
pub fn get_pagination_parameter(page: u16, limit: u16) -> (r: String)
    ensures
        r@ == "?page="@ + dec_of(page as nat) + "&limit="@ + dec_of(limit as nat),
{
    let mut result = String::from_str("?page=");
    let p = fmt_u32(page as u32);
    result.append(p.as_str());
    result.append("&limit=");
    let l = fmt_u32(limit as u32);
    result.append(l.as_str());
    result
}

#[derive(Debug, Clone, PartialEq)]
pub struct MediaIds {
    pub simkl: Option<u32>,
    pub slug: Option<String>,
    pub imdb: Option<String>,
    /// TV only
    pub tmdb: Option<u32>,
    /// anime only
    pub mal: Option<u32>,
    pub anilist: Option<u32>,
    pub anidb: Option<u32>,
    pub tvdb: Option<u32>,
    pub kitsu: Option<u32>,
}

/// Identifiers with every service left out.
pub open spec fn media_ids_empty() -> MediaIds {
    MediaIds {
        simkl: None,
        slug: None,
        imdb: None,
        tmdb: None,
        mal: None,
        anilist: None,
        anidb: None,
        tvdb: None,
        kitsu: None,
    }
}

impl Default for MediaIds {
    fn default() -> (r: Self)
        ensures
            r == media_ids_empty(),
    {
        Self {
            simkl: None,
            slug: None,
            imdb: None,
            tmdb: None,
            mal: None,
            anilist: None,
            anidb: None,
            tvdb: None,
            kitsu: None,
        }
    }
}

/// The identifier shown to the API when several are known: Simkl's own id
/// first, then IMDB, then TMDB.
pub open spec fn primary_id_of(ids: MediaIds) -> Option<Seq<char>> {
    if ids.simkl is Some {
        Some(dec_of(ids.simkl->0 as nat))
    } else if ids.imdb is Some {
        Some(ids.imdb->0@)
    } else if ids.tmdb is Some {
        Some(dec_of(ids.tmdb->0 as nat))
    } else {
        None
    }
}

impl MediaIds {
    pub fn new() -> (r: Self)
        ensures
            r == media_ids_empty(),
    {
        Self::default()
    }

    pub fn with_simkl(self, id: u32) -> (r: Self)
        ensures
            r == (MediaIds { simkl: Some(id), ..self }),
    {
        let mut ids = self;
        ids.simkl = Some(id);
        ids
    }

    pub fn with_imdb(self, id: String) -> (r: Self)
        ensures
            r == (MediaIds { imdb: Some(id), ..self }),
    {
        let mut ids = self;
        ids.imdb = Some(id);
        ids
    }

    pub fn with_tmdb(self, id: u32) -> (r: Self)
        ensures
            r == (MediaIds { tmdb: Some(id), ..self }),
    {
        let mut ids = self;
        ids.tmdb = Some(id);
        ids
    }

    pub fn with_mal(self, id: u32) -> (r: Self)
        ensures
            r == (MediaIds { mal: Some(id), ..self }),
    {
        let mut ids = self;
        ids.mal = Some(id);
        ids
    }

    pub fn has_any_id(&self) -> (r: bool)
        ensures
            r == (self.simkl is Some || self.imdb is Some || self.tmdb is Some || self.mal
                is Some || self.anilist is Some || self.anidb is Some || self.tvdb is Some
                || self.kitsu is Some),
    {
        self.simkl.is_some() || self.imdb.is_some() || self.tmdb.is_some() || self.mal.is_some()
            || self.anilist.is_some() || self.anidb.is_some() || self.tvdb.is_some()
            || self.kitsu.is_some()
    }

    pub fn primary_id(&self) -> (r: Option<String>)
        ensures
            match r {
                Some(s) => primary_id_of(*self) == Some(s@),
                None => primary_id_of(*self) is None,
            },
    {
        if let Some(id) = self.simkl {
            Some(fmt_u32(id))
        } else if let Some(id) = &self.imdb {
            Some(id.clone())
        } else {
            match self.tmdb {
                Some(id) => Some(fmt_u32(id)),
                None => None,
            }
        }
    }
}

#[derive(Default, Debug, Clone, PartialEq)]
pub struct SeasonEpisode {
    pub number: u16,
}

#[derive(Default, Debug, Clone, PartialEq)]
pub struct Season {
    pub number: u16,
    pub episodes: Vec<SeasonEpisode>,
}

#[derive(Default, Debug, Clone, PartialEq)]
pub struct StandardMediaObject {
    pub title: String,
    pub year: u16,
    pub ids: MediaIds,
    pub seasons: Option<Vec<Season>>,
    pub episodes: Option<Vec<SeasonEpisode>>,
}

pub fn get_auth_url(client_id: &str, redirect_url: &str) -> (r: String)
    ensures
        r@ == API_URL@ + "oauth/authorize?response_type=code&redirect_uri="@ + redirect_url@
            + "&client_id="@ + client_id@,
{
    let mut result = String::from_str(API_URL);
    result.append("oauth/authorize?response_type=code&redirect_uri=");
    result.append(redirect_url);
    result.append("&client_id=");
    result.append(client_id);
    result
}

#[derive(Default, Debug, Clone, PartialEq)]
pub struct Rank {
    kind: String,
    votes: u32,
}

#[derive(Debug, Clone)]
pub struct AirInfo {
    pub day: Option<String>,
    pub time: Option<String>,
    pub timezone: Option<String>,
}

} // verus!
