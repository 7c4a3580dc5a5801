//! Search endpoints: by service id, by title, by file name, and random
//! picks.

use crate::anime::AnimeGenre;
use crate::movie::MovieGenre;
use crate::show::TvGenre;
use crate::text::dec_of;
use crate::text::fmt_u32;
use crate::API_URL;
use vstd::prelude::*;

verus! {

pub struct FindByFilePayload {
    /// Try to find the file from the filename, example:
    /// `Were.The.Fugawis.S01E01E02.WS.DSR.x264-NY2.mkv`
    pub file: String,
    /// Some filenames consist of 2 or more parts. If you want to get info
    /// about second part for example you can pass 2 to this parameter
    pub part: Option<u8>,
}

/// Find by file URL, use `FindByFilePayload` with this
pub const FIND_BY_FILE_URL: &'static str = "https://api.simkl.com/search/file";

/// Struct used to build the payload of a search by ID
#[derive(Default, Debug, Clone, PartialEq)]
pub struct IdLookup {
    pub simkl: Option<u32>,
    pub hulu: Option<u32>,
    pub netflix: Option<u32>,
    pub mal: Option<u32>,
    pub tvdb: Option<u32>,
    pub tmdb: Option<u32>,
    pub imdb: Option<String>,
    pub anidb: Option<u32>,
    pub crunchyroll: Option<u32>,
    pub anilist: Option<u32>,
    pub kitsu: Option<u32>,
    pub livechart: Option<u32>,
    pub anisearch: Option<u32>,
    pub animeplanet: Option<u32>,
    /// Possible values are: show, movie
    pub media_type: Option<String>,
    /// TV show, anime, or movie title. If this title has more then 1 item
    /// then null will be returned, add more fields to narrow down the
    /// search to 1 item (such as type, year etc.). Example:
    /// `The Walking Dead`.
    pub title: Option<String>,
    pub year: Option<u16>,
}

/// `&name=<id>` when the id is given, nothing otherwise.
pub open spec fn num_param(name: Seq<char>, v: Option<u32>) -> Seq<char> {
    match v {
        Some(x) => name + dec_of(x as nat),
        None => Seq::empty(),
    }
}

/// `&name=<text>` when the text is given, nothing otherwise.
pub open spec fn txt_param(name: Seq<char>, v: Option<String>) -> Seq<char> {
    match v {
        Some(s) => name + s@,
        None => Seq::empty(),
    }
}

/// The first run of `&name=<value>` pairs: Simkl's own id and the
/// streaming and movie database ids.
pub open spec fn id_lookup_media_ids(p: IdLookup) -> Seq<char> {
    num_param("&simkl="@, p.simkl) + num_param("&hulu="@, p.hulu) + num_param(
        "&netflix="@,
        p.netflix,
    ) + num_param("&mal="@, p.mal) + num_param("&tvdb="@, p.tvdb) + num_param("&tmdb="@, p.tmdb)
        + txt_param("&imdb="@, p.imdb)
}

/// The second run of `&name=<value>` pairs: the anime database ids.
pub open spec fn id_lookup_anime_ids(p: IdLookup) -> Seq<char> {
    num_param("&anidb="@, p.anidb) + num_param("&crunchyroll="@, p.crunchyroll) + num_param(
        "&anilist="@,
        p.anilist,
    ) + num_param("&kitsu="@, p.kitsu) + num_param("&livechart="@, p.livechart) + num_param(
        "&anisearch="@,
        p.anisearch,
    ) + num_param("&animeplanet="@, p.animeplanet)
}

/// The closing `&name=<value>` pairs: the title search narrowers.
pub open spec fn id_lookup_narrowers(p: IdLookup) -> Seq<char> {
    txt_param("&type="@, p.media_type) + txt_param("&title="@, p.title) + (match p.year {
        Some(y) => "&year="@ + dec_of(y as nat),
        None => Seq::<char>::empty(),
    })
}

/// The query string `get_search_by_id_request` appends after the client
/// id: one `&name=<value>` pair per field that the payload carries, in a
/// fixed order.
pub open spec fn id_lookup_params(p: IdLookup) -> Seq<char> {
    id_lookup_media_ids(p) + id_lookup_anime_ids(p) + id_lookup_narrowers(p)
}

fn push_num_param(result: &mut String, name: &str, v: Option<u32>)
    ensures
        final(result)@ == old(result)@ + num_param(name@, v),
{
    if let Some(id) = v {
        result.append(name);
        let s = fmt_u32(id);
        result.append(s.as_str());
    }
    proof {
        assert(result@ =~= old(result)@ + num_param(name@, v));
    }
}

fn push_txt_param(result: &mut String, name: &str, v: &Option<String>)
    ensures
        final(result)@ == old(result)@ + txt_param(name@, *v),
{
    if let Some(t) = v {
        result.append(name);
        result.append(t.as_str());
    }
    proof {
        assert(result@ =~= old(result)@ + txt_param(name@, *v));
    }
}

#[verifier::rlimit(50)]
fn push_media_ids(result: &mut String, payload: &IdLookup)
    ensures
        final(result)@ == old(result)@ + id_lookup_media_ids(*payload),
{
    push_num_param(result, "&simkl=", payload.simkl);
    push_num_param(result, "&hulu=", payload.hulu);
    push_num_param(result, "&netflix=", payload.netflix);
    push_num_param(result, "&mal=", payload.mal);
    push_num_param(result, "&tvdb=", payload.tvdb);
    push_num_param(result, "&tmdb=", payload.tmdb);
    push_txt_param(result, "&imdb=", &payload.imdb);
    proof {
        assert(result@ =~= old(result)@ + id_lookup_media_ids(*payload));
    }
}

#[verifier::rlimit(50)]
fn push_anime_ids(result: &mut String, payload: &IdLookup)
    ensures
        final(result)@ == old(result)@ + id_lookup_anime_ids(*payload),
{
    push_num_param(result, "&anidb=", payload.anidb);
    push_num_param(result, "&crunchyroll=", payload.crunchyroll);
    push_num_param(result, "&anilist=", payload.anilist);
    push_num_param(result, "&kitsu=", payload.kitsu);
    push_num_param(result, "&livechart=", payload.livechart);
    push_num_param(result, "&anisearch=", payload.anisearch);
    push_num_param(result, "&animeplanet=", payload.animeplanet);
    proof {
        assert(result@ =~= old(result)@ + id_lookup_anime_ids(*payload));
    }
}

fn push_narrowers(result: &mut String, payload: &IdLookup)
    ensures
        final(result)@ == old(result)@ + id_lookup_narrowers(*payload),
{
    push_txt_param(result, "&type=", &payload.media_type);
    push_txt_param(result, "&title=", &payload.title);
    if let Some(y) = payload.year {
        result.append("&year=");
        let s = fmt_u32(y as u32);
        result.append(s.as_str());
    }
    proof {
        assert(result@ =~= old(result)@ + id_lookup_narrowers(*payload));
    }
}

pub fn get_search_by_id_request(payload: IdLookup, client_id: String) -> (r: String)
    ensures
        r@ == API_URL@ + "/search?client_id="@ + client_id@ + id_lookup_params(payload),
{
    let mut result = String::from_str(API_URL);
    result.append("/search?client_id=");
    result.append(client_id.as_str());
    push_media_ids(&mut result, &payload);
    push_anime_ids(&mut result, &payload);
    push_narrowers(&mut result, &payload);
    proof {
        assert(result@ =~= API_URL@ + "/search?client_id="@ + client_id@ + id_lookup_params(
            payload,
        ));
    }
    result
}

pub struct FindRandomPayload {
    pub service: String,
    /// tv, anime, or movie
    pub media_type: crate::calendar::Type,
    pub movie_genre: MovieGenre,
    pub tv_genre: TvGenre,
    pub anime_genre: AnimeGenre,
    /// Max value is 10. Random search for TV Shows and Movies will be
    /// performed using IMDB ratings. Anime are based on MAL ratings.
    ///
    /// Example: `5`. Default: `1`.
    pub rating_from: u8,
    /// Example: `10`
    pub rating_to: Option<u8>,
    /// Maximum rank allowed. Example: `2000`.
    pub rank_limit: u32,
    pub year_from: Option<u16>,
    pub year_to: Option<u16>,
    pub limit: u16,
}

/// If you want to find random item based on your filters. If Token is
/// passed, watched items will be excluded.
///
/// Examples:
/// * `https://api.simkl.com/search/random?service=simkl&type=tv&genre=comedy&rating_from=5&rating_to=10&year_from=2004&year_to=2010&limit=10&client_id=***`
/// * `https://api.simkl.com/search/random/netflix/?rating_from=5&rating_to=10&year_from=2008&year_to=2015&genre=science-fiction&client_id=***`
/// * `https://api.simkl.com/search/random/?rating_from=5&rating_to=10&year_from=2008&year_to=2015&genre=science-fiction&client_id=***`
pub fn get_find_random_request(payload: FindRandomPayload, client_id: String) -> (r: String)
    ensures
        r@ == API_URL@ + "search/random/"@,
{
    let _ = payload;
    let _ = client_id;
    let mut result = String::from_str(API_URL);
    result.append("search/random/");
    result
}

} // verus!
