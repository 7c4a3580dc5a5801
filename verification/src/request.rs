//! Request builders for the media endpoints, and the URL assembly they
//! share.

use crate::text::dec_of;
use crate::text::fmt_u32;
use crate::text::join_all;
use crate::text::joined;
use crate::MediaType;
use crate::API_URL;
use vstd::assert_seqs_equal;
use vstd::prelude::*;

verus! {

/// A name for what `urlencoding::encode` returns on a given string.
pub uninterp spec fn url_encoded(s: Seq<char>) -> Seq<char>;

/// Relies on urlencoding::encode: percent-encodes every byte except ASCII
/// alphanumerics and `-`, `_`, `.`, `~`; the result depends on the
/// characters alone.
#[verifier::external_body]
fn url_encode(s: &str) -> (r: String)
    ensures
        r@ == url_encoded(s@),
{
    urlencoding::encode(s).into_owned()
}

/// The view of an executable query-parameter list.
pub open spec fn params_view(params: Seq<(String, String)>) -> Seq<(Seq<char>, Seq<char>)> {
    params.map_values(|p: (String, String)| (p.0@, p.1@))
}

/// One percent-encoded `key=value` pair.
pub open spec fn encoded_pair(p: (Seq<char>, Seq<char>)) -> Seq<char> {
    url_encoded(p.0) + "="@ + url_encoded(p.1)
}

/// The URL assembled from an endpoint and query parameters: the API root,
/// the endpoint path, and, when any parameter is present, `?` followed by
/// the encoded pairs joined with `&`.
pub open spec fn assembled_url(endpoint: Seq<char>, params: Seq<(Seq<char>, Seq<char>)>) -> Seq<
    char,
> {
    if params.len() == 0 {
        API_URL@ + endpoint
    } else {
        API_URL@ + endpoint + "?"@ + joined(
            params.map_values(|p: (Seq<char>, Seq<char>)| encoded_pair(p)),
            "&"@,
        )
    }
}

/// Builds the URL that `assembled_url` describes.
fn assemble_url(endpoint: &str, params: &Vec<(String, String)>) -> (r: String)
    ensures
        r@ == assembled_url(endpoint@, params_view(params@)),
{
    let ghost pairs = params_view(params@).map_values(
        |p: (Seq<char>, Seq<char>)| encoded_pair(p),
    );
    let mut url = String::from_str(API_URL);
    url.append(endpoint);
    if params.len() > 0 {
        url.append("?");
        let mut parts: Vec<String> = Vec::new();
        let mut i: usize = 0;
        while i < params.len()
            invariant
                i <= params.len(),
                pairs == params_view(params@).map_values(
                    |p: (Seq<char>, Seq<char>)| encoded_pair(p),
                ),
                parts@.len() == i,
                forall|j: int| 0 <= j < i ==> #[trigger] parts@[j]@ == pairs[j],
            decreases params.len() - i,
        {
            let pair = &params[i];
            let mut part = url_encode(pair.0.as_str());
            part.append("=");
            let value = url_encode(pair.1.as_str());
            part.append(value.as_str());
            let ghost part_view = part@;
            parts.push(part);
            proof {
                assert(params_view(params@)[i as int] == (
                    params@[i as int].0@,
                    params@[i as int].1@,
                ));
                assert(pairs[i as int] == encoded_pair(params_view(params@)[i as int]));
                assert(parts@[i as int]@ == pairs[i as int]);
            }
            i = i + 1;
        }
        proof {
            assert_seqs_equal!(parts@.map_values(|p: String| p@) == pairs, j => {
                assert(parts@[j]@ == pairs[j]);
            });
        }
        let tail = join_all(&parts, "&");
        url.append(tail.as_str());
    }
    url
}

/// A request to the Simkl API: a path under the API root, a method, and
/// optional query parameters, body and headers. `spec_endpoint` and
/// `spec_params` state what the executable methods return.
pub trait SimklRequest {
    /// The path of this request under the API root.
    spec fn spec_endpoint(&self) -> Seq<char>;

    /// The query parameters this request carries, in order.
    spec fn spec_params(&self) -> Seq<(Seq<char>, Seq<char>)>;

    fn endpoint(&self) -> (r: String)
        ensures
            r@ == self.spec_endpoint(),
    ;

    fn method(&self) -> (r: &'static str)
        ensures
            r@ == "GET"@,
    ;

    fn query_params(&self) -> (r: Vec<(String, String)>)
        ensures
            params_view(r@) == self.spec_params(),
    ;

    fn body(&self) -> (r: Option<String>)
        ensures
            r is None,
    ;

    fn headers(&self) -> (r: Vec<(String, String)>)
        ensures
            r@.len() == 0,
    ;

    fn build_url(&self) -> (r: String)
        ensures
            r@ == assembled_url(self.spec_endpoint(), self.spec_params()),
    ;
}

/// The single `extended=<fields>` parameter most requests carry when set.
pub open spec fn extended_params(extended: Option<String>) -> Seq<(Seq<char>, Seq<char>)> {
    match extended {
        Some(e) => seq![("extended"@, e@)],
        None => Seq::empty(),
    }
}

fn extended_query_params(extended: &Option<String>) -> (r: Vec<(String, String)>)
    ensures
        params_view(r@) == extended_params(*extended),
{
    let mut params: Vec<(String, String)> = Vec::new();
    if let Some(e) = extended {
        params.push((String::from_str("extended"), e.clone()));
    }
    proof {
        assert(params_view(params@) =~= extended_params(*extended));
    }
    params
}

#[derive(Debug, Clone)]
pub struct SearchRequest {
    pub q: String,
    pub media_type: Option<MediaType>,
    pub limit: Option<u32>,
    pub page: Option<u32>,
    pub extended: Option<String>,
}

impl SearchRequest {
    pub fn new(query: String) -> (r: Self)
        ensures
            r.q == query,
            r.media_type is None,
            r.limit is None,
            r.page is None,
            r.extended is None,
    {
        Self { q: query, media_type: None, limit: None, page: None, extended: None }
    }

    pub fn with_type(self, media_type: MediaType) -> (r: Self)
        ensures
            r == (SearchRequest { media_type: Some(media_type), ..self }),
    {
        let mut req = self;
        req.media_type = Some(media_type);
        req
    }

    /// The API caps `limit` at 50.
    pub fn with_limit(self, limit: u32) -> (r: Self)
        ensures
            r == (SearchRequest {
                limit: Some(if limit < 50 { limit } else { 50u32 }),
                ..self
            }),
    {
        let mut req = self;
        req.limit = Some(if limit < 50 { limit } else { 50 });
        req
    }

    pub fn with_page(self, page: u32) -> (r: Self)
        ensures
            r == (SearchRequest { page: Some(page), ..self }),
    {
        let mut req = self;
        req.page = Some(page);
        req
    }

    pub fn with_extended(self, extended: String) -> (r: Self)
        ensures
            r == (SearchRequest { extended: Some(extended), ..self }),
    {
        let mut req = self;
        req.extended = Some(extended);
        req
    }
}

/// The search endpoint for each media type filter.
pub open spec fn search_endpoint(media_type: Option<MediaType>) -> Seq<char> {
    match media_type {
        Some(MediaType::Movie) => "/search/movie"@,
        Some(MediaType::Show) => "/search/tv"@,
        Some(MediaType::Anime) => "/search/anime"@,
        Some(MediaType::Episode) => "/search/episode"@,
        None => "/search"@,
    }
}

/// The query parameters of a search: the text always, then the limit,
/// page and extended selector when set.
pub open spec fn search_params(r: SearchRequest) -> Seq<(Seq<char>, Seq<char>)> {
    let s = seq![("q"@, r.q@)];
    let s = if r.limit is Some {
        s.push(("limit"@, dec_of(r.limit->0 as nat)))
    } else {
        s
    };
    let s = if r.page is Some {
        s.push(("page"@, dec_of(r.page->0 as nat)))
    } else {
        s
    };
    let s = if r.extended is Some {
        s.push(("extended"@, r.extended->0@))
    } else {
        s
    };
    s
}

impl SimklRequest for SearchRequest {
    open spec fn spec_endpoint(&self) -> Seq<char> {
        search_endpoint(self.media_type)
    }

    open spec fn spec_params(&self) -> Seq<(Seq<char>, Seq<char>)> {
        search_params(*self)
    }

    fn endpoint(&self) -> (r: String) {
        match &self.media_type {
            Some(MediaType::Movie) => String::from_str("/search/movie"),
            Some(MediaType::Show) => String::from_str("/search/tv"),
            Some(MediaType::Anime) => String::from_str("/search/anime"),
            Some(MediaType::Episode) => String::from_str("/search/episode"),
            None => String::from_str("/search"),
        }
    }

    fn method(&self) -> (r: &'static str) {
        "GET"
    }

    fn query_params(&self) -> (r: Vec<(String, String)>) {
        let mut params: Vec<(String, String)> = Vec::new();
        params.push((String::from_str("q"), self.q.clone()));

        if let Some(limit) = self.limit {
            params.push((String::from_str("limit"), fmt_u32(limit)));
        }

        if let Some(page) = self.page {
            params.push((String::from_str("page"), fmt_u32(page)));
        }

        if let Some(e) = &self.extended {
            params.push((String::from_str("extended"), e.clone()));
        }

        proof {
            assert(params_view(params@) =~= search_params(*self));
        }
        params
    }

    fn body(&self) -> (r: Option<String>) {
        None
    }

    fn headers(&self) -> (r: Vec<(String, String)>) {
        Vec::new()
    }

    fn build_url(&self) -> (r: String) {
        let endpoint = self.endpoint();
        let params = self.query_params();
        assemble_url(endpoint.as_str(), &params)
    }
}

#[derive(Debug, Clone)]
pub struct MovieRequest {
    pub id: String,
    pub extended: Option<String>,
}

impl MovieRequest {
    pub fn new(id: String) -> (r: Self)
        ensures
            r.id == id,
            r.extended is None,
    {
        Self { id, extended: None }
    }

    pub fn with_extended(self, extended: String) -> (r: Self)
        ensures
            r == (MovieRequest { extended: Some(extended), ..self }),
    {
        let mut req = self;
        req.extended = Some(extended);
        req
    }
}

impl SimklRequest for MovieRequest {
    open spec fn spec_endpoint(&self) -> Seq<char> {
        "/movies/"@ + self.id@
    }

    open spec fn spec_params(&self) -> Seq<(Seq<char>, Seq<char>)> {
        extended_params(self.extended)
    }

    fn endpoint(&self) -> (r: String) {
        let mut r = String::from_str("/movies/");
        r.append(self.id.as_str());
        r
    }

    fn method(&self) -> (r: &'static str) {
        "GET"
    }

    fn query_params(&self) -> (r: Vec<(String, String)>) {
        extended_query_params(&self.extended)
    }

    fn body(&self) -> (r: Option<String>) {
        None
    }

    fn headers(&self) -> (r: Vec<(String, String)>) {
        Vec::new()
    }

    fn build_url(&self) -> (r: String) {
        let endpoint = self.endpoint();
        let params = self.query_params();
        assemble_url(endpoint.as_str(), &params)
    }
}

#[derive(Debug, Clone)]
pub struct ShowRequest {
    pub id: String,
    pub extended: Option<String>,
}

impl ShowRequest {
    pub fn new(id: String) -> (r: Self)
        ensures
            r.id == id,
            r.extended is None,
    {
        Self { id, extended: None }
    }

    pub fn with_extended(self, extended: String) -> (r: Self)
        ensures
            r == (ShowRequest { extended: Some(extended), ..self }),
    {
        let mut req = self;
        req.extended = Some(extended);
        req
    }
}

impl SimklRequest for ShowRequest {
    open spec fn spec_endpoint(&self) -> Seq<char> {
        "/tv/"@ + self.id@
    }

    open spec fn spec_params(&self) -> Seq<(Seq<char>, Seq<char>)> {
        extended_params(self.extended)
    }

    fn endpoint(&self) -> (r: String) {
        let mut r = String::from_str("/tv/");
        r.append(self.id.as_str());
        r
    }

    fn method(&self) -> (r: &'static str) {
        "GET"
    }

    fn query_params(&self) -> (r: Vec<(String, String)>) {
        extended_query_params(&self.extended)
    }

    fn body(&self) -> (r: Option<String>) {
        None
    }

    fn headers(&self) -> (r: Vec<(String, String)>) {
        Vec::new()
    }

    fn build_url(&self) -> (r: String) {
        let endpoint = self.endpoint();
        let params = self.query_params();
        assemble_url(endpoint.as_str(), &params)
    }
}

#[derive(Debug, Clone)]
pub struct AnimeRequest {
    pub id: String,
    pub extended: Option<String>,
}

impl AnimeRequest {
    pub fn new(id: String) -> (r: Self)
        ensures
            r.id == id,
            r.extended is None,
    {
        Self { id, extended: None }
    }

    pub fn with_extended(self, extended: String) -> (r: Self)
        ensures
            r == (AnimeRequest { extended: Some(extended), ..self }),
    {
        let mut req = self;
        req.extended = Some(extended);
        req
    }
}

impl SimklRequest for AnimeRequest {
    open spec fn spec_endpoint(&self) -> Seq<char> {
        "/anime/"@ + self.id@
    }

    open spec fn spec_params(&self) -> Seq<(Seq<char>, Seq<char>)> {
        extended_params(self.extended)
    }

    fn endpoint(&self) -> (r: String) {
        let mut r = String::from_str("/anime/");
        r.append(self.id.as_str());
        r
    }

    fn method(&self) -> (r: &'static str) {
        "GET"
    }

    fn query_params(&self) -> (r: Vec<(String, String)>) {
        extended_query_params(&self.extended)
    }

    fn body(&self) -> (r: Option<String>) {
        None
    }

    fn headers(&self) -> (r: Vec<(String, String)>) {
        Vec::new()
    }

    fn build_url(&self) -> (r: String) {
        let endpoint = self.endpoint();
        let params = self.query_params();
        assemble_url(endpoint.as_str(), &params)
    }
}

#[derive(Debug, Clone)]
pub struct EpisodesRequest {
    pub show_id: String,
    pub season: Option<u32>,
    pub extended: Option<String>,
}

impl EpisodesRequest {
    pub fn new(show_id: String) -> (r: Self)
        ensures
            r.show_id == show_id,
            r.season is None,
            r.extended is None,
    {
        Self { show_id, season: None, extended: None }
    }

    pub fn with_season(self, season: u32) -> (r: Self)
        ensures
            r == (EpisodesRequest { season: Some(season), ..self }),
    {
        let mut req = self;
        req.season = Some(season);
        req
    }

    pub fn with_extended(self, extended: String) -> (r: Self)
        ensures
            r == (EpisodesRequest { extended: Some(extended), ..self }),
    {
        let mut req = self;
        req.extended = Some(extended);
        req
    }
}

/// The episodes endpoint: the whole show, or one season of it.
pub open spec fn episodes_endpoint(show_id: Seq<char>, season: Option<u32>) -> Seq<char> {
    match season {
        Some(s) => "/tv/"@ + show_id + "/episodes/"@ + dec_of(s as nat),
        None => "/tv/"@ + show_id + "/episodes"@,
    }
}

impl SimklRequest for EpisodesRequest {
    open spec fn spec_endpoint(&self) -> Seq<char> {
        episodes_endpoint(self.show_id@, self.season)
    }

    open spec fn spec_params(&self) -> Seq<(Seq<char>, Seq<char>)> {
        extended_params(self.extended)
    }

    fn endpoint(&self) -> (r: String) {
        let mut r = String::from_str("/tv/");
        r.append(self.show_id.as_str());
        if let Some(season) = self.season {
            r.append("/episodes/");
            let s = fmt_u32(season);
            r.append(s.as_str());
        } else {
            r.append("/episodes");
        }
        r
    }

    fn method(&self) -> (r: &'static str) {
        "GET"
    }

    fn query_params(&self) -> (r: Vec<(String, String)>) {
        extended_query_params(&self.extended)
    }

    fn body(&self) -> (r: Option<String>) {
        None
    }

    fn headers(&self) -> (r: Vec<(String, String)>) {
        Vec::new()
    }

    fn build_url(&self) -> (r: String) {
        let endpoint = self.endpoint();
        let params = self.query_params();
        assemble_url(endpoint.as_str(), &params)
    }
}

} // verus!
