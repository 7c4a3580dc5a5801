use simkl::request::AnimeRequest;
use simkl::request::EpisodesRequest;
use simkl::request::MovieRequest;
use simkl::request::SearchRequest;
use simkl::request::ShowRequest;
use simkl::request::SimklRequest;
use simkl::MediaType;

#[test]
fn search_request_builds_plain_url() {
    let req = SearchRequest::new(String::from("naruto"));
    assert_eq!(req.endpoint(), "/search");
    assert_eq!(req.method(), "GET");
    assert_eq!(req.body(), None);
    assert!(req.headers().is_empty());
    assert_eq!(req.build_url(), "https://api.simkl.com/search?q=naruto");
}

#[test]
fn search_request_percent_encodes_values() {
    let req = SearchRequest::new(String::from("the great escape"));
    assert_eq!(req.build_url(), "https://api.simkl.com/search?q=the%20great%20escape");
}

#[test]
fn search_request_carries_every_option() {
    let req = SearchRequest::new(String::from("dune"))
        .with_type(MediaType::Movie)
        .with_limit(20)
        .with_page(2)
        .with_extended(String::from("full"));
    assert_eq!(
        req.build_url(),
        "https://api.simkl.com/search/movie?q=dune&limit=20&page=2&extended=full"
    );
}

#[test]
fn search_request_caps_the_limit() {
    let req = SearchRequest::new(String::from("x")).with_limit(120);
    assert_eq!(req.limit, Some(50));
}

#[test]
fn search_endpoints_follow_the_type() {
    assert_eq!(SearchRequest::new(String::new()).with_type(MediaType::Show).endpoint(), "/search/tv");
    assert_eq!(SearchRequest::new(String::new()).with_type(MediaType::Anime).endpoint(), "/search/anime");
    assert_eq!(SearchRequest::new(String::new()).with_type(MediaType::Episode).endpoint(), "/search/episode");
}

#[test]
fn movie_request_url() {
    let req = MovieRequest::new(String::from("tt0133093"));
    assert_eq!(req.build_url(), "https://api.simkl.com/movies/tt0133093");
    let req = req.with_extended(String::from("full"));
    assert_eq!(req.build_url(), "https://api.simkl.com/movies/tt0133093?extended=full");
}

#[test]
fn show_and_anime_request_urls() {
    assert_eq!(
        ShowRequest::new(String::from("123")).build_url(),
        "https://api.simkl.com/tv/123"
    );
    assert_eq!(
        AnimeRequest::new(String::from("456")).with_extended(String::from("full")).build_url(),
        "https://api.simkl.com/anime/456?extended=full"
    );
}

#[test]
fn episodes_request_url_with_and_without_season() {
    let req = EpisodesRequest::new(String::from("99"));
    assert_eq!(req.build_url(), "https://api.simkl.com/tv/99/episodes");
    let req = req.with_season(3).with_extended(String::from("full"));
    assert_eq!(req.build_url(), "https://api.simkl.com/tv/99/episodes/3?extended=full");
}
