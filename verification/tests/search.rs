use simkl::search::get_find_random_request;
use simkl::search::get_search_by_id_request;
use simkl::search::FindRandomPayload;
use simkl::search::IdLookup;

#[test]
fn test_id_request() {
    let payload = IdLookup { simkl: Some(123), ..Default::default() };
    let client_id = String::from("azerty123456");
    assert_eq!(
        get_search_by_id_request(payload.clone(), client_id),
        "https://api.simkl.com/search?client_id=azerty123456&simkl=123"
    );
}

#[test]
fn id_request_all_narrowers() {
    let payload = IdLookup {
        imdb: Some(String::from("tt0944947")),
        media_type: Some(String::from("show")),
        title: Some(String::from("Game of Thrones")),
        year: Some(2011),
        ..Default::default()
    };
    let client_id = String::from("k");
    assert_eq!(
        get_search_by_id_request(payload, client_id),
        "https://api.simkl.com/search?client_id=k&imdb=tt0944947&type=show&title=Game of Thrones&year=2011"
    );
}

#[test]
fn id_request_keeps_field_order() {
    let payload = IdLookup {
        simkl: Some(1),
        hulu: Some(2),
        netflix: Some(3),
        mal: Some(4),
        tvdb: Some(5),
        tmdb: Some(6),
        anidb: Some(7),
        crunchyroll: Some(8),
        anilist: Some(9),
        kitsu: Some(10),
        livechart: Some(11),
        anisearch: Some(12),
        animeplanet: Some(13),
        ..Default::default()
    };
    assert_eq!(
        get_search_by_id_request(payload, String::from("c")),
        "https://api.simkl.com/search?client_id=c&simkl=1&hulu=2&netflix=3&mal=4&tvdb=5&tmdb=6\
         &anidb=7&crunchyroll=8&anilist=9&kitsu=10&livechart=11&anisearch=12&animeplanet=13"
    );
}

#[test]
fn find_random_request_is_fixed() {
    let payload = FindRandomPayload {
        service: String::from("simkl"),
        media_type: simkl::calendar::Type::Tv,
        movie_genre: simkl::movie::MovieGenre::comedy,
        tv_genre: simkl::show::TvGenre::comedy,
        anime_genre: simkl::anime::AnimeGenre::comedy,
        rating_from: 5,
        rating_to: Some(10),
        rank_limit: 2000,
        year_from: Some(2004),
        year_to: Some(2010),
        limit: 10,
    };
    assert_eq!(
        get_find_random_request(payload, String::from("c")),
        "https://api.simkl.comsearch/random/"
    );
}
