use simkl::calendar::get_monthly_request;
use simkl::get_auth_url;
use simkl::get_extended_parameter;
use simkl::get_pagination_parameter;
use simkl::pin::get_code_status_request;
use simkl::pin::get_pin_request;
use simkl::sync::get_add_ratings_request;
use simkl::sync::get_add_to_history_request;
use simkl::sync::get_add_to_list_request;
use simkl::sync::get_all_items_request;
use simkl::sync::get_check_if_watched_request;
use simkl::sync::get_remove_from_history_request;
use simkl::sync::get_remove_ratings_request;
use simkl::Extended;
use simkl::Timestamp;

#[test]
fn monthly_request_formats_year_and_month() {
    assert_eq!(
        get_monthly_request(simkl::calendar::Type::Tv, 2025, 1),
        "https://api.simkl.comcalendar/2025/1/tv.json"
    );
    assert_eq!(
        get_monthly_request(simkl::calendar::Type::Anime, 2024, 12),
        "https://api.simkl.comcalendar/2024/12/anime.json"
    );
    assert_eq!(
        get_monthly_request(simkl::calendar::Type::Movie, 1999, 7),
        "https://api.simkl.comcalendar/1999/7/movie_release.json"
    );
}

#[test]
fn pin_requests_carry_their_ids() {
    assert_eq!(
        get_pin_request(String::from("cid"), String::from("https://app/cb")),
        "https://api.simkl.comoauth/pin?client_id=cid&redirect=https://app/cb"
    );
    assert_eq!(
        get_code_status_request(String::from("USER1"), String::from("cid")),
        "https://api.simkl.comoauth/pin/USER1?client_id=cid"
    );
}

#[test]
fn auth_url_carries_redirect_and_client() {
    assert_eq!(
        get_auth_url("cid", "https://app/cb"),
        "https://api.simkl.comoauth/authorize?response_type=code&redirect_uri=https://app/cb&client_id=cid"
    );
}

#[test]
fn pagination_parameter_formats_both_numbers() {
    assert_eq!(get_pagination_parameter(2, 10), "?page=2&limit=10");
    assert_eq!(get_pagination_parameter(0, 65535), "?page=0&limit=65535");
}

#[test]
fn extended_parameter_full_is_default() {
    assert_eq!(get_extended_parameter(Extended::default()), Ok(String::from("full")));
}

#[test]
fn extended_parameter_joins_selected_fields() {
    let e = Extended {
        full: false,
        title: true,
        slug: true,
        overview: false,
        metadata: false,
        theater: false,
        genres: true,
        tmdb: false,
    };
    assert_eq!(get_extended_parameter(e), Ok(String::from("title,slug,genres")));
    let nothing = Extended {
        full: false,
        title: false,
        slug: false,
        overview: false,
        metadata: false,
        theater: false,
        genres: false,
        tmdb: false,
    };
    assert_eq!(get_extended_parameter(nothing), Ok(String::from("")));
}

#[test]
fn extended_parameter_rejects_full_with_fields() {
    let e = Extended { title: true, ..Extended::default() };
    assert_eq!(
        get_extended_parameter(e),
        Err("extended cannot be full and have another parameter")
    );
}

#[test]
fn sync_requests_are_fixed_paths() {
    assert_eq!(get_add_to_history_request(), "https://api.simkl.comsync/history");
    assert_eq!(get_remove_from_history_request(), "https://api.simkl.comsync/history/remove");
    assert_eq!(get_add_ratings_request(), "https://api.simkl.comsync/ratings");
    assert_eq!(get_remove_ratings_request(), "https://api.simkl.comsync/ratings/remove");
    assert_eq!(get_add_to_list_request(), "https://api.simkl.comsync/add-to-list");
    assert_eq!(get_check_if_watched_request(), "https://api.simkl.comsync/watched");
}

#[test]
fn all_items_request_appends_filter_and_date_marker() {
    assert_eq!(
        get_all_items_request(None, None, None),
        "https://api.simkl.com/sync/all-items/"
    );
    assert_eq!(
        get_all_items_request(Some(String::from("movies")), None, Some(Extended::default())),
        "https://api.simkl.com/sync/all-items/movies/"
    );
    assert_eq!(
        get_all_items_request(Some(String::from("anime")), Some(Timestamp { unix_secs: 0 }), None),
        "https://api.simkl.com/sync/all-items/anime/?date_from="
    );
}
