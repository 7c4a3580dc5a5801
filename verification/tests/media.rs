use std::collections::HashMap;

use simkl::response::SimklResponse;
use simkl::MediaIds;
use simkl::MediaType;
use simkl::SimklError;

#[test]
fn media_type_names_round_trip() {
    assert_eq!(MediaType::Movie.as_str(), "movie");
    assert_eq!(MediaType::Show.as_str(), "show");
    assert_eq!(MediaType::Anime.as_str(), "anime");
    assert_eq!(MediaType::Episode.as_str(), "episode");
    assert_eq!(MediaType::from_str("movie"), Ok(MediaType::Movie));
    assert_eq!(MediaType::from_str("SHOW"), Ok(MediaType::Show));
    assert_eq!(MediaType::from_str("Anime"), Ok(MediaType::Anime));
    assert_eq!(MediaType::from_str("ePisode"), Ok(MediaType::Episode));
    assert_eq!(MediaType::from_str("banana"), Err(()));
}

#[test]
fn media_ids_builders_set_their_field() {
    let ids = MediaIds::new().with_simkl(1).with_imdb(String::from("tt1")).with_tmdb(2).with_mal(3);
    assert_eq!(ids.simkl, Some(1));
    assert_eq!(ids.imdb, Some(String::from("tt1")));
    assert_eq!(ids.tmdb, Some(2));
    assert_eq!(ids.mal, Some(3));
    assert_eq!(ids.slug, None);
    assert!(ids.has_any_id());
    assert!(!MediaIds::new().has_any_id());
}

#[test]
fn primary_id_prefers_simkl_then_imdb_then_tmdb() {
    let all = MediaIds::new().with_simkl(7).with_imdb(String::from("tt9")).with_tmdb(11);
    assert_eq!(all.primary_id(), Some(String::from("7")));
    let no_simkl = MediaIds::new().with_imdb(String::from("tt9")).with_tmdb(11);
    assert_eq!(no_simkl.primary_id(), Some(String::from("tt9")));
    let only_tmdb = MediaIds::new().with_tmdb(11);
    assert_eq!(only_tmdb.primary_id(), Some(String::from("11")));
    assert_eq!(MediaIds::new().with_mal(5).primary_id(), None);
}

#[test]
fn response_status_classes() {
    let ok = SimklResponse::new(204, HashMap::new(), String::new());
    assert!(ok.is_success());
    assert!(!ok.is_client_error());
    assert!(!ok.is_server_error());
    let not_found = SimklResponse::new(404, HashMap::new(), String::new());
    assert!(!not_found.is_success());
    assert!(not_found.is_client_error());
    assert!(!not_found.is_server_error());
    let broken = SimklResponse::new(502, HashMap::new(), String::new());
    assert!(!broken.is_success());
    assert!(!broken.is_client_error());
    assert!(broken.is_server_error());
}

#[test]
fn json_value_parses_a_document() {
    let resp = SimklResponse::new(
        200,
        HashMap::new(),
        String::from("{\"name\":\"simkl\",\"year\":2025}"),
    );
    let value = resp.json_value().unwrap();
    assert_eq!(value["name"], serde_json::Value::String(String::from("simkl")));
    assert_eq!(value["year"], serde_json::Value::from(2025));
}

#[test]
fn json_value_reports_broken_bodies() {
    let resp = SimklResponse::new(200, HashMap::new(), String::from("not json"));
    let err = resp.json_value().unwrap_err();
    assert!(matches!(err, SimklError::Json(_)));
}

#[test]
fn invalid_url_error_wraps_the_parse_error() {
    let parse_err = url::Url::parse("http://[:::1]").unwrap_err();
    let err = SimklError::from(parse_err);
    assert!(matches!(err, SimklError::InvalidUrl(_)));
}
