use svc_telemetry::router::{route, same_text, Method, Route, Routing};
use svc_telemetry::telemetry::TelemetryFormat;

#[test]
fn every_route_is_found_by_its_method_and_path() {
    assert_eq!(route(Method::Get, "/health"), Routing::Handler(Route::Health));
    assert_eq!(route(Method::Get, "/telemetry/login"), Routing::Handler(Route::Login));
    assert_eq!(route(Method::Post, "/telemetry/netrid"), Routing::Handler(Route::NetworkRemoteId));
    assert_eq!(route(Method::Post, "/telemetry/mavlink/adsb"), Routing::Handler(Route::MavlinkAdsb));
    assert_eq!(route(Method::Post, "/telemetry/adsb"), Routing::Handler(Route::Adsb));
}

#[test]
fn served_path_by_another_method_is_not_allowed() {
    assert_eq!(route(Method::Post, "/health"), Routing::MethodNotAllowed);
    assert_eq!(route(Method::Post, "/telemetry/login"), Routing::MethodNotAllowed);
    assert_eq!(route(Method::Get, "/telemetry/netrid"), Routing::MethodNotAllowed);
    assert_eq!(route(Method::Other, "/telemetry/adsb"), Routing::MethodNotAllowed);
}

#[test]
fn other_paths_are_not_found() {
    for path in ["", "/", "/health/", "/telemetry", "/telemetry/aircraft/adsb", "/HEALTH", "health"] {
        assert_eq!(route(Method::Get, path), Routing::NotFound);
        assert_eq!(route(Method::Post, path), Routing::NotFound);
    }
}

#[test]
fn only_remote_id_requires_a_token() {
    assert!(Route::NetworkRemoteId.requires_auth());
    for open in [Route::Health, Route::Login, Route::MavlinkAdsb, Route::Adsb] {
        assert!(!open.requires_auth());
    }
}

#[test]
fn ingestion_routes_have_their_formats() {
    assert_eq!(Route::Health.format(), None);
    assert_eq!(Route::Login.format(), None);
    assert_eq!(Route::NetworkRemoteId.format(), Some(TelemetryFormat::NetworkRemoteId));
    assert_eq!(Route::MavlinkAdsb.format(), Some(TelemetryFormat::Mavlink));
    assert_eq!(Route::Adsb.format(), Some(TelemetryFormat::Adsb));
}

#[test]
fn texts_are_compared_by_their_characters() {
    assert!(same_text("", ""));
    assert!(same_text("abc", "abc"));
    assert!(!same_text("abc", "abd"));
    assert!(!same_text("abc", "ab"));
}
