//! The routes of the REST surface.

use crate::telemetry::TelemetryFormat;
use vstd::prelude::*;

verus! {

/// The request methods that the gateway tells apart.
#[derive(Clone, Copy, Debug, PartialEq, Eq, Structural)]
pub enum Method {
    Get,
    Post,
    Other,
}

/// The handlers.
#[derive(Clone, Copy, Debug, PartialEq, Eq, Structural)]
pub enum Route {
    /// `GET /health`: liveness probe.
    Health,
    /// `GET /telemetry/login`: trades an identifier for a token.
    Login,
    /// `POST /telemetry/netrid`: Network Remote ID, authenticated.
    NetworkRemoteId,
    /// `POST /telemetry/mavlink/adsb`: ADS-B wrapped in MAVLink.
    MavlinkAdsb,
    /// `POST /telemetry/adsb`: a raw ADS-B frame.
    Adsb,
}

/// Where a request goes.
#[derive(Clone, Copy, Debug, PartialEq, Eq, Structural)]
pub enum Routing {
    /// To this handler.
    Handler(Route),
    /// The path is served, but not by this method (`405`).
    MethodNotAllowed,
    /// The path is not served (`404`).
    NotFound,
}

/// The handler that serves `path`, and the method it serves it by.
pub open spec fn served(path: Seq<char>) -> Option<(Route, Method)> {
    if path == "/health"@ {
        Some((Route::Health, Method::Get))
    } else if path == "/telemetry/login"@ {
        Some((Route::Login, Method::Get))
    } else if path == "/telemetry/netrid"@ {
        Some((Route::NetworkRemoteId, Method::Post))
    } else if path == "/telemetry/mavlink/adsb"@ {
        Some((Route::MavlinkAdsb, Method::Post))
    } else if path == "/telemetry/adsb"@ {
        Some((Route::Adsb, Method::Post))
    } else {
        None
    }
}

/// Where a request with this method and path goes.
pub open spec fn route_spec(method: Method, path: Seq<char>) -> Routing {
    match served(path) {
        Some((route, by)) => if by == method {
            Routing::Handler(route)
        } else {
            Routing::MethodNotAllowed
        },
        None => Routing::NotFound,
    }
}

/// Whether a route is open to authenticated reporters only.
pub open spec fn requires_auth_spec(route: Route) -> bool {
    route == Route::NetworkRemoteId
}

/// The telemetry format that a route ingests, if it ingests any.
pub open spec fn format_spec(route: Route) -> Option<TelemetryFormat> {
    match route {
        Route::Health => None,
        Route::Login => None,
        Route::NetworkRemoteId => Some(TelemetryFormat::NetworkRemoteId),
        Route::MavlinkAdsb => Some(TelemetryFormat::Mavlink),
        Route::Adsb => Some(TelemetryFormat::Adsb),
    }
}

/// Whether two texts are the same.
pub fn same_text(a: &str, b: &str) -> (r: bool)
    ensures
        r == (a@ == b@),
{
    a.to_owned() == b.to_owned()
}

impl Route {
    /// Whether the route is open to authenticated reporters only.
    pub fn requires_auth(&self) -> (r: bool)
        ensures
            r == requires_auth_spec(*self),
    {
        match self {
            Route::NetworkRemoteId => true,
            _ => false,
        }
    }

    /// The telemetry format that the route ingests, if it ingests any.
    pub fn format(&self) -> (r: Option<TelemetryFormat>)
        ensures
            r == format_spec(*self),
    {
        match self {
            Route::Health => None,
            Route::Login => None,
            Route::NetworkRemoteId => Some(TelemetryFormat::NetworkRemoteId),
            Route::MavlinkAdsb => Some(TelemetryFormat::Mavlink),
            Route::Adsb => Some(TelemetryFormat::Adsb),
        }
    }
}

/// Finds the handler of a request.
pub fn route(method: Method, path: &str) -> (r: Routing)
    ensures
        r == route_spec(method, path@),
{
    let found = if same_text(path, "/health") {
        (Route::Health, Method::Get)
    } else if same_text(path, "/telemetry/login") {
        (Route::Login, Method::Get)
    } else if same_text(path, "/telemetry/netrid") {
        (Route::NetworkRemoteId, Method::Post)
    } else if same_text(path, "/telemetry/mavlink/adsb") {
        (Route::MavlinkAdsb, Method::Post)
    } else if same_text(path, "/telemetry/adsb") {
        (Route::Adsb, Method::Post)
    } else {
        return Routing::NotFound;
    };
    if found.1 == method {
        Routing::Handler(found.0)
    } else {
        Routing::MethodNotAllowed
    }
}

} // verus!
