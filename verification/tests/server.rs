use svc_telemetry::error::GatewayError;
use svc_telemetry::server::{decimal, is_header_value, Config, ServerPlan, RATE_WINDOW_MS};

fn config() -> Config {
    Config {
        docker_port_rest: 8000,
        rest_cors_allowed_origin: "http://localhost:3000".to_string(),
        rest_request_limit_per_second: 2,
        rest_concurrency_limit_per_service: 5,
        jwt_secret: Some("secret".to_string()),
    }
}

#[test]
fn plan_follows_the_configuration() {
    let mut plan = ServerPlan::new(&config()).unwrap();
    assert_eq!(plan.bind_address, "[::]:8000");
    assert_eq!(plan.jwt_secret, "secret");
    assert_eq!(RATE_WINDOW_MS, 1000);
    assert_eq!(plan.admission.enter(Some("http://localhost:3000"), 0), Ok(()));
    assert_eq!(plan.admission.enter(None, 999), Ok(()));
    assert_eq!(plan.admission.enter(None, 999).unwrap_err(), GatewayError::AdmissionRejected);
    assert_eq!(plan.admission.enter(None, 1000), Ok(()));
    assert_eq!(
        plan.admission.enter(Some("http://elsewhere"), 1000).unwrap_err(),
        GatewayError::OriginNotAllowed
    );
}

#[test]
fn plan_refuses_a_missing_secret() {
    let mut config = config();
    config.jwt_secret = None;
    assert_eq!(ServerPlan::new(&config).err(), Some(GatewayError::ConfigError));
}

#[test]
fn plan_refuses_zero_limits() {
    let mut no_rate = config();
    no_rate.rest_request_limit_per_second = 0;
    assert_eq!(ServerPlan::new(&no_rate).err(), Some(GatewayError::ConfigError));
    let mut no_room = config();
    no_room.rest_concurrency_limit_per_service = 0;
    assert_eq!(ServerPlan::new(&no_room).err(), Some(GatewayError::ConfigError));
}

#[test]
fn plan_refuses_an_origin_that_no_header_can_carry() {
    for origin in ["http://local\nhost", "\u{7f}", "a\rb", "\u{0}"] {
        let mut config = config();
        config.rest_cors_allowed_origin = origin.to_string();
        assert_eq!(ServerPlan::new(&config).err(), Some(GatewayError::ConfigError));
    }
    for origin in ["", "*", "http://localhost", "tab\there", "caf\u{e9}"] {
        let mut config = config();
        config.rest_cors_allowed_origin = origin.to_string();
        assert!(ServerPlan::new(&config).is_ok());
    }
}

#[test]
fn header_values_hold_no_control_characters() {
    assert!(is_header_value(""));
    assert!(is_header_value("http://localhost:3000"));
    assert!(is_header_value(" ~\t"));
    assert!(is_header_value("\u{80}\u{ff}"));
    assert!(!is_header_value("\u{1f}"));
    assert!(!is_header_value("abc\u{7f}"));
    assert!(!is_header_value("\n"));
}

#[test]
fn numbers_are_written_in_decimal() {
    assert_eq!(decimal(0), "0");
    assert_eq!(decimal(7), "7");
    assert_eq!(decimal(10), "10");
    assert_eq!(decimal(8000), "8000");
    assert_eq!(decimal(65535), "65535");
    assert_eq!(decimal(1234567890), "1234567890");
    assert_eq!(decimal(u64::MAX), "18446744073709551615");
}

#[test]
fn bind_address_covers_every_port() {
    for port in [0u16, 1, 80, 8000, 50051, 65535] {
        let mut config = config();
        config.docker_port_rest = port;
        assert_eq!(ServerPlan::new(&config).unwrap().bind_address, format!("[::]:{port}"));
    }
}
