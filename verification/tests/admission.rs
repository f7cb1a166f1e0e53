use svc_telemetry::admission::{Admission, ConcurrencyLimiter, RateLimiter};
use svc_telemetry::error::GatewayError;

#[test]
fn rate_limiter_refuses_a_zero_rate_or_window() {
    assert_eq!(RateLimiter::new(0, 1000).unwrap_err(), GatewayError::ConfigError);
    assert_eq!(RateLimiter::new(100, 0).unwrap_err(), GatewayError::ConfigError);
    assert!(RateLimiter::new(1, 1).is_ok());
}

#[test]
fn rate_limiter_admits_the_rate_per_window() {
    let mut limiter = RateLimiter::new(3, 1000).unwrap();
    assert!(limiter.allow(5000));
    assert!(limiter.allow(5000));
    assert!(limiter.allow(5999));
    assert!(!limiter.allow(5999));
    assert!(!limiter.allow(4000));
    assert!(limiter.allow(6000));
    assert!(limiter.allow(6500));
    assert!(limiter.allow(6999));
    assert!(!limiter.allow(6999));
    assert!(limiter.allow(u64::MAX));
}

#[test]
fn sustained_overload_is_rejected_beyond_the_limit() {
    let mut limiter = RateLimiter::new(100, 1000).unwrap();
    for second in 0..10u64 {
        let mut rejected = 0;
        for request in 0..150u64 {
            if !limiter.allow(second * 1000 + request * 1000 / 150) {
                rejected += 1;
            }
        }
        assert_eq!(rejected, 50);
    }
}

#[test]
fn sustained_overload_gets_429_from_the_pipeline() {
    let mut admission = Admission::new("https://example.com".to_string(), 10, 100, 1000).unwrap();
    for second in 0..5u64 {
        let mut rejected = 0;
        for request in 0..150u64 {
            match admission.enter(None, second * 1000 + request * 1000 / 150) {
                Ok(()) => admission.done(),
                Err(error) => {
                    assert_eq!(error, GatewayError::AdmissionRejected);
                    assert_eq!(error.status_code(), 429);
                    rejected += 1;
                }
            }
        }
        assert!(rejected >= 50);
    }
}

#[test]
fn concurrency_limiter_counts_requests_in_flight() {
    let mut limiter = ConcurrencyLimiter::new(2);
    assert!(limiter.try_acquire());
    assert!(limiter.try_acquire());
    assert!(!limiter.try_acquire());
    limiter.release();
    assert!(limiter.try_acquire());
    assert!(!limiter.try_acquire());
    limiter.release();
    limiter.release();
    limiter.release();
    assert!(limiter.try_acquire());
    assert!(limiter.try_acquire());
    assert!(!limiter.try_acquire());
}

#[test]
fn pipeline_refuses_a_configuration_without_room() {
    for (concurrency, rate, per) in [(0, 100, 1000), (10, 0, 1000), (10, 100, 0)] {
        assert_eq!(
            Admission::new("https://example.com".to_string(), concurrency, rate, per).unwrap_err(),
            GatewayError::ConfigError
        );
    }
}

#[test]
fn pipeline_checks_the_origin_first() {
    let mut admission = Admission::new("https://example.com".to_string(), 1, 1, 1000).unwrap();
    let error = admission.enter(Some("https://evil.example"), 0).unwrap_err();
    assert_eq!(error, GatewayError::OriginNotAllowed);
    assert_eq!(error.status_code(), 403);
    assert_eq!(admission.enter(Some("https://example.com"), 0), Ok(()));
    assert_eq!(
        admission.enter(Some("https://evil.example"), 0).unwrap_err(),
        GatewayError::OriginNotAllowed
    );
}

#[test]
fn pipeline_limits_concurrency_whatever_the_rate() {
    let mut admission = Admission::new("https://example.com".to_string(), 2, 100, 1000).unwrap();
    assert_eq!(admission.enter(None, 0), Ok(()));
    assert_eq!(admission.enter(None, 0), Ok(()));
    assert_eq!(admission.enter(None, 0).unwrap_err(), GatewayError::AdmissionRejected);
    admission.done();
    assert_eq!(admission.enter(None, 0), Ok(()));
}

#[test]
fn request_turned_away_for_concurrency_costs_no_rate_budget() {
    let mut admission = Admission::new("https://example.com".to_string(), 1, 2, 1000).unwrap();
    assert_eq!(admission.enter(None, 0), Ok(()));
    for _ in 0..10 {
        assert!(admission.enter(None, 1).is_err());
    }
    admission.done();
    assert_eq!(admission.enter(None, 2), Ok(()));
}

#[test]
fn request_turned_away_for_rate_holds_no_slot() {
    let mut admission = Admission::new("https://example.com".to_string(), 1, 1, 1000).unwrap();
    assert_eq!(admission.enter(None, 0), Ok(()));
    admission.done();
    assert_eq!(admission.enter(None, 1).unwrap_err(), GatewayError::AdmissionRejected);
    assert_eq!(admission.enter(None, 2).unwrap_err(), GatewayError::AdmissionRejected);
    assert_eq!(admission.enter(None, 1000), Ok(()));
}
