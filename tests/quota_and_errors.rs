use rocket_governor::guard::{resolve, RouteInfo};
use rocket_governor::header::Header;
use rocket_governor::limit_error::{too_many_requests_body, ContentKind, HTML_BODY, JSON_BODY};
use rocket_governor::limiter::CheckOutcome;
use rocket_governor::registry::{verdict_of, wait_seconds};
use rocket_governor::{ClientAddr, LimitError, Method, Quota, Registry, RequestCache, RocketGovernable, RocketGovernor};

struct ZeroBurstGuard;

impl RocketGovernable for ZeroBurstGuard {
    fn quota(_method: Method, _route_name: &str) -> Quota {
        Quota { max_burst: 0, replenish_1_per_ns: 1 }
    }
}

#[test]
fn quota_constructors() {
    let q = Quota::per_second(1);
    assert_eq!(1, q.burst_size());
    assert_eq!(1_000_000_000, q.replenish_interval_ns());
    let q = Quota::per_minute(3);
    assert_eq!(20_000_000_000, q.replenish_interval_ns());
    let q = Quota::per_hour(4);
    assert_eq!(900_000_000_000, q.replenish_interval_ns());
    let q = Quota::per_hour(2).allow_burst(90);
    assert_eq!(90, q.burst_size());
    assert_eq!(1_800_000_000_000, q.replenish_interval_ns());
    assert_eq!(None, Quota::with_period(0));
    let q = Quota::with_period(2_000_000_000).unwrap();
    assert_eq!(1, q.burst_size());
    assert!(q.buildable());
    assert!(!Quota { max_burst: 0, replenish_1_per_ns: 5 }.buildable());
    assert!(!Quota { max_burst: 2, replenish_1_per_ns: u64::MAX }.buildable());
    assert!(!Quota::with_period(u64::MAX).unwrap().buildable());
    assert!(!Quota::with_period(u64::MAX / 4 + 1).unwrap().buildable());
    assert!(Quota::with_period(u64::MAX / 4).unwrap().buildable());
    assert!(Quota::per_second(1_000_000).buildable());
    assert!(!Quota::per_second(u32::MAX).buildable());
}

#[test]
fn wait_is_rounded_up() {
    assert_eq!(0, wait_seconds(0));
    assert_eq!(1, wait_seconds(1));
    assert_eq!(1, wait_seconds(1_000_000_000));
    assert_eq!(2, wait_seconds(1_000_000_001));
    assert_eq!(3600, wait_seconds(3_599_999_999_999));
}

#[test]
fn verdict_of_each_outcome() {
    let q = Quota::per_hour(4);
    assert_eq!(Ok(3), verdict_of(CheckOutcome::Allowed(3), q));
    assert_eq!(Err(LimitError::GovernedRequest(2, q)), verdict_of(CheckOutcome::Denied(1_500_000_000), q));
}

#[test]
fn status_and_headers_of_each_error() {
    let q = Quota::per_hour(4);
    let e = LimitError::GovernedRequest(120, q);
    assert_eq!(429, e.status());
    let h = e.headers();
    assert_eq!(3, h.len());
    assert!(matches!(h[0], Header::RetryAfter(120)));
    assert!(matches!(h[1], Header::XRateLimitLimit(4)));
    assert!(matches!(h[2], Header::XRateLimitReset(120)));

    let cases = [
        (LimitError::Error, "rate limiter error"),
        (LimitError::MissingClientIpAddr, "application not retrieving client ip"),
        (LimitError::MissingRoute, "routing failure"),
        (LimitError::MissingRouteName, "route without name"),
    ];
    for (e, text) in cases {
        assert_eq!(400, e.status());
        let h = e.headers();
        assert_eq!(1, h.len());
        assert_eq!("x-ratelimit-error", h[0].name());
        assert_eq!(text, h[0].value());
        let resp = e.respond_to(false);
        assert_eq!(400, resp.status);
    }
}

#[test]
fn content_negotiation() {
    assert_eq!((ContentKind::Json, JSON_BODY), too_many_requests_body(true));
    assert_eq!((ContentKind::Html, HTML_BODY), too_many_requests_body(false));
    assert!(JSON_BODY.contains("\"code\": 429"));
    assert!(HTML_BODY.starts_with("<!DOCTYPE html>"));
    assert!(HTML_BODY.contains("429"));
}

#[test]
fn resolution_errors() {
    let named = || Some(RouteInfo { method: Method::Get, name: Some("r".to_string()) });
    assert_eq!(Some(LimitError::MissingRoute), resolve(None, Some(ClientAddr::V4(1)), "g").err());
    let unnamed = Some(RouteInfo { method: Method::Get, name: None });
    assert_eq!(Some(LimitError::MissingRouteName), resolve(unnamed, None, "g").err());
    assert_eq!(Some(LimitError::MissingClientIpAddr), resolve(named(), None, "g").err());
    let t = resolve(named(), Some(ClientAddr::V4(9)), "g").ok().unwrap();
    assert_eq!(Method::Get, t.method);
    assert_eq!("r", t.route_name);
    assert_eq!("g", t.guard);
    assert_eq!(ClientAddr::V4(9), t.client);
}

#[test]
fn misconfiguration_is_kept_and_reported() {
    let mut cache = RequestCache::new();
    let unnamed = Some(RouteInfo { method: Method::Get, name: None });
    let _ = cache.begin(unnamed, Some(ClientAddr::V4(1)), "g");
    assert_eq!(Some(Err(LimitError::MissingRouteName)), cache.verdict());
    assert_eq!(LimitError::MissingRouteName, cache.limit_error());
    assert_eq!(LimitError::Error, RequestCache::new().limit_error());
    let out = RocketGovernor::<ZeroBurstGuard>::outcome(cache.verdict().unwrap());
    assert!(matches!(out, Err((400, LimitError::MissingRouteName))));
}

#[test]
fn unbuildable_quota_gives_internal_error() {
    let mut reg = Registry::new();
    let limiter = reg.get_or_insert(Method::Get, "g", "r", || ZeroBurstGuard::quota(Method::Get, "r"));
    assert!(!limiter.usable());
    let mut cache = RequestCache::new();
    let route = Some(RouteInfo { method: Method::Get, name: Some("r".to_string()) });
    let t = match cache.begin(route, Some(ClientAddr::V4(1)), "g") {
        rocket_governor::guard::Step::Check(t) => t,
        _ => panic!("expected a check"),
    };
    assert_eq!(Err(LimitError::Error), cache.finish::<ZeroBurstGuard>(&t, &limiter));
    let out = RocketGovernor::<ZeroBurstGuard>::outcome(cache.verdict().unwrap());
    assert!(matches!(out, Err((400, LimitError::Error))));
}
