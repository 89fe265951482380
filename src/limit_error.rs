//! Why a request was not let through, and the response that says so.
use vstd::prelude::*;
use crate::header::Header;
use crate::quota::Quota;

verus! {

/// HTTP status of a request that was rate limited.
pub const STATUS_TOO_MANY_REQUESTS: u16 = 429;

/// HTTP status of a request that the limiter could not judge.
pub const STATUS_BAD_REQUEST: u16 = 400;

/// Text of the error header when the limiter itself failed.
pub const MSG_ERROR: &'static str = "rate limiter error";

/// Text of the error header when no client address is known.
pub const MSG_MISSING_CLIENT_IP: &'static str = "application not retrieving client ip";

/// Text of the error header when the request matched no route.
pub const MSG_MISSING_ROUTE: &'static str = "routing failure";

/// Text of the error header when the route has no name.
pub const MSG_MISSING_ROUTE_NAME: &'static str = "route without name";

/// The HTML document of a denial.
pub const HTML_BODY: &'static str = r#"<!DOCTYPE html>
<html lang="en">
<head>
    <meta charset="utf-8">
    <title>429 Too Many Requests</title>
</head>
<body align="center">
    <div role="main" align="center">
        <h1>429: Too Many Requests</h1>
        <p>Too many requests have been received recently.</p>
        <hr />
    </div>
    <div role="contentinfo" align="center">
        <small>Rocket</small>
    </div>
</body>
</html>"#;

/// The JSON document of a denial.
pub const JSON_BODY: &'static str = r#"{
  "error": {
    "code": 429,
    "reason": "Too Many Requests",
    "description": "Too many requests have been received recently."
  }
}"#;

/// Why a request was not let through.
#[derive(Clone, Copy, Debug, PartialEq, Eq, Structural)]
pub enum LimitError {
    /// The limiter could not be used, e.g. its quota cannot build one.
    Error,
    /// Rate limited: the client may retry after so many seconds; the quota
    /// of the route.
    GovernedRequest(u64, Quota),
    /// No client address is known for the request.
    MissingClientIpAddr,
    /// The request matched no route.
    MissingRoute,
    /// The route has no name, so no limiter can be chosen for it.
    MissingRouteName,
}

/// The media type of a response body.
#[derive(Clone, Copy, Debug, PartialEq, Eq, Structural)]
pub enum ContentKind {
    /// `text/html`
    Html,
    /// `application/json`
    Json,
}

/// A response: status, media type, body and headers.
pub struct LimitResponse {
    /// The HTTP status.
    pub status: u16,
    /// The media type of the body.
    pub content_type: ContentKind,
    /// The body.
    pub body: &'static str,
    /// The headers to set, in this order.
    pub headers: Vec<Header>,
}

/// The body of a denial: JSON where the client prefers JSON, else HTML.
pub open spec fn spec_body(prefers_json: bool) -> (ContentKind, &'static str) {
    if prefers_json { (ContentKind::Json, JSON_BODY) } else { (ContentKind::Html, HTML_BODY) }
}

/// The body of a denial: JSON where the client prefers JSON, else HTML.
pub fn too_many_requests_body(prefers_json: bool) -> (r: (ContentKind, &'static str))
    ensures
        r == spec_body(prefers_json),
{
    if prefers_json { (ContentKind::Json, JSON_BODY) } else { (ContentKind::Html, HTML_BODY) }
}

impl LimitError {
    /// The status: 429 for a rate limited request, 400 for the others, which
    /// come from a misconfigured server.
    pub open spec fn spec_status(&self) -> u16 {
        match self {
            LimitError::GovernedRequest(_, _) => STATUS_TOO_MANY_REQUESTS,
            _ => STATUS_BAD_REQUEST,
        }
    }

    /// The headers of the response: for a rate limited request the seconds
    /// to wait, as retry guidance and as the time until it is let through
    /// again, and the route's burst size; a description of the cause for the
    /// others.
    pub open spec fn spec_headers(&self) -> Seq<Header> {
        match self {
            LimitError::Error => seq![Header::XRateLimitError(MSG_ERROR)],
            LimitError::GovernedRequest(wait, quota) => seq![
                Header::RetryAfter(*wait),
                Header::XRateLimitLimit(quota.max_burst as u64),
                Header::XRateLimitReset(*wait),
            ],
            LimitError::MissingClientIpAddr => seq![Header::XRateLimitError(MSG_MISSING_CLIENT_IP)],
            LimitError::MissingRoute => seq![Header::XRateLimitError(MSG_MISSING_ROUTE)],
            LimitError::MissingRouteName => seq![Header::XRateLimitError(MSG_MISSING_ROUTE_NAME)],
        }
    }

    /// The HTTP status of the response.
    pub fn status(&self) -> (r: u16)
        ensures
            r == self.spec_status(),
    {
        match self {
            LimitError::GovernedRequest(_, _) => STATUS_TOO_MANY_REQUESTS,
            _ => STATUS_BAD_REQUEST,
        }
    }

    /// The headers of the response, in the order they are set.
    pub fn headers(&self) -> (r: Vec<Header>)
        ensures
            r@ == self.spec_headers(),
    {
        match self {
            LimitError::Error => vec![Header::XRateLimitError(MSG_ERROR)],
            LimitError::GovernedRequest(wait, quota) => vec![
                Header::RetryAfter(*wait),
                Header::XRateLimitLimit(quota.max_burst as u64),
                Header::XRateLimitReset(*wait),
            ],
            LimitError::MissingClientIpAddr => vec![Header::XRateLimitError(MSG_MISSING_CLIENT_IP)],
            LimitError::MissingRoute => vec![Header::XRateLimitError(MSG_MISSING_ROUTE)],
            LimitError::MissingRouteName => vec![Header::XRateLimitError(MSG_MISSING_ROUTE_NAME)],
        }
    }

    /// The whole response: status, the denial document in the media type the
    /// client prefers, and the headers.
    pub fn respond_to(&self, prefers_json: bool) -> (r: LimitResponse)
        ensures
            r.status == self.spec_status(),
            (r.content_type, r.body) == spec_body(prefers_json),
            r.headers@ == self.spec_headers(),
    {
        let (content_type, body) = too_many_requests_body(prefers_json);
        LimitResponse { status: self.status(), content_type, body, headers: self.headers() }
    }
}

} // verus!
