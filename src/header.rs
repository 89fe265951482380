//! The headers set when a guarded route answers with a denial, and on
//! admitted requests when the disclosure policy allows it.
use vstd::prelude::*;
use vstd::string::StringExecFns;

verus! {

/// Standard header of status 429: seconds a client should wait before it retries.
pub const RETRY_AFTER: &'static str = "retry-after";

/// Describes a misconfiguration of the rate limiter.
pub const X_RATELIMIT_ERROR: &'static str = "x-ratelimit-error";

/// The burst size of the route's quota.
pub const X_RATELIMIT_LIMIT: &'static str = "x-ratelimit-limit";

/// How many requests are left before the route is limited.
pub const X_RATELIMIT_REMAINING: &'static str = "x-ratelimit-remaining";

/// Seconds until the bucket of the route is full again.
pub const X_RATELIMIT_RESET: &'static str = "x-ratelimit-reset";

/// HTTP headers used for rate limiting.
pub enum Header {
    /// Seconds the client should wait before it retries.
    RetryAfter(u64),
    /// A description of a problem with the rate limiter.
    XRateLimitError(&'static str),
    /// The limit of the route.
    XRateLimitLimit(u64),
    /// Requests left for the route.
    XRateLimitRemaining(u64),
    /// Seconds until the bucket is full again.
    XRateLimitReset(u64),
}

/// The character of a decimal digit.
pub open spec fn digit_char(d: nat) -> char {
    if d == 0 { '0' }
    else if d == 1 { '1' }
    else if d == 2 { '2' }
    else if d == 3 { '3' }
    else if d == 4 { '4' }
    else if d == 5 { '5' }
    else if d == 6 { '6' }
    else if d == 7 { '7' }
    else if d == 8 { '8' }
    else { '9' }
}

/// The decimal notation of `n`, without sign or leading zeros.
pub open spec fn decimal(n: nat) -> Seq<char>
    decreases n,
{
    if n < 10 {
        seq![digit_char(n)]
    } else {
        decimal(n / 10) + seq![digit_char(n % 10)]
    }
}

impl Header {
    /// The header's name as it stands on the wire.
    pub open spec fn spec_name(&self) -> Seq<char> {
        match self {
            Header::RetryAfter(_) => RETRY_AFTER@,
            Header::XRateLimitError(_) => X_RATELIMIT_ERROR@,
            Header::XRateLimitLimit(_) => X_RATELIMIT_LIMIT@,
            Header::XRateLimitRemaining(_) => X_RATELIMIT_REMAINING@,
            Header::XRateLimitReset(_) => X_RATELIMIT_RESET@,
        }
    }

    /// The header's value: a number in decimal, or the error text.
    pub open spec fn spec_value(&self) -> Seq<char> {
        match self {
            Header::RetryAfter(n) => decimal(*n as nat),
            Header::XRateLimitError(s) => s@,
            Header::XRateLimitLimit(n) => decimal(*n as nat),
            Header::XRateLimitRemaining(n) => decimal(*n as nat),
            Header::XRateLimitReset(n) => decimal(*n as nat),
        }
    }

    /// The header's name.
    pub fn name(&self) -> (r: &'static str)
        ensures
            r@ == self.spec_name(),
    {
        match self {
            Header::RetryAfter(_) => RETRY_AFTER,
            Header::XRateLimitError(_) => X_RATELIMIT_ERROR,
            Header::XRateLimitLimit(_) => X_RATELIMIT_LIMIT,
            Header::XRateLimitRemaining(_) => X_RATELIMIT_REMAINING,
            Header::XRateLimitReset(_) => X_RATELIMIT_RESET,
        }
    }

    /// The header's value.
    pub fn value(&self) -> (r: String)
        ensures
            r@ == self.spec_value(),
    {
        match self {
            Header::RetryAfter(n) => to_decimal(*n),
            Header::XRateLimitError(s) => String::from_str(s),
            Header::XRateLimitLimit(n) => to_decimal(*n),
            Header::XRateLimitRemaining(n) => to_decimal(*n),
            Header::XRateLimitReset(n) => to_decimal(*n),
        }
    }
}

/// The one-character string of the decimal digit `d`.
fn digit_str(d: u64) -> (r: &'static str)
    requires
        d < 10,
    ensures
        r@ == seq![digit_char(d as nat)],
{
    proof {
        reveal_strlit("0");
        reveal_strlit("1");
        reveal_strlit("2");
        reveal_strlit("3");
        reveal_strlit("4");
        reveal_strlit("5");
        reveal_strlit("6");
        reveal_strlit("7");
        reveal_strlit("8");
        reveal_strlit("9");
    }
    if d == 0 { "0" }
    else if d == 1 { "1" }
    else if d == 2 { "2" }
    else if d == 3 { "3" }
    else if d == 4 { "4" }
    else if d == 5 { "5" }
    else if d == 6 { "6" }
    else if d == 7 { "7" }
    else if d == 8 { "8" }
    else { "9" }
}

/// Writes `n` in decimal.
pub fn to_decimal(n: u64) -> (r: String)
    ensures
        r@ == decimal(n as nat),
    decreases n,
{
    if n < 10 {
        String::from_str(digit_str(n))
    } else {
        let mut s = to_decimal(n / 10);
        s.append(digit_str(n % 10));
        s
    }
}

} // verus!
