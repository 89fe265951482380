//! The HTTP method of a route and the quota of its limiter, as plain values.
use vstd::prelude::*;

verus! {

/// Nanoseconds in one second.
pub const NANOS_PER_SEC: u64 = 1_000_000_000;

/// The HTTP method of a route.
#[derive(Clone, Copy, Debug, PartialEq, Eq, Structural, Hash)]
pub enum Method {
    /// `GET`
    Get,
    /// `PUT`
    Put,
    /// `POST`
    Post,
    /// `DELETE`
    Delete,
    /// `OPTIONS`
    Options,
    /// `HEAD`
    Head,
    /// `TRACE`
    Trace,
    /// `CONNECT`
    Connect,
    /// `PATCH`
    Patch,
}

/// A rate: one request is replenished every `replenish_1_per_ns`
/// nanoseconds, and at most `max_burst` requests pass in one burst.
#[derive(Clone, Copy, Debug, PartialEq, Eq, Structural)]
pub struct Quota {
    /// The burst size.
    pub max_burst: u32,
    /// Nanoseconds to replenish one request.
    pub replenish_1_per_ns: u64,
}

/// The nanoseconds of one request when `n` requests share `period_secs` seconds.
pub open spec fn share_of(period_secs: nat, n: nat) -> nat
    recommends
        n > 0,
{
    period_secs * NANOS_PER_SEC as nat / n
}

impl Quota {
    /// A limiter can be built from this quota: both a burst and a
    /// replenishment interval above zero.
    pub open spec fn is_valid(&self) -> bool {
        self.max_burst > 0 && self.replenish_1_per_ns > 0
    }

    /// `n` requests per `period_secs` seconds, `n` being also the burst size.
    fn per_period(period_secs: u64, max_burst: u32) -> (r: Quota)
        requires
            max_burst > 0,
            period_secs <= 3600,
        ensures
            r.max_burst == max_burst,
            r.replenish_1_per_ns == share_of(period_secs as nat, max_burst as nat),
    {
        let total: u64 = period_secs * NANOS_PER_SEC;
        Quota { max_burst, replenish_1_per_ns: total / (max_burst as u64) }
    }

    /// One request per second.
    pub open spec fn spec_per_second_one() -> Quota {
        Quota { max_burst: 1, replenish_1_per_ns: NANOS_PER_SEC }
    }

    /// `max_burst` requests per second, `max_burst` being also the burst size.
    pub fn per_second(max_burst: u32) -> (r: Quota)
        requires
            max_burst > 0,
        ensures
            r.max_burst == max_burst,
            r.replenish_1_per_ns == share_of(1, max_burst as nat),
    {
        Quota::per_period(1, max_burst)
    }

    /// `max_burst` requests per minute, `max_burst` being also the burst size.
    pub fn per_minute(max_burst: u32) -> (r: Quota)
        requires
            max_burst > 0,
        ensures
            r.max_burst == max_burst,
            r.replenish_1_per_ns == share_of(60, max_burst as nat),
    {
        Quota::per_period(60, max_burst)
    }

    /// `max_burst` requests per hour, `max_burst` being also the burst size.
    pub fn per_hour(max_burst: u32) -> (r: Quota)
        requires
            max_burst > 0,
        ensures
            r.max_burst == max_burst,
            r.replenish_1_per_ns == share_of(3600, max_burst as nat),
    {
        Quota::per_period(3600, max_burst)
    }

    /// One request every `period_ns` nanoseconds with a burst of one;
    /// `None` for a period of zero.
    pub fn with_period(period_ns: u64) -> (r: Option<Quota>)
        ensures
            period_ns == 0 <==> r.is_none(),
            r.is_some() ==> r.unwrap().max_burst == 1 && r.unwrap().replenish_1_per_ns == period_ns,
    {
        if period_ns == 0 {
            None
        } else {
            Some(Quota { max_burst: 1, replenish_1_per_ns: period_ns })
        }
    }

    /// The same replenishment with another burst size.
    pub fn allow_burst(self, max_burst: u32) -> (r: Quota)
        requires
            max_burst > 0,
        ensures
            r.max_burst == max_burst,
            r.replenish_1_per_ns == self.replenish_1_per_ns,
    {
        Quota { max_burst, ..self }
    }

    /// A limiter can be built from this quota and run: a burst and an
    /// interval above zero, and the longest span the limiter adds to the
    /// current time, one interval more than a whole burst, fits in half the
    /// `u64` nanoseconds, which leaves the other half for the process's uptime.
    pub open spec fn is_buildable(&self) -> bool {
        &&& self.is_valid()
        &&& self.replenish_1_per_ns as nat * (self.max_burst as nat + 1) <= (u64::MAX / 2) as nat
    }

    /// Whether a limiter can be built from this quota.
    pub fn buildable(&self) -> (r: bool)
        ensures
            r == self.is_buildable(),
    {
        if self.max_burst == 0 || self.replenish_1_per_ns == 0 {
            return false;
        }
        let a: u128 = self.replenish_1_per_ns as u128;
        let b: u128 = self.max_burst as u128 + 1;
        assert(a * b <= u64::MAX as u128 * (u32::MAX as u128 + 1)) by (nonlinear_arith)
            requires
                a <= u64::MAX,
                b <= u32::MAX + 1,
        ;
        a * b <= (u64::MAX / 2) as u128
    }

    /// The burst size.
    pub fn burst_size(&self) -> (r: u32)
        ensures
            r == self.max_burst,
    {
        self.max_burst
    }

    /// Nanoseconds to replenish one request.
    pub fn replenish_interval_ns(&self) -> (r: u64)
        ensures
            r == self.replenish_1_per_ns,
    {
        self.replenish_1_per_ns
    }
}

} // verus!
