//! The keyed token-bucket limiter of one route, and what one check of it tells.
use vstd::prelude::*;
use std::num::NonZeroU32;
use std::sync::Arc;
use std::time::Duration;
use governor::clock::{Clock, MonotonicClock};
use governor::middleware::StateInformationMiddleware;
use governor::state::keyed::DefaultKeyedStateStore;
use governor::RateLimiter;
use crate::quota::Quota;

verus! {

/// The address of a client, the key its bucket is kept under.
#[derive(Clone, Copy, Debug, PartialEq, Eq, Structural, Hash)]
pub enum ClientAddr {
    /// An IPv4 address.
    V4(u32),
    /// An IPv6 address.
    V6(u128),
}

/// What one check of a client against a limiter found.
#[derive(Clone, Copy, Debug, PartialEq, Eq, Structural)]
pub enum CheckOutcome {
    /// The request may pass; so many more requests would pass right after it.
    Allowed(u32),
    /// The request is limited; the client is allowed again after so many nanoseconds.
    Denied(u64),
}

/// governor's keyed rate limiter of one route, keyed by client address,
/// shared by every request to that route, with the clock that denials are
/// measured against: governor's `MonotonicClock`, which reads
/// `std::time::Instant`, so that the limiter and its users agree on time. Its per-client state lives inside and changes with time.
#[verifier::external_body]
pub struct KeyedLimiter {
    inner: Arc<RateLimiter<ClientAddr, DefaultKeyedStateStore<ClientAddr>, MonotonicClock, StateInformationMiddleware>>,
    clock: MonotonicClock,
}

/// The quota a limiter was built with.
pub uninterp spec fn built_with(l: KeyedLimiter) -> Quota;

impl KeyedLimiter {
    /// Relies on governor's `Quota::with_period`, `Quota::allow_burst` and
    /// `RateLimiter::new` on a `DefaultKeyedStateStore` and a `MonotonicClock`,
    /// with `StateInformationMiddleware`: a fresh limiter
    /// for `quota`, with no client seen. These panic on a zero period or burst,
    /// and on a burst whose refill time overflows; `is_buildable` excludes both,
    /// and keeps the sums that later checks form within `u64` nanoseconds.
    #[verifier::external_body]
    pub(crate) fn keyed(quota: &Quota) -> (r: KeyedLimiter)
        requires
            quota.is_buildable(),
        ensures
            built_with(r) == *quota,
    {
        let period = Duration::from_nanos(quota.replenish_1_per_ns);
        let burst = NonZeroU32::new(quota.max_burst).unwrap();
        let q = governor::Quota::with_period(period).unwrap().allow_burst(burst);
        let clock = MonotonicClock;
        let limiter: RateLimiter<ClientAddr, DefaultKeyedStateStore<ClientAddr>, MonotonicClock, StateInformationMiddleware> =
            RateLimiter::new(q, DefaultKeyedStateStore::default(), &clock);
        KeyedLimiter { inner: Arc::new(limiter), clock }
    }

    /// Relies on governor's `RateLimiter::check_key`, which takes one token of
    /// `key`'s bucket when one is left; on success
    /// `StateSnapshot::remaining_burst_capacity`, on a denial
    /// `NotUntil::wait_time_from` the current time. Both depend on the time of
    /// the call; what holds of every outcome is that the capacity reported
    /// is at most the burst size, since `remaining_burst_capacity` is a
    /// minimum with the whole burst's time, divided by one interval. The sums
    /// governor forms here, the time since the limiter was built plus at most
    /// one interval more than a whole burst, stay within `u64` nanoseconds for
    /// a limiter built by `keyed`, as long as the process has run less than
    /// half that range (about 290 years).
    #[verifier::external_body]
    pub(crate) fn check_key(&self, key: ClientAddr) -> (r: CheckOutcome)
        ensures
            r matches CheckOutcome::Allowed(remaining) ==> remaining <= built_with(*self).max_burst,
    {
        match self.inner.check_key(&key) {
            Ok(state) => CheckOutcome::Allowed(state.remaining_burst_capacity()),
            Err(not_until) => {
                CheckOutcome::Denied(not_until.wait_time_from(self.clock.now()).as_nanos() as u64)
            },
        }
    }

    /// Relies on governor's `RateLimiter::retain_recent`: forgets the clients
    /// whose bucket is full again.
    #[verifier::external_body]
    pub(crate) fn retain_recent(&self) {
        self.inner.retain_recent()
    }

    /// Relies on governor's `RateLimiter::shrink_to_fit`: compacts the storage
    /// of the clients' state.
    #[verifier::external_body]
    pub(crate) fn shrink_to_fit(&self) {
        self.inner.shrink_to_fit()
    }

    /// Relies on `Arc::clone`: another handle on the same limiter.
    #[verifier::external_body]
    pub(crate) fn share(&self) -> (r: KeyedLimiter)
        ensures
            built_with(r) == built_with(*self),
    {
        KeyedLimiter { inner: Arc::clone(&self.inner), clock: self.clock.clone() }
    }
}

} // verus!
