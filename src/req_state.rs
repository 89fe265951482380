//! What an admitted request learned of its route's limiter: the quota and
//! how many more requests would pass.
use vstd::prelude::*;
use crate::quota::Quota;

verus! {

/// The quota of the request's route and the capacity left after the request
/// was let through. The disclosure policy decides from it whether a response
/// carries the informational headers.
#[derive(Clone, Copy, Debug, PartialEq, Eq, Structural)]
pub struct ReqState {
    /// Set only on the placeholder that stands for "nothing recorded".
    pub is_default: bool,
    /// The quota of the request's route.
    pub quota: Quota,
    /// Requests that can still pass before the route is limited for this client.
    pub request_capacity: u32,
}

impl ReqState {
    /// A state recorded by a check of the limiter.
    pub open spec fn new_spec(quota: Quota, request_capacity: u32) -> ReqState {
        ReqState { is_default: false, quota, request_capacity }
    }

    /// A state recorded by a check of the limiter.
    pub fn new(quota: Quota, request_capacity: u32) -> (r: ReqState)
        ensures
            r == ReqState::new_spec(quota, request_capacity),
    {
        ReqState { is_default: false, quota, request_capacity }
    }

    /// The quota of the request's route.
    pub fn quota(&self) -> (r: &Quota)
        ensures
            *r == self.quota,
    {
        &self.quota
    }

    /// Requests that can still pass before the route is limited for this client.
    pub fn request_capacity(&self) -> (r: u32)
        ensures
            r == self.request_capacity,
    {
        self.request_capacity
    }

    /// Whether this is the placeholder that stands for "nothing recorded".
    pub fn is_default(&self) -> (r: bool)
        ensures
            r == self.is_default,
    {
        self.is_default
    }
}

impl Default for ReqState {
    /// The placeholder that stands for "nothing recorded"; its values mean nothing.
    fn default() -> (r: ReqState)
        ensures
            r.is_default,
            r.quota == Quota::spec_per_second_one(),
            r.request_capacity == 0,
    {
        ReqState { is_default: true, quota: Quota::per_second(1), request_capacity: 0 }
    }
}

} // verus!
