//! The trait a guard type implements to give its routes a quota and,
//! optionally, its own disclosure policy.
use vstd::prelude::*;
use crate::quota::{Method, Quota};
use crate::req_state::ReqState;

verus! {

/// The default disclosure policy: informational headers go out only when at
/// most one more request would pass, i.e. on the request right before the
/// client gets limited.
pub fn default_limit_info_allow(state: &ReqState) -> (r: bool)
    ensures
        r == (state.request_capacity <= 1),
{
    state.request_capacity <= 1
}

/// `n`, or 1 where `n` is zero.
pub fn nonzero(n: u32) -> (r: u32)
    ensures
        r > 0,
        n > 0 ==> r == n,
        n == 0 ==> r == 1,
{
    if n == 0 { 1 } else { n }
}

/// A guard type: each route that it guards gets a limiter built from
/// `quota`, asked once per method and route.
pub trait RocketGovernable {
    /// The quota of the route `route_name` under `method`. It is asked for
    /// once per method and route and must give the same answer every time.
    fn quota(method: Method, route_name: &str) -> Quota;

    /// Whether an admitted request gets the informational headers. Unless a
    /// guard says otherwise, only when at most one more request would pass.
    fn limit_info_allow(method: Option<Method>, route_name: Option<&str>, state: &ReqState) -> bool {
        default_limit_info_allow(state)
    }

    /// `n`, or 1 where `n` is zero: a burst size that a quota accepts.
    fn nonzero(n: u32) -> u32 {
        nonzero(n)
    }
}

} // verus!
