//! Admission of one request: the route and client are resolved, the route's
//! limiter is checked once, and the verdict is kept for the rest of the
//! request so that asking again never takes a second token.
use vstd::prelude::*;
use std::marker::PhantomData;
use crate::header::Header;
use crate::limit_error::LimitError;
use crate::limiter::ClientAddr;
use crate::quota::{Method, Quota};
use crate::registry::RouteLimiter;
use crate::req_state::ReqState;
use crate::rocket_governable::RocketGovernable;

verus! {

/// The route a request matched: its method and, if declared, its name.
pub struct RouteInfo {
    /// The method of the route.
    pub method: Method,
    /// The name of the route.
    pub name: Option<String>,
}

/// What a request is checked against: the route's identity and the client.
pub struct Target {
    /// The method of the route.
    pub method: Method,
    /// The name of the guard; distinct guards on routes of the same name
    /// get distinct limiters.
    pub guard: &'static str,
    /// The name of the route.
    pub route_name: String,
    /// The client's address.
    pub client: ClientAddr,
}

/// Why a request cannot be checked at all, in the order the causes are
/// looked for: no route, a route without name, no client address.
pub open spec fn spec_resolve_error(route: Option<RouteInfo>, client: Option<ClientAddr>) -> Option<LimitError> {
    match route {
        None => Some(LimitError::MissingRoute),
        Some(info) => match info.name {
            None => Some(LimitError::MissingRouteName),
            Some(_) => match client {
                None => Some(LimitError::MissingClientIpAddr),
                Some(_) => None,
            },
        },
    }
}

/// The route and client of a request under the guard named `guard`, or why
/// it cannot be checked.
pub fn resolve(route: Option<RouteInfo>, client: Option<ClientAddr>, guard: &'static str) -> (r: Result<Target, LimitError>)
    ensures
        match spec_resolve_error(route, client) {
            Some(e) => r == Err::<Target, LimitError>(e),
            None => r.is_ok() && r.unwrap().method == route.unwrap().method
                && r.unwrap().guard == guard
                && r.unwrap().route_name@ == route.unwrap().name.unwrap()@
                && r.unwrap().client == client.unwrap(),
        },
{
    match route {
        None => Err(LimitError::MissingRoute),
        Some(info) => match info.name {
            None => Err(LimitError::MissingRouteName),
            Some(name) => match client {
                None => Err(LimitError::MissingClientIpAddr),
                Some(c) => Ok(Target { method: info.method, guard, route_name: name, client: c }),
            },
        },
    }
}

/// The next step of an admission.
pub enum Step {
    /// The verdict is known.
    Decided(Result<(), LimitError>),
    /// The route's limiter has to be checked for this target.
    Check(Target),
}

/// The slot a request reserves for its admission: the verdict, written
/// once, and the state an admitted request may disclose.
pub struct RequestCache {
    verdict: Option<Result<(), LimitError>>,
    state: Option<ReqState>,
    checked: Ghost<Seq<ClientAddr>>,
}

impl RequestCache {
    /// The verdict, once known.
    pub closed spec fn memo(&self) -> Option<Result<(), LimitError>> {
        self.verdict
    }

    /// The state recorded for the informational headers, if any.
    pub closed spec fn disclosed(&self) -> Option<ReqState> {
        self.state
    }

    /// The client keys handed to a limiter for this request, in order.
    pub closed spec fn checked_keys(&self) -> Seq<ClientAddr> {
        self.checked@
    }

    /// How many times a limiter was checked for this request.
    pub open spec fn checks(&self) -> nat {
        self.checked_keys().len()
    }

    /// No limiter is checked before a verdict is asked for, and at most once.
    pub closed spec fn wf(&self) -> bool {
        &&& self.checked@.len() <= 1
        &&& self.verdict.is_none() ==> self.checked@.len() == 0
    }

    /// An empty slot.
    pub fn new() -> (r: RequestCache)
        ensures
            r.wf(),
            r.memo().is_none(),
            r.disclosed().is_none(),
            r.checks() == 0,
    {
        RequestCache { verdict: None, state: None, checked: Ghost(Seq::empty()) }
    }

    /// The verdict, once known.
    pub fn verdict(&self) -> (r: Option<Result<(), LimitError>>)
        ensures
            r == self.memo(),
    {
        self.verdict
    }

    /// The state recorded for the informational headers, if any.
    pub fn state(&self) -> (r: Option<ReqState>)
        ensures
            r == self.disclosed(),
    {
        self.state
    }

    /// Records `state` unless a state is recorded already; gives the one
    /// that stays.
    pub fn cache_state(&mut self, state: ReqState) -> (r: ReqState)
        requires
            old(self).wf(),
        ensures
            final(self).wf(),
            final(self).memo() == old(self).memo(),
            final(self).checked_keys() == old(self).checked_keys(),
            old(self).disclosed().is_some() ==> final(self).disclosed() == old(self).disclosed(),
            old(self).disclosed().is_none() ==> final(self).disclosed() == Some(state),
            final(self).disclosed() == Some(r),
    {
        match self.state {
            Some(s) => s,
            None => {
                self.state = Some(state);
                state
            },
        }
    }

    /// First step of an admission under the guard named `guard`: the kept
    /// verdict if there is one; else the target to check, or the verdict that
    /// the request cannot be checked, which is kept.
    pub fn begin(&mut self, route: Option<RouteInfo>, client: Option<ClientAddr>, guard: &'static str) -> (r: Step)
        requires
            old(self).wf(),
        ensures
            final(self).wf(),
            final(self).checked_keys() == old(self).checked_keys(),
            final(self).disclosed() == old(self).disclosed(),
            old(self).memo().is_some() ==> final(self).memo() == old(self).memo()
                && r == Step::Decided(old(self).memo().unwrap()),
            old(self).memo().is_none() ==> match spec_resolve_error(route, client) {
                Some(e) => r == Step::Decided(Err(e)) && final(self).memo() == Some(Err::<(), LimitError>(e)),
                None => final(self).memo().is_none() && match r {
                    Step::Check(t) => t.method == route.unwrap().method
                        && t.guard == guard
                        && t.route_name@ == route.unwrap().name.unwrap()@
                        && t.client == client.unwrap(),
                    Step::Decided(_) => false,
                },
            },
    {
        match self.verdict {
            Some(v) => Step::Decided(v),
            None => match resolve(route, client, guard) {
                Err(e) => {
                    self.verdict = Some(Err(e));
                    Step::Decided(Err(e))
                },
                Ok(t) => Step::Check(t),
            },
        }
    }

    /// Keeps the verdict of a check against a route whose quota is `quota`:
    /// admitted where the check left a capacity, and then the state of the
    /// request is recorded exactly where the guard's disclosure policy,
    /// whose answer is `disclose`, allowed it and no state is recorded yet;
    /// denied with the check's error otherwise. A kept verdict is never replaced.
    pub fn settle(&mut self, quota: Quota, checked: Result<u32, LimitError>, disclose: bool) -> (r: Result<(), LimitError>)
        requires
            old(self).checks() <= 1,
        ensures
            final(self).wf(),
            final(self).checked_keys() == old(self).checked_keys(),
            old(self).memo().is_some() ==> *final(self) == *old(self) && r == old(self).memo().unwrap(),
            old(self).memo().is_none() ==> final(self).memo() == Some(r) && match checked {
                Ok(remaining) => r == Ok::<(), LimitError>(())
                    && final(self).disclosed() == if disclose && old(self).disclosed().is_none() {
                        Some(ReqState::new_spec(quota, remaining))
                    } else {
                        old(self).disclosed()
                    },
                Err(e) => r == Err::<(), LimitError>(e) && final(self).disclosed() == old(self).disclosed(),
            },
    {
        match self.verdict {
            Some(v) => v,
            None => {
                let v = match checked {
                    Ok(remaining) => {
                        if disclose && self.state.is_none() {
                            self.state = Some(ReqState::new(quota, remaining));
                        }
                        Ok(())
                    },
                    Err(e) => Err(e),
                };
                self.verdict = Some(v);
                v
            },
        }
    }

    /// Second step of an admission: checks `target`'s client against the
    /// limiter of its route, taking one token, and keeps the verdict. Where a
    /// verdict is kept already, nothing is checked and it is given again.
    pub fn finish<T: RocketGovernable>(&mut self, target: &Target, route: &RouteLimiter) -> (r: Result<(), LimitError>)
        requires
            old(self).wf(),
        ensures
            final(self).wf(),
            old(self).memo().is_some() ==> *final(self) == *old(self) && r == old(self).memo().unwrap(),
            old(self).memo().is_none() ==> final(self).memo() == Some(r)
                && final(self).checked_keys() == old(self).checked_keys().push(target.client),
            old(self).memo().is_none() && !route.is_usable() ==> r == Err::<(), LimitError>(LimitError::Error),
            old(self).memo().is_none() && r.is_err() ==> final(self).disclosed() == old(self).disclosed(),
            old(self).memo().is_none() && r.is_ok() && final(self).disclosed() != old(self).disclosed() ==> {
                &&& old(self).disclosed().is_none()
                &&& final(self).disclosed() matches Some(s)
                &&& s == ReqState::new_spec(route.quota_of(), s.request_capacity)
                &&& route.wf() ==> s.request_capacity <= route.quota_of().max_burst
            },
            old(self).memo().is_none() && route.is_usable() ==> match r {
                Ok(_) => true,
                Err(LimitError::GovernedRequest(_, q)) => q == route.quota_of(),
                Err(_) => false,
            },
    {
        match self.verdict {
            Some(v) => v,
            None => {
                let checked = route.check(target.client, &mut self.checked);
                proof {
                    if route.is_usable() {
                        let o = choose|o: crate::limiter::CheckOutcome| checked == crate::registry::spec_verdict(o, route.quota_of());
                    }
                }
                let quota = route.quota();
                let disclose = match checked {
                    Ok(remaining) => T::limit_info_allow(
                        Some(target.method),
                        Some(target.route_name.as_str()),
                        &ReqState::new(quota, remaining),
                    ),
                    Err(_) => false,
                };
                self.settle(quota, checked, disclose)
            },
        }
    }

    /// The error a "too many requests" response reports: the kept denial,
    /// or `LimitError::Error` where the request holds none.
    pub fn limit_error(&self) -> (r: LimitError)
        ensures
            match self.memo() {
                Some(Err(e)) => r == e,
                _ => r == LimitError::Error,
            },
    {
        match self.verdict {
            Some(Err(e)) => e,
            _ => LimitError::Error,
        }
    }
}

/// However often one request's admission is asked for, at most one token
/// is taken from its route's limiter.
pub proof fn lemma_single_consumption(c: RequestCache)
    requires
        c.wf(),
    ensures
        c.checks() <= 1,
        c.memo().is_none() ==> c.checks() == 0,
{
}

/// The guard a route declares to be rate limited under `T`.
pub struct RocketGovernor<T> {
    _guard: PhantomData<T>,
}

impl<T> RocketGovernor<T> {
    /// The outcome of the guard for a request with verdict `verdict`: the
    /// guard where it was admitted, else the status and the error.
    pub fn outcome(verdict: Result<(), LimitError>) -> (r: Result<RocketGovernor<T>, (u16, LimitError)>)
        ensures
            match verdict {
                Ok(_) => r.is_ok(),
                Err(e) => r == Err::<RocketGovernor<T>, (u16, LimitError)>((e.spec_status(), e)),
            },
    {
        match verdict {
            Ok(_) => Ok(RocketGovernor { _guard: PhantomData }),
            Err(e) => Err((e.status(), e)),
        }
    }
}

/// The name the header generator goes by.
pub const HEADER_GEN_NAME: &'static str = "RateLimit Header Generator";

/// Generates the informational headers of an admitted response.
pub struct LimitHeaderGen;

/// The informational headers of a response whose request recorded `state`.
pub open spec fn spec_info_headers(state: Option<ReqState>) -> Seq<Header> {
    match state {
        Some(s) => if s.is_default {
            Seq::empty()
        } else {
            seq![Header::XRateLimitLimit(s.quota.max_burst as u64), Header::XRateLimitRemaining(s.request_capacity as u64)]
        },
        None => Seq::empty(),
    }
}

impl LimitHeaderGen {
    /// The name the generator goes by.
    pub fn name(&self) -> (r: &'static str)
        ensures
            r == HEADER_GEN_NAME,
    {
        HEADER_GEN_NAME
    }

    /// The headers to add to the response of a request: the limit and the
    /// capacity left where the request recorded them, else none.
    pub fn on_response(&self, cache: &RequestCache) -> (r: Vec<Header>)
        ensures
            r@ == spec_info_headers(cache.disclosed()),
    {
        match ReqState::get_or_default(cache) {
            Some(s) => vec![Header::XRateLimitLimit(s.quota.max_burst as u64), Header::XRateLimitRemaining(s.request_capacity as u64)],
            None => Vec::new(),
        }
    }
}

impl Default for LimitHeaderGen {
    fn default() -> (r: LimitHeaderGen) {
        LimitHeaderGen
    }
}

impl ReqState {
    /// The state recorded on `cache`, unless none or the placeholder is.
    pub fn get_or_default(cache: &RequestCache) -> (r: Option<ReqState>)
        ensures
            match cache.disclosed() {
                Some(s) => if s.is_default { r.is_none() } else { r == Some(s) },
                None => r.is_none(),
            },
    {
        match cache.state() {
            Some(s) => if s.is_default() { None } else { Some(s) },
            None => None,
        }
    }
}

} // verus!
