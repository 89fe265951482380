//! The registry of limiters: one per route identity (method, guard type,
//! route name), built on first use from the guard's quota and shared after.
use vstd::prelude::*;
use vstd::string::StringExecFns;
use crate::limit_error::LimitError;
use crate::limiter::{built_with, CheckOutcome, ClientAddr, KeyedLimiter};
use crate::quota::{Method, Quota, NANOS_PER_SEC};

verus! {

/// The identity of a route: method, guard type name, route name.
pub type RouteKey = (Method, Seq<char>, Seq<char>);

/// Whole seconds of `ns` nanoseconds, rounded up.
pub open spec fn ceil_secs(ns: nat) -> nat {
    (ns + (NANOS_PER_SEC - 1) as nat) / NANOS_PER_SEC as nat
}

/// The verdict of one check: on success the capacity left, on a denial the
/// seconds to wait, rounded up, and the route's quota.
pub open spec fn spec_verdict(outcome: CheckOutcome, quota: Quota) -> Result<u32, LimitError> {
    match outcome {
        CheckOutcome::Allowed(remaining) => Ok(remaining),
        CheckOutcome::Denied(ns) => Err(LimitError::GovernedRequest(ceil_secs(ns as nat) as u64, quota)),
    }
}

/// Seconds to wait before a retry, from the nanoseconds a denial reported,
/// rounded up so that a client waiting that long is not limited for that reason.
pub fn wait_seconds(ns: u64) -> (r: u64)
    ensures
        r as nat == ceil_secs(ns as nat),
{
    let whole = ns / NANOS_PER_SEC;
    if ns % NANOS_PER_SEC == 0 {
        whole
    } else {
        whole + 1
    }
}

/// The verdict of one check of the limiter of a route with quota `quota`.
pub fn verdict_of(outcome: CheckOutcome, quota: Quota) -> (r: Result<u32, LimitError>)
    ensures
        r == spec_verdict(outcome, quota),
{
    match outcome {
        CheckOutcome::Allowed(remaining) => Ok(remaining),
        CheckOutcome::Denied(ns) => Err(LimitError::GovernedRequest(wait_seconds(ns), quota)),
    }
}

/// Waiting the seconds of a denial covers the time the limiter asked for,
/// and a second less would not.
pub proof fn lemma_wait_covers_denial(ns: nat)
    ensures
        ceil_secs(ns) * NANOS_PER_SEC as nat >= ns,
        ceil_secs(ns) > 0 ==> (ceil_secs(ns) - 1) * (NANOS_PER_SEC as nat) < ns,
{
    let n: int = NANOS_PER_SEC as int;
    let c: int = ceil_secs(ns) as int;
    let x: int = ns as int;
    assert(c == (x + (n - 1)) / n);
    assert(c * n >= x && (c > 0 ==> (c - 1) * n < x)) by (nonlinear_arith)
        requires
            n == 1_000_000_000,
            x >= 0,
            c == (x + (n - 1)) / n,
    ;
}

/// The limiter of one route and the quota it was built from. A quota that
/// cannot build a limiter leaves it without one: every check then fails.
pub struct RouteLimiter {
    quota: Quota,
    limiter: Option<KeyedLimiter>,
    slot: Ghost<int>,
}

impl RouteLimiter {
    /// The quota of the route.
    pub closed spec fn quota_of(&self) -> Quota {
        self.quota
    }

    /// The registry entry this limiter belongs to: handles with one slot
    /// share one limiter, and each limiter is built for one slot.
    pub closed spec fn slot_of(&self) -> int {
        self.slot@
    }

    /// The limiter behind this route, if any, was built with its quota.
    pub closed spec fn wf(&self) -> bool {
        self.limiter matches Some(l) ==> built_with(l) == self.quota
    }

    /// Whether a limiter stands behind this route.
    pub closed spec fn is_usable(&self) -> bool {
        self.limiter.is_some()
    }

    /// The quota of the route.
    pub fn quota(&self) -> (r: Quota)
        ensures
            r == self.quota_of(),
    {
        self.quota
    }

    /// Whether a limiter stands behind this route.
    pub fn usable(&self) -> (r: bool)
        ensures
            r == self.is_usable(),
    {
        self.limiter.is_some()
    }

    /// A fresh limiter for `quota`, where one can be built, for entry `slot`.
    fn build(quota: Quota, Ghost(slot): Ghost<int>) -> (r: RouteLimiter)
        ensures
            r.quota_of() == quota,
            r.is_usable() == quota.is_buildable(),
            r.slot_of() == slot,
            r.wf(),
    {
        if quota.buildable() {
            RouteLimiter { quota, limiter: Some(KeyedLimiter::keyed(&quota)), slot: Ghost(slot) }
        } else {
            RouteLimiter { quota, limiter: None, slot: Ghost(slot) }
        }
    }

    /// Another handle on the same limiter.
    fn share(&self) -> (r: RouteLimiter)
        ensures
            r.quota_of() == self.quota_of(),
            r.is_usable() == self.is_usable(),
            r.slot_of() == self.slot_of(),
            self.wf() ==> r.wf(),
    {
        match &self.limiter {
            Some(l) => RouteLimiter { quota: self.quota, limiter: Some(l.share()), slot: self.slot },
            None => RouteLimiter { quota: self.quota, limiter: None, slot: self.slot },
        }
    }

    /// Forgets the clients whose bucket is full again and compacts the storage.
    fn clean_up(&self) {
        if let Some(l) = &self.limiter {
            l.retain_recent();
            l.shrink_to_fit();
        }
    }

    /// Checks `client` against the limiter, taking one token where one is
    /// left: the capacity left, or the denial with the seconds to wait and
    /// the quota; `LimitError::Error` where no limiter stands behind the route.
    /// `checked` records the key handed to the limiter.
    pub(crate) fn check(&self, client: ClientAddr, checked: &mut Ghost<Seq<ClientAddr>>) -> (r: Result<u32, LimitError>)
        ensures
            final(checked)@ == old(checked)@.push(client),
            !self.is_usable() ==> r == Err::<u32, LimitError>(LimitError::Error),
            self.is_usable() ==> exists|o: CheckOutcome| r == #[trigger] spec_verdict(o, self.quota_of()),
            self.wf() ==> (r matches Ok(remaining) ==> remaining <= self.quota_of().max_burst),
    {
        proof {
            checked@ = checked@.push(client);
        }
        match &self.limiter {
            None => Err(LimitError::Error),
            Some(l) => {
                let outcome = l.check_key(client);
                let r = verdict_of(outcome, self.quota);
                assert(r == spec_verdict(outcome, self.quota_of()));
                r
            },
        }
    }
}

/// One registered route.
struct Entry {
    method: Method,
    guard: String,
    name: String,
    route: RouteLimiter,
}

impl Entry {
    spec fn key(&self) -> RouteKey {
        (self.method, self.guard@, self.name@)
    }
}

/// The limiters of all routes seen so far, one per route identity; entries
/// are never removed.
pub struct Registry {
    entries: Vec<Entry>,
    quotas: Ghost<Map<RouteKey, Quota>>,
    resolved: Ghost<Seq<RouteKey>>,
}

impl View for Registry {
    type V = Map<RouteKey, Quota>;

    /// The quota of each registered route.
    closed spec fn view(&self) -> Map<RouteKey, Quota> {
        self.quotas@
    }
}

impl Registry {
    /// The routes whose quota was asked of their guard, in the order asked.
    pub closed spec fn resolutions(&self) -> Seq<RouteKey> {
        self.resolved@
    }

    /// The position of the entry, and so of the limiter, of route `k`.
    pub closed spec fn slot(&self, k: RouteKey) -> int {
        self.resolved@.index_of(k)
    }

    /// The registry is consistent: one entry per route, in the order of
    /// the resolutions, each with a limiter exactly where its quota builds one.
    pub closed spec fn wf(&self) -> bool {
        &&& self.entries@.len() == self.resolved@.len()
        &&& forall|i: int| 0 <= i < self.entries@.len() ==> #[trigger] self.entries@[i].key() == self.resolved@[i]
        &&& self.resolved@.no_duplicates()
        &&& forall|k: RouteKey| #[trigger] self.quotas@.contains_key(k) <==> self.resolved@.contains(k)
        &&& forall|i: int| 0 <= i < self.entries@.len() ==> self.quotas@[#[trigger] self.resolved@[i]] == self.entries@[i].route.quota
        &&& forall|i: int| 0 <= i < self.entries@.len() ==> (#[trigger] self.entries@[i]).route.is_usable() == self.entries@[i].route.quota.is_buildable()
        &&& forall|i: int| 0 <= i < self.entries@.len() ==> (#[trigger] self.entries@[i]).route.slot@ == i
        &&& forall|i: int| 0 <= i < self.entries@.len() ==> (#[trigger] self.entries@[i]).route.wf()
    }

    /// The route at position `i` has slot `i`.
    proof fn lemma_slot_at(&self, i: int)
        requires
            self.wf(),
            0 <= i < self.resolved@.len(),
        ensures
            self.slot(self.resolved@[i]) == i,
    {
        let k = self.resolved@[i];
        assert(self.resolved@.contains(k));
        let j = self.slot(k);
        assert(0 <= j < self.resolved@.len() && self.resolved@[j] == k);
        assert(j == i);
    }

    /// An empty registry.
    pub fn new() -> (r: Registry)
        ensures
            r.wf(),
            r@ == Map::<RouteKey, Quota>::empty(),
            r.resolutions() == Seq::<RouteKey>::empty(),
    {
        Registry { entries: Vec::new(), quotas: Ghost(Map::empty()), resolved: Ghost(Seq::empty()) }
    }

    /// The position of the entry of (`method`, `guard`, `name`), if any.
    fn find(&self, method: Method, guard: &String, name: &String) -> (r: Option<usize>)
        requires
            self.wf(),
        ensures
            r.is_none() <==> !self.resolutions().contains((method, guard@, name@)),
            r.is_some() ==> r.unwrap() < self.entries@.len() && self.resolved@[r.unwrap() as int] == (method, guard@, name@),
    {
        let ghost k = (method, guard@, name@);
        let mut i: usize = 0;
        while i < self.entries.len()
            invariant
                self.wf(),
                k == (method, guard@, name@),
                0 <= i <= self.entries@.len(),
                forall|j: int| 0 <= j < i ==> self.resolved@[j] != k,
            decreases self.entries@.len() - i,
        {
            let e = &self.entries[i];
            let same_method = e.method == method;
            let same_guard = e.guard == *guard;
            let same_name = e.name == *name;
            if same_method && same_guard && same_name {
                assert(self.entries@[i as int].key() == k);
                return Some(i);
            }
            assert(self.entries@[i as int].key() != k);
            i = i + 1;
        }
        assert(!self.resolved@.contains(k)) by {
            if self.resolved@.contains(k) {
                let j = choose|j: int| 0 <= j < self.resolved@.len() && self.resolved@[j] == k;
                assert(self.resolved@[j] != k);
            }
        }
        None
    }

    /// The limiter of (`method`, `guard`, `route_name`) if it is registered;
    /// the registry is left as it is. Needs only shared access, so that the
    /// routes already seen are served side by side.
    pub fn lookup(&self, method: Method, guard: &str, route_name: &str) -> (r: Option<RouteLimiter>)
        requires
            self.wf(),
        ensures
            r.is_none() <==> !self@.contains_key((method, guard@, route_name@)),
            r.is_some() ==> r.unwrap().quota_of() == self@[(method, guard@, route_name@)],
            r.is_some() ==> r.unwrap().is_usable() == r.unwrap().quota_of().is_buildable(),
            r.is_some() ==> r.unwrap().slot_of() == self.slot((method, guard@, route_name@)),
            r.is_some() ==> r.unwrap().wf(),
    {
        let g = String::from_str(guard);
        let n = String::from_str(route_name);
        match self.find(method, &g, &n) {
            None => None,
            Some(i) => {
                let route = self.entries[i].route.share();
                proof {
                    self.lemma_slot_at(i as int);
                }
                route.clean_up();
                Some(route)
            },
        }
    }

    /// The limiter of (`method`, `guard`, `route_name`). A route seen for
    /// the first time calls `quota_provider` for its quota, gets a fresh
    /// limiter of its own, and is registered; a route already registered
    /// does not call it. Every other route keeps what it had. Looks for the
    /// route again before it asks, so that of two callers that missed it in
    /// `lookup` only the first registers it.
    pub fn get_or_insert<F: FnOnce() -> Quota>(&mut self, method: Method, guard: &str, route_name: &str, quota_provider: F) -> (r: RouteLimiter)
        requires
            old(self).wf(),
            quota_provider.requires(()),
        ensures
            final(self).wf(),
            ({
                let k = (method, guard@, route_name@);
                &&& old(self)@.contains_key(k) ==> final(self)@ == old(self)@ && final(self).resolutions() == old(self).resolutions()
                &&& !old(self)@.contains_key(k) ==> final(self)@ == old(self)@.insert(k, r.quota_of())
                    && final(self).resolutions() == old(self).resolutions().push(k)
                    && quota_provider.ensures((), r.quota_of())
                &&& final(self)@.contains_key(k) && final(self)@[k] == r.quota_of()
                &&& r.slot_of() == final(self).slot(k)
                &&& forall|k2: RouteKey| #[trigger] old(self)@.contains_key(k2) ==> final(self).slot(k2) == old(self).slot(k2)
            }),
            r.is_usable() == r.quota_of().is_buildable(),
            r.wf(),
    {
        let g = String::from_str(guard);
        let n = String::from_str(route_name);
        let ghost k = (method, guard@, route_name@);
        let route = match self.find(method, &g, &n) {
            Some(i) => {
                proof {
                    self.lemma_slot_at(i as int);
                }
                self.entries[i].route.share()
            },
            None => {
                let quota = quota_provider();
                let fresh = RouteLimiter::build(quota, Ghost(self.entries@.len() as int));
                let route = fresh.share();
                let ghost old_entries = self.entries@;
                let ghost old_resolved = self.resolved@;
                self.entries.push(Entry { method, guard: g, name: n, route: fresh });
                proof {
                    self.quotas@ = self.quotas@.insert(k, quota);
                    self.resolved@ = self.resolved@.push(k);
                    assert forall|i: int| 0 <= i < self.entries@.len() implies #[trigger] self.entries@[i].key() == self.resolved@[i] by {
                        if i < old_entries.len() {
                            assert(self.entries@[i] == old_entries[i]);
                        }
                    }
                    assert forall|j: int| 0 <= j < old_resolved.len() implies old_resolved[j] != k by {
                        assert(old_resolved.contains(old_resolved[j]));
                    }
                    assert forall|k2: RouteKey| #[trigger] self.quotas@.contains_key(k2) <==> self.resolved@.contains(k2) by {
                        if self.resolved@.contains(k2) && k2 != k {
                            let j = choose|j: int| 0 <= j < self.resolved@.len() && self.resolved@[j] == k2;
                            assert(j < old_resolved.len());
                            assert(old_resolved.contains(k2));
                        }
                        if old_resolved.contains(k2) {
                            let j = choose|j: int| 0 <= j < old_resolved.len() && old_resolved[j] == k2;
                            assert(self.resolved@[j] == k2);
                        }
                        assert(self.resolved@[old_resolved.len() as int] == k);
                    }
                    assert forall|i: int| 0 <= i < self.entries@.len() implies self.quotas@[#[trigger] self.resolved@[i]] == self.entries@[i].route.quota by {
                        if i < old_entries.len() {
                            assert(self.entries@[i] == old_entries[i]);
                            assert(old_resolved[i] != k);
                        }
                    }
                    assert forall|i: int| 0 <= i < self.entries@.len() implies (#[trigger] self.entries@[i]).route.is_usable() == self.entries@[i].route.quota.is_buildable() by {
                        if i < old_entries.len() {
                            assert(self.entries@[i] == old_entries[i]);
                        }
                    }
                    assert forall|i: int| 0 <= i < self.entries@.len() implies (#[trigger] self.entries@[i]).route.wf() by {
                        if i < old_entries.len() {
                            assert(self.entries@[i] == old_entries[i]);
                        }
                    }
                    assert forall|i: int| 0 <= i < self.entries@.len() implies (#[trigger] self.entries@[i]).route.slot@ == i by {
                        if i < old_entries.len() {
                            assert(self.entries@[i] == old_entries[i]);
                        }
                    }
                    assert(self.wf());
                    self.lemma_slot_at(old_resolved.len() as int);
                    assert forall|k2: RouteKey| #[trigger] old(self)@.contains_key(k2) implies self.slot(k2) == old(self).slot(k2) by {
                        assert(old_resolved.contains(k2));
                        let j = choose|j: int| 0 <= j < old_resolved.len() && old_resolved[j] == k2;
                        old(self).lemma_slot_at(j);
                        self.lemma_slot_at(j);
                    }
                }
                route
            },
        };
        route.clean_up();
        route
    }
}

/// A guard is asked for the quota of a route at most once: every route
/// identity stands at most once among the resolutions, and exactly the
/// resolved routes are registered.
pub proof fn lemma_quota_resolved_once(reg: &Registry)
    requires
        reg.wf(),
    ensures
        reg.resolutions().no_duplicates(),
        forall|k: RouteKey| #[trigger] reg@.contains_key(k) <==> reg.resolutions().contains(k),
{
}

/// Two distinct routes never share a limiter: each registered route has an
/// entry of its own, built for it when it was first seen, and the handles
/// `lookup` and `get_or_insert` give out for a route carry its entry.
pub proof fn lemma_routes_isolated(reg: &Registry, k1: RouteKey, k2: RouteKey, l1: RouteLimiter, l2: RouteLimiter)
    requires
        reg.wf(),
        reg@.contains_key(k1),
        reg@.contains_key(k2),
        k1 != k2,
        l1.slot_of() == reg.slot(k1),
        l2.slot_of() == reg.slot(k2),
    ensures
        l1.slot_of() != l2.slot_of(),
{
    assert(reg.resolved@.contains(k1));
    assert(reg.resolved@.contains(k2));
}

} // verus!
