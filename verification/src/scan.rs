//! Scan admission: requests that arrive together share one physical scan, and
//! a recent result answers a request without any scan.
//!
//! This is a pure state machine, with no I/O and no clock of its own: the
//! caller says what time it is.

use std::sync::Arc;

use vstd::prelude::*;

use crate::corewlan::ScannedNetwork;
use crate::location::{self, LocationAuth};
use crate::text;
use crate::time::{self, Duration, Instant};

verus! {

/// How long a successful result stays servable, in seconds.
pub const CACHE_LIFETIME_SECS: u64 = 5;

/// A client that waits for a scan, addressed by the request that asked.
#[derive(Clone, Copy, Debug, PartialEq, Eq, Structural)]
pub struct ScanWaiter {
    pub client_id: u64,
    pub request_id: u64,
    pub purpose: ScanPurpose,
}

/// The response that a request expects once the shared scan is finished.
#[derive(Clone, Copy, Debug, PartialEq, Eq, Structural)]
pub enum ScanPurpose {
    Scan,
    Diagnose,
}

/// What to do about one incoming request.
#[derive(Debug)]
pub enum ScanDecision {
    /// Serve this result at once.
    Cached(Arc<Vec<ScannedNetwork>>),
    /// A scan is running and will answer the request.
    Coalesced,
    /// Nothing runs and nothing is fresh: start a physical scan.
    Start { operation_id: u64 },
}

/// A finished physical scan, addressed to everyone who waited for it.
#[derive(Debug)]
pub struct ScanCompletion {
    pub waiters: Vec<ScanWaiter>,
    /// From the start of the operation to its completion.
    pub elapsed: Duration,
    /// Shared with the cache.
    pub result: Result<Arc<Vec<ScannedNetwork>>, String>,
}

#[derive(Clone, Copy, Debug)]
pub struct InFlight {
    pub operation_id: u64,
    pub started_at: Instant,
}

#[derive(Debug)]
pub struct CachedScan {
    pub networks: Arc<Vec<ScannedNetwork>>,
    pub completed_at: Instant,
}

/// The admission state.
#[derive(Debug)]
pub struct ScanCoordinator {
    pub in_flight: Option<InFlight>,
    pub waiters: Vec<ScanWaiter>,
    pub last_success: Option<CachedScan>,
    pub next_operation_id: u64,
    pub lifetime: Duration,
}

/// The lifetime of a cached result.
pub fn cache_lifetime() -> (r: Duration)
    ensures
        r.nanos == CACHE_LIFETIME_SECS * time::NANOS_PER_SEC,
{
    Duration::from_secs(CACHE_LIFETIME_SECS)
}

/// The waiters other than those of `client_id`, in order.
pub open spec fn without_client(waiters: Seq<ScanWaiter>, client_id: u64) -> Seq<ScanWaiter>
    decreases waiters.len(),
{
    if waiters.len() == 0 {
        waiters
    } else if waiters.last().client_id == client_id {
        without_client(waiters.drop_last(), client_id)
    } else {
        without_client(waiters.drop_last(), client_id).push(waiters.last())
    }
}

/// The admission state as a mathematical value.
#[verifier::ext_equal]
pub struct CoordinatorView {
    pub in_flight: Option<InFlight>,
    pub waiters: Seq<ScanWaiter>,
    /// The last successful result and the moment of its completion.
    pub cache: Option<(Seq<ScannedNetwork>, Instant)>,
    pub next_operation_id: nat,
    pub lifetime: Duration,
}

/// A decision as a mathematical value.
#[verifier::ext_equal]
pub enum DecisionView {
    Cached(Seq<ScannedNetwork>),
    Coalesced,
    Start { operation_id: nat },
}

impl View for ScanCoordinator {
    type V = CoordinatorView;

    open spec fn view(&self) -> CoordinatorView {
        CoordinatorView {
            in_flight: self.in_flight,
            waiters: self.waiters@,
            cache: match self.last_success {
                Some(c) => Some((c.networks@, c.completed_at)),
                None => None,
            },
            next_operation_id: self.next_operation_id as nat,
            lifetime: self.lifetime,
        }
    }
}

impl View for ScanDecision {
    type V = DecisionView;

    open spec fn view(&self) -> DecisionView {
        match *self {
            ScanDecision::Cached(n) => DecisionView::Cached(n@),
            ScanDecision::Coalesced => DecisionView::Coalesced,
            ScanDecision::Start { operation_id } => DecisionView::Start {
                operation_id: operation_id as nat,
            },
        }
    }
}

impl CoordinatorView {
    /// The state before the first call.
    pub open spec fn initial(lifetime: Duration) -> CoordinatorView {
        CoordinatorView {
            in_flight: None,
            waiters: seq![],
            cache: None,
            next_operation_id: 1,
            lifetime,
        }
    }

    /// A cached result exists and is younger than the lifetime.
    pub open spec fn fresh(self, now: Instant) -> bool {
        match self.cache {
            Some(c) => time::nanos_between(now, c.1) < self.lifetime.nanos,
            None => false,
        }
    }

    /// The operation that runs has the id `operation_id`.
    pub open spec fn running(self, operation_id: u64) -> bool {
        match self.in_flight {
            Some(f) => f.operation_id == operation_id,
            None => false,
        }
    }

    /// The decision about a request that arrives at `now`.
    pub open spec fn decision(self, now: Instant) -> DecisionView {
        if self.fresh(now) {
            DecisionView::Cached((self.cache->0).0)
        } else if self.in_flight is Some {
            DecisionView::Coalesced
        } else {
            DecisionView::Start { operation_id: self.next_operation_id }
        }
    }

    /// The state after a request.
    pub open spec fn requested(self, waiter: ScanWaiter, now: Instant) -> CoordinatorView {
        if self.fresh(now) {
            self
        } else if self.in_flight is Some {
            CoordinatorView { waiters: self.waiters.push(waiter), ..self }
        } else {
            CoordinatorView {
                in_flight: Some(
                    InFlight { operation_id: self.next_operation_id as u64, started_at: now },
                ),
                waiters: self.waiters.push(waiter),
                next_operation_id: self.next_operation_id + 1,
                ..self
            }
        }
    }

    /// The state after an operation reports its result: the networks that it
    /// found, or none where it failed.
    pub open spec fn finished(
        self,
        operation_id: u64,
        found: Option<Seq<ScannedNetwork>>,
        now: Instant,
    ) -> CoordinatorView {
        if !self.running(operation_id) {
            self
        } else {
            CoordinatorView {
                in_flight: None,
                waiters: seq![],
                cache: match found {
                    Some(networks) => Some((networks, now)),
                    None => self.cache,
                },
                ..self
            }
        }
    }

    /// The state after a client left.
    pub open spec fn forgotten(self, client_id: u64) -> CoordinatorView {
        CoordinatorView { waiters: without_client(self.waiters, client_id), ..self }
    }

    /// The state after a list of requests, each with its moment of arrival.
    pub open spec fn all_requested(self, requests: Seq<(ScanWaiter, Instant)>) -> CoordinatorView
        decreases requests.len(),
    {
        if requests.len() == 0 {
            self
        } else {
            self.all_requested(requests.drop_last()).requested(
                requests.last().0,
                requests.last().1,
            )
        }
    }
}

/// One call of a coordinator.
pub enum Call {
    Request { waiter: ScanWaiter, now: Instant },
    /// The networks that the operation found, or none where it failed.
    Finish { operation_id: u64, found: Option<Seq<ScannedNetwork>>, now: Instant },
    Abort { operation_id: u64, now: Instant },
    ForgetClient { client_id: u64 },
}

impl CoordinatorView {
    /// The state after one call.
    pub open spec fn called(self, call: Call) -> CoordinatorView {
        match call {
            Call::Request { waiter, now } => self.requested(waiter, now),
            Call::Finish { operation_id, found, now } => self.finished(operation_id, found, now),
            Call::Abort { operation_id, now } => self.finished(operation_id, None, now),
            Call::ForgetClient { client_id } => self.forgotten(client_id),
        }
    }

    /// The call starts an operation.
    pub open spec fn starts(self, call: Call) -> bool {
        call matches Call::Request { waiter, now } && self.decision(now) is Start
    }

    /// The call ends the operation that runs, and so returns a completion.
    pub open spec fn ends(self, call: Call) -> bool {
        match call {
            Call::Finish { operation_id, found, now } => self.running(operation_id),
            Call::Abort { operation_id, now } => self.running(operation_id),
            _ => false,
        }
    }

    /// The result that the call hands over with success, and its moment.
    pub open spec fn accepts(self, call: Call) -> Option<(Seq<ScannedNetwork>, Instant)> {
        match call {
            Call::Finish { operation_id, found: Some(networks), now } => if self.running(
                operation_id,
            ) {
                Some((networks, now))
            } else {
                None
            },
            _ => None,
        }
    }
}

/// The state of a new coordinator after a list of calls.
pub open spec fn after(lifetime: Duration, calls: Seq<Call>) -> CoordinatorView
    decreases calls.len(),
{
    if calls.len() == 0 {
        CoordinatorView::initial(lifetime)
    } else {
        after(lifetime, calls.drop_last()).called(calls.last())
    }
}

/// The last result that was handed over with success, and its moment.
pub open spec fn last_accepted(lifetime: Duration, calls: Seq<Call>) -> Option<
    (Seq<ScannedNetwork>, Instant),
>
    decreases calls.len(),
{
    if calls.len() == 0 {
        None
    } else {
        match after(lifetime, calls.drop_last()).accepts(calls.last()) {
            Some(accepted) => Some(accepted),
            None => last_accepted(lifetime, calls.drop_last()),
        }
    }
}

/// How many of the calls started an operation.
pub open spec fn started(lifetime: Duration, calls: Seq<Call>) -> nat
    decreases calls.len(),
{
    if calls.len() == 0 {
        0
    } else {
        started(lifetime, calls.drop_last()) + if after(lifetime, calls.drop_last()).starts(
            calls.last(),
        ) {
            1nat
        } else {
            0nat
        }
    }
}

/// How many of the calls ended an operation.
pub open spec fn ended(lifetime: Duration, calls: Seq<Call>) -> nat
    decreases calls.len(),
{
    if calls.len() == 0 {
        0
    } else {
        ended(lifetime, calls.drop_last()) + if after(lifetime, calls.drop_last()).ends(
            calls.last(),
        ) {
            1nat
        } else {
            0nat
        }
    }
}

/// How often `w` is among the waiters.
pub open spec fn times(waiters: Seq<ScanWaiter>, w: ScanWaiter) -> nat
    decreases waiters.len(),
{
    if waiters.len() == 0 {
        0
    } else {
        times(waiters.drop_last(), w) + if waiters.last() == w {
            1nat
        } else {
            0nat
        }
    }
}

/// How often `w` asked.
pub open spec fn asked(calls: Seq<Call>, w: ScanWaiter) -> nat
    decreases calls.len(),
{
    if calls.len() == 0 {
        0
    } else {
        asked(calls.drop_last(), w) + match calls.last() {
            Call::Request { waiter, now } => if waiter == w {
                1nat
            } else {
                0nat
            },
            _ => 0nat,
        }
    }
}

/// How often `w` was answered: at once, out of memory, or by an operation
/// that ended while `w` waited.
pub open spec fn answered(lifetime: Duration, calls: Seq<Call>, w: ScanWaiter) -> nat
    decreases calls.len(),
{
    if calls.len() == 0 {
        0
    } else {
        let s = after(lifetime, calls.drop_last());
        answered(lifetime, calls.drop_last(), w) + match calls.last() {
            Call::Request { waiter, now } => if waiter == w && s.decision(now) is Cached {
                1nat
            } else {
                0nat
            },
            _ => if s.ends(calls.last()) {
                times(s.waiters, w)
            } else {
                0nat
            },
        }
    }
}

/// How often `w` waited when its client left.
pub open spec fn abandoned(lifetime: Duration, calls: Seq<Call>, w: ScanWaiter) -> nat
    decreases calls.len(),
{
    if calls.len() == 0 {
        0
    } else {
        let s = after(lifetime, calls.drop_last());
        abandoned(lifetime, calls.drop_last(), w) + match calls.last() {
            Call::ForgetClient { client_id } => if client_id == w.client_id {
                times(s.waiters, w)
            } else {
                0nat
            },
            _ => 0nat,
        }
    }
}

/// What a scan found, where it did not fail.
pub open spec fn found_in(result: Result<Vec<ScannedNetwork>, String>) -> Option<
    Seq<ScannedNetwork>,
> {
    match result {
        Ok(networks) => Some(networks@),
        Err(_) => None,
    }
}

impl ScanCoordinator {
    /// Every operation that was ever started has an id below the next one, and
    /// nobody waits unless an operation runs.
    pub open spec fn valid(&self) -> bool {
        &&& self.in_flight matches Some(f) ==> f.operation_id < self.next_operation_id
        &&& self.in_flight is None ==> self.waiters@.len() == 0
    }

    /// A cached result exists and is younger than the lifetime.
    pub open spec fn fresh(&self, now: Instant) -> bool {
        match self.last_success {
            Some(c) => time::nanos_between(now, c.completed_at) < self.lifetime.nanos,
            None => false,
        }
    }

    /// The operation that runs has the id `operation_id`.
    pub open spec fn running(&self, operation_id: u64) -> bool {
        match self.in_flight {
            Some(f) => f.operation_id == operation_id,
            None => false,
        }
    }

    pub fn new(lifetime: Duration) -> (r: Self)
        ensures
            r.valid(),
            r@ == CoordinatorView::initial(lifetime),
            r.in_flight is None,
            r.waiters@ == Seq::<ScanWaiter>::empty(),
            r.last_success is None,
            r.next_operation_id == 1,
            r.lifetime == lifetime,
    {
        ScanCoordinator {
            in_flight: None,
            waiters: Vec::new(),
            last_success: None,
            next_operation_id: 1,
            lifetime,
        }
    }

    /// The decision about a request that would arrive now.
    pub fn decide(&self, now: Instant) -> (decision: ScanDecision)
        ensures
            decision@ == self@.decision(now),
            decision matches ScanDecision::Cached(n) ==> n == self.last_success->0.networks,
    {
        if let Some(cached) = &self.last_success {
            if now.duration_since(cached.completed_at).nanos < self.lifetime.nanos {
                return ScanDecision::Cached(cached.networks.clone());
            }
        }
        if self.in_flight.is_some() {
            ScanDecision::Coalesced
        } else {
            ScanDecision::Start { operation_id: self.next_operation_id }
        }
    }

    /// Admits one request.
    ///
    /// A fresh result answers it, and nothing changes. Otherwise the request
    /// waits: for the operation that runs, or for one that is started for it.
    pub fn request(&mut self, waiter: ScanWaiter, now: Instant) -> (decision: ScanDecision)
        requires
            old(self).valid(),
            old(self)@.decision(now) is Start ==> old(self).next_operation_id < u64::MAX,
        ensures
            final(self).valid(),
            decision@ == old(self)@.decision(now),
            final(self)@ == old(self)@.requested(waiter, now),
            final(self).last_success == old(self).last_success,
            final(self).lifetime == old(self).lifetime,
            old(self).fresh(now) ==> {
                &&& decision matches ScanDecision::Cached(n) && n == old(
                    self,
                ).last_success->0.networks
                &&& *final(self) == *old(self)
            },
            !old(self).fresh(now) ==> final(self).waiters@ == old(self).waiters@.push(waiter),
            !old(self).fresh(now) && old(self).in_flight is Some ==> {
                &&& decision is Coalesced
                &&& final(self).in_flight == old(self).in_flight
                &&& final(self).next_operation_id == old(self).next_operation_id
            },
            !old(self).fresh(now) && old(self).in_flight is None ==> {
                &&& decision matches ScanDecision::Start { operation_id } && operation_id == old(
                    self,
                ).next_operation_id
                &&& final(self).in_flight == Some(
                    InFlight { operation_id: old(self).next_operation_id, started_at: now },
                )
                &&& final(self).next_operation_id == old(self).next_operation_id + 1
            },
    {
        let decision = self.decide(now);
        match &decision {
            ScanDecision::Cached(_) => {},
            ScanDecision::Coalesced => {
                self.waiters.push(waiter);
            },
            ScanDecision::Start { operation_id } => {
                self.waiters.push(waiter);
                self.in_flight = Some(
                    InFlight { operation_id: *operation_id, started_at: now },
                );
                self.next_operation_id = self.next_operation_id + 1;
            },
        }
        decision
    }

    /// Completes the operation `operation_id` and returns everyone who is owed
    /// a reply.
    ///
    /// An operation that is not the one that runs changes nothing: a late
    /// result must not clear the scan that replaced it. Only a success is
    /// cached; a failure leaves the cache as it was.
    pub fn finish(
        &mut self,
        operation_id: u64,
        result: Result<Vec<ScannedNetwork>, String>,
        now: Instant,
    ) -> (completion: Option<ScanCompletion>)
        requires
            old(self).valid(),
        ensures
            final(self).valid(),
            final(self)@ == old(self)@.finished(operation_id, found_in(result), now),
            completion is Some <==> old(self).running(operation_id),
            !old(self).running(operation_id) ==> *final(self) == *old(self),
            old(self).running(operation_id) ==> {
                &&& final(self).in_flight is None
                &&& final(self).waiters@ == Seq::<ScanWaiter>::empty()
                &&& final(self).next_operation_id == old(self).next_operation_id
                &&& final(self).lifetime == old(self).lifetime
                &&& completion->0.waiters@ == old(self).waiters@
                &&& completion->0.elapsed.nanos == time::nanos_between(
                    now,
                    old(self).in_flight->0.started_at,
                )
                &&& match result {
                    Ok(networks) => {
                        &&& completion->0.result matches Ok(served) && served@ == networks@
                        &&& final(self).last_success == Some(
                            CachedScan {
                                networks: completion->0.result->Ok_0,
                                completed_at: now,
                            },
                        )
                    },
                    Err(e) => {
                        &&& completion->0.result matches Err(reported) && reported == e
                        &&& final(self).last_success == old(self).last_success
                    },
                }
            },
    {
        let started_at = match &self.in_flight {
            Some(f) => {
                if f.operation_id != operation_id {
                    return None;
                }
                f.started_at
            },
            None => {
                return None;
            },
        };
        self.in_flight = None;
        let result = match result {
            Ok(networks) => {
                let networks = Arc::new(networks);
                self.last_success = Some(
                    CachedScan { networks: networks.clone(), completed_at: now },
                );
                Ok(networks)
            },
            Err(e) => Err(e),
        };
        let mut waiters: Vec<ScanWaiter> = Vec::new();
        std::mem::swap(&mut waiters, &mut self.waiters);
        Some(ScanCompletion { waiters, elapsed: now.duration_since(started_at), result })
    }

    /// Drops the waiters of a departed client. A running operation goes on,
    /// and its result still fills the cache.
    pub fn forget_client(&mut self, client_id: u64)
        requires
            old(self).valid(),
        ensures
            final(self).valid(),
            final(self)@ == old(self)@.forgotten(client_id),
            final(self).waiters@ == without_client(old(self).waiters@, client_id),
            final(self).in_flight == old(self).in_flight,
            final(self).last_success == old(self).last_success,
            final(self).next_operation_id == old(self).next_operation_id,
            final(self).lifetime == old(self).lifetime,
    {
        let mut kept: Vec<ScanWaiter> = Vec::new();
        let mut i: usize = 0;
        let ghost all = self.waiters@;
        assert(all.take(0) =~= Seq::<ScanWaiter>::empty());
        while i < self.waiters.len()
            invariant
                i <= all.len(),
                self.waiters@ == all,
                kept@ == without_client(all.take(i as int), client_id),
            decreases all.len() - i,
        {
            let w = self.waiters[i];
            assert(all.take(i + 1).drop_last() =~= all.take(i as int));
            if w.client_id != client_id {
                kept.push(w);
            }
            i += 1;
        }
        assert(all.take(all.len() as int) =~= all);
        self.waiters = kept;
    }

    /// Completes the running operation with an error, because it could not be
    /// handed to the worker.
    pub fn abort(&mut self, operation_id: u64, error: String, now: Instant) -> (completion: Option<
        ScanCompletion,
    >)
        requires
            old(self).valid(),
        ensures
            final(self).valid(),
            final(self)@ == old(self)@.finished(operation_id, None, now),
            completion is Some <==> old(self).running(operation_id),
            !old(self).running(operation_id) ==> *final(self) == *old(self),
            old(self).running(operation_id) ==> {
                &&& final(self).in_flight is None
                &&& final(self).waiters@ == Seq::<ScanWaiter>::empty()
                &&& final(self).last_success == old(self).last_success
                &&& final(self).next_operation_id == old(self).next_operation_id
                &&& final(self).lifetime == old(self).lifetime
                &&& completion->0.waiters@ == old(self).waiters@
                &&& completion->0.elapsed.nanos == time::nanos_between(
                    now,
                    old(self).in_flight->0.started_at,
                )
                &&& completion->0.result matches Err(reported) && reported == error
            },
    {
        self.finish(operation_id, Err(error), now)
    }
}

impl Default for ScanCoordinator {
    fn default() -> (r: Self)
        ensures
            r.valid(),
            r@ == CoordinatorView::initial(r.lifetime),
            r.in_flight is None,
            r.waiters@ == Seq::<ScanWaiter>::empty(),
            r.last_success is None,
            r.next_operation_id == 1,
            r.lifetime.nanos == CACHE_LIFETIME_SECS * time::NANOS_PER_SEC,
    {
        Self::new(cache_lifetime())
    }
}

/// How many of the networks show no name.
pub open spec fn blank_count(networks: Seq<ScannedNetwork>) -> nat
    decreases networks.len(),
{
    if networks.len() == 0 {
        0
    } else {
        blank_count(networks.drop_last()) + if networks.last().is_blank() {
            1nat
        } else {
            0nat
        }
    }
}

/// How many of the networks show no name. A full list of blanks is the
/// signature of a lost Location grant.
pub fn blank_ssids(networks: &[ScannedNetwork]) -> (r: usize)
    ensures
        r == blank_count(networks@),
{
    let mut n: usize = 0;
    let mut i: usize = 0;
    assert(networks@.take(0) =~= Seq::<ScannedNetwork>::empty());
    while i < networks.len()
        invariant
            i <= networks@.len(),
            n <= i,
            n == blank_count(networks@.take(i as int)),
        decreases networks@.len() - i,
    {
        assert(networks@.take(i + 1).drop_last() =~= networks@.take(i as int));
        if networks[i].blank() {
            n += 1;
        }
        i += 1;
    }
    assert(networks@.take(networks@.len() as int) =~= networks@);
    n
}

/// There are networks, and none of them shows a name.
pub open spec fn all_blank(networks: Seq<ScannedNetwork>) -> bool {
    &&& networks.len() > 0
    &&& forall|i: int| 0 <= i < networks.len() ==> (#[trigger] networks[i]).is_blank()
}

/// The diagnostic that goes with a scan whose names all came back blank: the
/// Location hint, or, where Location is in order, the advice to run the
/// bundled program.
pub open spec fn diagnostic_of(networks: Seq<ScannedNetwork>, auth: LocationAuth) -> Option<
    Seq<char>,
> {
    if !all_blank(networks) {
        None
    } else {
        match location::hint_of(auth) {
            Some(hint) => Some(hint),
            None => Some(
                "SSIDs redacted despite Location auth — run via bundled .app (scripts/bundle.sh) so TCC matches this binary"@,
            ),
        }
    }
}

/// The diagnostic to send along with a scan whose names all came back blank.
pub fn redaction_diagnostic(networks: &[ScannedNetwork], auth: LocationAuth) -> (r: Option<String>)
    ensures
        text::opt_text(r) == diagnostic_of(networks@, auth),
{
    if networks.is_empty() {
        return None;
    }
    let mut i: usize = 0;
    while i < networks.len()
        invariant
            i <= networks@.len(),
            forall|k: int| 0 <= k < i ==> (#[trigger] networks@[k]).is_blank(),
        decreases networks@.len() - i,
    {
        if !networks[i].blank() {
            return None;
        }
        i += 1;
    }
    match location::redaction_hint(auth) {
        Some(hint) => Some(hint.to_owned()),
        None => Some(
            "SSIDs redacted despite Location auth — run via bundled .app (scripts/bundle.sh) so TCC matches this binary".to_owned(),
        ),
    }
}

// ---------------------------------------------------------------------------
// Laws.
// ---------------------------------------------------------------------------

/// Requests that arrive while an operation runs, and that no fresh result can
/// answer, never start a second operation: every one of them joins the running
/// one, behind those that waited before.
pub proof fn requests_share_one_operation(
    s: CoordinatorView,
    requests: Seq<(ScanWaiter, Instant)>,
)
    requires
        s.in_flight is Some,
        forall|i: int| 0 <= i < requests.len() ==> !s.fresh((#[trigger] requests[i]).1),
    ensures
        s.all_requested(requests).in_flight == s.in_flight,
        s.all_requested(requests).next_operation_id == s.next_operation_id,
        s.all_requested(requests).waiters == s.waiters + Seq::new(
            requests.len(),
            |i: int| requests[i].0,
        ),
        s.all_requested(requests).cache == s.cache,
        s.all_requested(requests).lifetime == s.lifetime,
        forall|i: int|
            0 <= i < requests.len() ==> s.all_requested(requests.take(i)).decision(
                (#[trigger] requests[i]).1,
            ) == DecisionView::Coalesced,
    decreases requests.len(),
{
    let names = Seq::new(requests.len(), |i: int| requests[i].0);
    if requests.len() == 0 {
        assert(s.waiters + names =~= s.waiters);
    } else {
        let init = requests.drop_last();
        assert forall|i: int| 0 <= i < init.len() implies !s.fresh((#[trigger] init[i]).1) by {
            assert(init[i] == requests[i]);
        }
        requests_share_one_operation(s, init);
        let last = requests[requests.len() - 1];
        assert(!s.fresh(last.1));
        assert(s.waiters + names =~= (s.waiters + Seq::new(init.len(), |i: int| init[i].0)).push(
            last.0,
        ));
        assert forall|i: int| 0 <= i < requests.len() implies s.all_requested(
            requests.take(i),
        ).decision((#[trigger] requests[i]).1) == DecisionView::Coalesced by {
            if i < init.len() {
                assert(requests.take(i) =~= init.take(i));
                assert(init[i] == requests[i]);
            } else {
                assert(requests.take(i) =~= init);
            }
        }
    }
}

/// Once an operation has finished, whatever its result, nobody waits any more:
/// the next request, unless a fresh result answers it, starts a new operation.
pub proof fn every_waiter_is_released(
    s: CoordinatorView,
    operation_id: u64,
    found: Option<Seq<ScannedNetwork>>,
    now: Instant,
    later: Instant,
)
    requires
        s.running(operation_id),
    ensures
        s.finished(operation_id, found, now).waiters.len() == 0,
        !s.finished(operation_id, found, now).fresh(later) ==> s.finished(
            operation_id,
            found,
            now,
        ).decision(later) == (DecisionView::Start { operation_id: s.next_operation_id }),
{
}

/// A successful result is served, unchanged, to every request that arrives
/// less than the lifetime after it.
pub proof fn a_result_is_served_while_fresh(
    s: CoordinatorView,
    operation_id: u64,
    networks: Seq<ScannedNetwork>,
    now: Instant,
    later: Instant,
)
    requires
        s.running(operation_id),
        time::nanos_between(later, now) < s.lifetime.nanos,
    ensures
        s.finished(operation_id, Some(networks), now).decision(later) == DecisionView::Cached(
            networks,
        ),
        s.finished(operation_id, Some(networks), now).fresh(later),
{
}

/// Once the lifetime is over, a result is served no more.
pub proof fn an_expired_result_is_not_served(
    s: CoordinatorView,
    operation_id: u64,
    networks: Seq<ScannedNetwork>,
    now: Instant,
    later: Instant,
)
    requires
        s.running(operation_id),
        time::nanos_between(later, now) >= s.lifetime.nanos,
    ensures
        s.finished(operation_id, Some(networks), now).decision(later) == (DecisionView::Start {
            operation_id: s.next_operation_id,
        }),
{
}

/// A failure changes nothing that a later request could be served from.
pub proof fn a_failure_does_not_poison_the_cache(
    s: CoordinatorView,
    operation_id: u64,
    now: Instant,
    later: Instant,
)
    ensures
        s.finished(operation_id, None, now).cache == s.cache,
        s.finished(operation_id, None, now).fresh(later) == s.fresh(later),
{
}

/// A result of an operation that no longer runs is dropped: it takes neither
/// the waiters nor the place of the operation that replaced it.
pub proof fn a_stale_result_changes_nothing(
    s: CoordinatorView,
    operation_id: u64,
    found: Option<Seq<ScannedNetwork>>,
    now: Instant,
)
    requires
        !s.running(operation_id),
    ensures
        s.finished(operation_id, found, now) == s,
{
}

/// A departed client waits no more, and the wait of everyone else is
/// untouched.
pub proof fn a_departed_client_leaves_the_others_waiting(
    waiters: Seq<ScanWaiter>,
    client_id: u64,
    w: ScanWaiter,
)
    ensures
        without_client(waiters, client_id).contains(w) <==> waiters.contains(w) && w.client_id
            != client_id,
    decreases waiters.len(),
{
    if waiters.len() > 0 {
        let init = waiters.drop_last();
        let kept = without_client(init, client_id);
        a_departed_client_leaves_the_others_waiting(init, client_id, w);
        assert(waiters =~= init.push(waiters.last()));
        if waiters.last() == w {
            assert(waiters[waiters.len() - 1] == w);
        }
        if init.contains(w) {
            let i = choose|i: int| 0 <= i < init.len() && init[i] == w;
            assert(waiters[i] == w);
        }
        if waiters.contains(w) && waiters.last() != w {
            let i = choose|i: int| 0 <= i < waiters.len() && waiters[i] == w;
            assert(init[i] == w);
        }
        if waiters.last().client_id != client_id {
            let all = kept.push(waiters.last());
            if kept.contains(w) {
                let i = choose|i: int| 0 <= i < kept.len() && kept[i] == w;
                assert(all[i] == w);
            }
            if waiters.last() == w {
                assert(all[kept.len() as int] == w);
            }
            if all.contains(w) {
                let i = choose|i: int| 0 <= i < all.len() && all[i] == w;
                if i < kept.len() {
                    assert(kept[i] == w);
                }
            }
        }
    }
}

/// Whatever the calls were, at most one operation runs. It is the last one
/// that was started, and nobody waits where none runs. Operations are numbered
/// in the order of their starts, from one.
pub proof fn one_operation_runs_at_a_time(lifetime: Duration, calls: Seq<Call>)
    requires
        started(lifetime, calls) < u64::MAX,
    ensures
        after(lifetime, calls).in_flight is Some <==> started(lifetime, calls) == ended(
            lifetime,
            calls,
        ) + 1,
        after(lifetime, calls).in_flight is None <==> started(lifetime, calls) == ended(
            lifetime,
            calls,
        ),
        after(lifetime, calls).in_flight matches Some(f) ==> f.operation_id == started(
            lifetime,
            calls,
        ),
        after(lifetime, calls).in_flight is None ==> after(lifetime, calls).waiters.len() == 0,
        after(lifetime, calls).next_operation_id == started(lifetime, calls) + 1,
    decreases calls.len(),
{
    if calls.len() > 0 {
        one_operation_runs_at_a_time(lifetime, calls.drop_last());
    }
}

/// Whatever the calls were, a request is answered out of memory exactly while
/// the last result that was accepted is younger than the lifetime, and then
/// with that result. Otherwise it joins the operation that runs, if one was
/// started and has not ended, or else starts the next one.
pub proof fn a_request_is_answered_from_the_last_accepted_result(
    lifetime: Duration,
    calls: Seq<Call>,
    now: Instant,
)
    requires
        started(lifetime, calls) < u64::MAX,
    ensures
        after(lifetime, calls).decision(now) == match last_accepted(lifetime, calls) {
            Some((networks, at)) if time::nanos_between(now, at) < lifetime.nanos =>
                DecisionView::Cached(networks),
            _ => if started(lifetime, calls) > ended(lifetime, calls) {
                DecisionView::Coalesced
            } else {
                DecisionView::Start { operation_id: started(lifetime, calls) + 1 }
            },
        },
{
    one_operation_runs_at_a_time(lifetime, calls);
    the_cache_is_the_last_accepted_result(lifetime, calls);
}

/// The memory holds the last result that was accepted, and nothing else.
proof fn the_cache_is_the_last_accepted_result(lifetime: Duration, calls: Seq<Call>)
    ensures
        after(lifetime, calls).cache == last_accepted(lifetime, calls),
        after(lifetime, calls).lifetime == lifetime,
    decreases calls.len(),
{
    if calls.len() > 0 {
        the_cache_is_the_last_accepted_result(lifetime, calls.drop_last());
    }
}

/// Whatever the calls were, every request has been answered once, or waits
/// still, or was abandoned when its client left, and no two of these. Where no
/// operation runs, nobody waits.
pub proof fn every_request_is_owed_one_answer(
    lifetime: Duration,
    calls: Seq<Call>,
    w: ScanWaiter,
)
    ensures
        asked(calls, w) == answered(lifetime, calls, w) + abandoned(lifetime, calls, w) + times(
            after(lifetime, calls).waiters,
            w,
        ),
        after(lifetime, calls).in_flight is None ==> asked(calls, w) == answered(
            lifetime,
            calls,
            w,
        ) + abandoned(lifetime, calls, w),
    decreases calls.len(),
{
    if calls.len() > 0 {
        let s = after(lifetime, calls.drop_last());
        every_request_is_owed_one_answer(lifetime, calls.drop_last(), w);
        nobody_waits_for_nothing(lifetime, calls);
        match calls.last() {
            Call::Request { waiter, now } => {
                assert(s.waiters.push(waiter).drop_last() =~= s.waiters);
            },
            Call::ForgetClient { client_id } => {
                the_waits_of_the_others_are_kept(s.waiters, client_id, w);
            },
            _ => {},
        }
    }
}

/// A request that waits is served by the operation that it started or joined:
/// as long as that one has not ended, and its client has not left, it runs,
/// and the request is among those that wait for it.
pub proof fn a_request_waits_for_the_operation_it_joined(
    lifetime: Duration,
    calls: Seq<Call>,
    i: int,
    w: ScanWaiter,
    now: Instant,
)
    requires
        started(lifetime, calls) < u64::MAX,
        0 <= i < calls.len(),
        calls[i] == (Call::Request { waiter: w, now }),
        !(after(lifetime, calls.take(i)).decision(now) is Cached),
        ended(lifetime, calls) == ended(lifetime, calls.take(i + 1)),
        forall|j: int|
            i < j < calls.len() ==> #[trigger] calls[j] != (Call::ForgetClient {
                client_id: w.client_id,
            }),
    ensures
        after(lifetime, calls).in_flight matches Some(f) && f.operation_id == started(
            lifetime,
            calls.take(i + 1),
        ),
        after(lifetime, calls).waiters.contains(w),
    decreases calls.len(),
{
    let earlier = calls.drop_last();
    let s = after(lifetime, earlier);
    one_operation_runs_at_a_time(lifetime, calls);
    if i == calls.len() - 1 {
        assert(calls.take(i + 1) =~= calls);
        assert(calls.take(i) =~= earlier);
        assert(s.waiters.push(w)[s.waiters.len() as int] == w);
    } else {
        assert(earlier.take(i + 1) =~= calls.take(i + 1));
        assert(earlier.take(i) =~= calls.take(i));
        assert(earlier[i] == calls[i]);
        ends_only_add_up(lifetime, earlier, i + 1);
        assert forall|j: int| i < j < earlier.len() implies #[trigger] earlier[j] != (
        Call::ForgetClient { client_id: w.client_id }) by {
            assert(earlier[j] == calls[j]);
        }
        a_request_waits_for_the_operation_it_joined(lifetime, earlier, i, w, now);
        match calls.last() {
            Call::Request { waiter, now: later } => {
                let k = choose|k: int| 0 <= k < s.waiters.len() && s.waiters[k] == w;
                assert(s.waiters.push(waiter)[k] == w);
            },
            Call::ForgetClient { client_id } => {
                assert(calls[calls.len() - 1] == calls.last());
                a_departed_client_leaves_the_others_waiting(s.waiters, client_id, w);
            },
            _ => {},
        }
    }
}

proof fn ends_only_add_up(lifetime: Duration, calls: Seq<Call>, n: int)
    requires
        0 <= n <= calls.len(),
    ensures
        ended(lifetime, calls.take(n)) <= ended(lifetime, calls),
    decreases calls.len(),
{
    if n == calls.len() {
        assert(calls.take(n) =~= calls);
    } else {
        ends_only_add_up(lifetime, calls.drop_last(), n);
        assert(calls.drop_last().take(n) =~= calls.take(n));
    }
}

proof fn nobody_waits_for_nothing(lifetime: Duration, calls: Seq<Call>)
    ensures
        after(lifetime, calls).in_flight is None ==> after(lifetime, calls).waiters.len() == 0,
    decreases calls.len(),
{
    if calls.len() > 0 {
        nobody_waits_for_nothing(lifetime, calls.drop_last());
    }
}

proof fn the_waits_of_the_others_are_kept(
    waiters: Seq<ScanWaiter>,
    client_id: u64,
    w: ScanWaiter,
)
    ensures
        times(without_client(waiters, client_id), w) == if w.client_id == client_id {
            0
        } else {
            times(waiters, w)
        },
    decreases waiters.len(),
{
    if waiters.len() > 0 {
        let kept = without_client(waiters.drop_last(), client_id);
        the_waits_of_the_others_are_kept(waiters.drop_last(), client_id, w);
        assert(kept.push(waiters.last()).drop_last() =~= kept);
    }
}

/// Some network shows a name exactly when not all are blank, so a single named
/// network suppresses the diagnostic.
pub proof fn a_named_network_suppresses_the_diagnostic(
    networks: Seq<ScannedNetwork>,
    i: int,
    auth: LocationAuth,
)
    requires
        0 <= i < networks.len(),
        !networks[i].is_blank(),
    ensures
        diagnostic_of(networks, auth) is None,
{
}

/// A result is served for five seconds.
pub proof fn a_result_is_fresh_for_five_seconds()
    ensures
        CACHE_LIFETIME_SECS == 5,
{
}

/// There is something to say about the names exactly where there are networks
/// and not one of them has a name of any length. It is the reason that
/// Location gives, and where Location is granted the advice to run the bundled
/// program.
pub proof fn missing_names_are_explained(networks: Seq<ScannedNetwork>, auth: LocationAuth)
    ensures
        diagnostic_of(networks, auth) is Some <==> networks.len() > 0 && forall|i: int|
            0 <= i < networks.len() ==> !((#[trigger] networks[i]).ssid matches Some(s) && s@.len()
                > 0),
        diagnostic_of(networks, auth) is Some && !(auth is Authorized) ==> diagnostic_of(
            networks,
            auth,
        ) == location::hint_of(auth),
        diagnostic_of(networks, auth) is Some && auth is Authorized ==> diagnostic_of(
            networks,
            auth,
        ) == Some(
            "SSIDs redacted despite Location auth — run via bundled .app (scripts/bundle.sh) so TCC matches this binary"@,
        ),
{
    if all_blank(networks) {
        assert forall|i: int| 0 <= i < networks.len() implies !((
        #[trigger] networks[i]).ssid matches Some(s) && s@.len() > 0) by {
            assert(networks[i].is_blank());
        }
    } else if networks.len() > 0 {
        let i = choose|i: int| 0 <= i < networks.len() && !(#[trigger] networks[i]).is_blank();
        assert(networks[i].ssid matches Some(s) && s@.len() > 0);
    }
}

/// Blank names are counted one by one: a network adds one exactly where it has
/// no name, or an empty one.
pub proof fn blank_names_are_counted(networks: Seq<ScannedNetwork>, n: ScannedNetwork)
    ensures
        blank_count(Seq::<ScannedNetwork>::empty()) == 0,
        blank_count(networks.push(n)) == blank_count(networks) + if (n.ssid matches Some(s)
            && s@.len() > 0) {
            0nat
        } else {
            1nat
        },
        blank_count(networks) <= networks.len(),
    decreases networks.len(),
{
    assert(networks.push(n).drop_last() =~= networks);
    if networks.len() > 0 {
        blank_names_are_counted(networks.drop_last(), networks.last());
        assert(networks.drop_last().push(networks.last()) =~= networks);
    }
}

/// A scan that failed has found nothing, and any other has found what it
/// reports.
pub proof fn a_failed_scan_has_found_nothing(networks: Vec<ScannedNetwork>, error: String)
    ensures
        found_in(Ok(networks)) == Some(networks@),
        found_in(Err(error)) is None,
{
}

} // verus!
