//! The daemon: who is connected, who waits for what, and who is told.
//!
//! The [`Hub`] decides; sockets, threads and clocks stay with its caller,
//! which hands in what arrived and sends out the deliveries that it gets back.

use std::sync::Arc;

use vstd::prelude::*;

use crate::corewlan::{self, ScannedNetwork};
use crate::event::{Event, EventView};
use crate::ipc::{ClientRequest, ServerEvent};
use crate::location::LocationAuth;
use crate::scan::{
    self, CoordinatorView, DecisionView, ScanCoordinator, ScanDecision, ScanPurpose, ScanWaiter,
};
use crate::text;
use crate::time::{self, Duration, Instant};
use crate::worker::{
    self, JoinKind, LocalWifiHandle, Origin, Queued, Request, ScanTimings, WorkerCommand,
    WorkerEvent,
};

verus! {

/// Where an event of the worker goes.
#[derive(Clone, Copy, Debug, PartialEq, Eq, Structural)]
pub enum Fanout {
    /// Only to the client whose request produced it.
    Direct,
    /// To every client: it tells of the machine, not of a request.
    Global,
}

/// The reach of an event.
pub open spec fn reach(event: EventView) -> Fanout {
    match event {
        EventView::State(_) => Fanout::Global,
        EventView::PreferredResult(_) => Fanout::Global,
        _ => Fanout::Direct,
    }
}

pub fn fanout_of(event: &Event) -> (r: Fanout)
    ensures
        r == reach(event@),
{
    match event {
        Event::State(_) => Fanout::Global,
        Event::PreferredResult(_) => Fanout::Global,
        _ => Fanout::Direct,
    }
}

/// A message on its way to one client.
#[derive(Debug)]
pub struct Delivery {
    pub client_id: u64,
    pub message: ServerEvent,
}

/// A delivery, with its event as a mathematical value.
#[verifier::ext_equal]
pub struct DeliveryView {
    pub client_id: u64,
    pub request_id: Option<u64>,
    pub event: EventView,
}

impl View for Delivery {
    type V = DeliveryView;

    open spec fn view(&self) -> DeliveryView {
        DeliveryView {
            client_id: self.client_id,
            request_id: self.message.request_id,
            event: self.message.event@,
        }
    }
}

/// The deliveries of a list.
pub open spec fn delivery_views(v: Seq<Delivery>) -> Seq<DeliveryView> {
    Seq::new(v.len(), |i: int| v[i]@)
}

/// The id under which `client_id` sees an event that answers `origin`: only
/// the client that asked sees the id of its request.
pub open spec fn correlation(origin: Option<Origin>, client_id: u64) -> Option<u64> {
    match origin {
        Some(o) => if o.client_id == client_id {
            Some(o.request_id)
        } else {
            None
        },
        None => None,
    }
}

/// The deliveries of one event. A direct event with an origin goes to the
/// client that asked, if it is still there; any other event to everyone.
pub open spec fn routed(
    clients: Seq<u64>,
    origin: Option<Origin>,
    event: EventView,
) -> Seq<DeliveryView> {
    match origin {
        Some(o) => if reach(event) == Fanout::Direct {
            if clients.contains(o.client_id) {
                seq![
                    DeliveryView {
                        client_id: o.client_id,
                        request_id: Some(o.request_id),
                        event,
                    },
                ]
            } else {
                seq![]
            }
        } else {
            broadcast(clients, origin, event)
        },
        None => broadcast(clients, origin, event),
    }
}

/// The event, delivered to every client.
pub open spec fn broadcast(
    clients: Seq<u64>,
    origin: Option<Origin>,
    event: EventView,
) -> Seq<DeliveryView> {
    Seq::new(
        clients.len(),
        |i: int|
            DeliveryView {
                client_id: clients[i],
                request_id: correlation(origin, clients[i]),
                event,
            },
    )
}

/// The deliveries of several events to one origin, in order.
pub open spec fn routed_all(
    clients: Seq<u64>,
    origin: Option<Origin>,
    events: Seq<EventView>,
) -> Seq<DeliveryView>
    decreases events.len(),
{
    if events.len() == 0 {
        seq![]
    } else {
        routed_all(clients, origin, events.drop_last()) + routed(clients, origin, events.last())
    }
}

/// The origin that a waiter stands for.
pub open spec fn origin_of(waiter: ScanWaiter) -> Option<Origin> {
    Some(Origin { client_id: waiter.client_id, request_id: waiter.request_id })
}

/// What a client is told of a scan result: the networks, and the diagnostic
/// where every name is blank.
pub open spec fn served(networks: Seq<ScannedNetwork>, auth: LocationAuth) -> Seq<EventView> {
    match scan::diagnostic_of(networks, auth) {
        Some(d) => seq![EventView::ScanResult(networks), EventView::Error(d)],
        None => seq![EventView::ScanResult(networks)],
    }
}

/// The command that carries a request of a client to the worker.
pub open spec fn forwarded(client_id: u64, message: ClientRequest) -> WorkerCommand {
    WorkerCommand::Request {
        origin: Some(Origin { client_id, request_id: message.id }),
        request: message.request,
    }
}

/// What a client is sent at once when it asks for a scan.
pub open spec fn admitted(
    clients: Seq<u64>,
    waiter: ScanWaiter,
    decision: DecisionView,
    auth: LocationAuth,
) -> Seq<DeliveryView> {
    routed(clients, origin_of(waiter), EventView::ScanStarted) + match decision {
        DecisionView::Cached(networks) => routed_all(
            clients,
            origin_of(waiter),
            served(networks, auth),
        ),
        _ => seq![],
    }
}

/// The commands that a decision about a scan puts into the queue.
pub open spec fn commanded(decision: DecisionView) -> Seq<WorkerCommand> {
    match decision {
        DecisionView::Start { operation_id } => seq![
            WorkerCommand::Scan { operation_id: operation_id as u64 },
        ],
        _ => seq![],
    }
}

/// The commands of a queue.
pub open spec fn commands(queue: Seq<Queued>) -> Seq<WorkerCommand> {
    queue.map_values(|q: Queued| q.command)
}

/// What every waiter is told when a scan is over.
pub open spec fn completed(
    result: Result<Vec<ScannedNetwork>, String>,
    auth: LocationAuth,
) -> Seq<EventView> {
    match result {
        Ok(networks) => served(networks@, auth),
        Err(e) => seq![EventView::ScanFailed(e@)],
    }
}

/// The same events to every waiter, each under its own request.
pub open spec fn to_waiters(
    clients: Seq<u64>,
    waiters: Seq<ScanWaiter>,
    events: Seq<EventView>,
) -> Seq<DeliveryView>
    decreases waiters.len(),
{
    if waiters.len() == 0 {
        seq![]
    } else {
        to_waiters(clients, waiters.drop_last(), events) + routed_all(
            clients,
            origin_of(waiters.last()),
            events,
        )
    }
}

/// A check of a join that is due one interval after `since`.
#[derive(Debug)]
pub struct Timer {
    pub since: Instant,
    pub command: WorkerCommand,
}

/// The interval of a check that was asked for at `since` is over.
pub open spec fn check_is_due(since: Instant, now: Instant) -> bool {
    time::nanos_between(now, since) >= worker::VERIFY_INTERVAL_MILLIS * time::NANOS_PER_MILLI
}

/// The state of the daemon.
#[derive(Debug)]
pub struct Hub {
    /// The connected clients, in the order of their arrival.
    pub clients: Vec<u64>,
    pub coordinator: ScanCoordinator,
    pub wifi: LocalWifiHandle,
    /// Checks that wait outside the worker, so that they hold up nothing.
    pub timers: Vec<Timer>,
    pub next_client_id: u64,
}

/// The clients other than `client_id`, in order.
pub open spec fn without(clients: Seq<u64>, client_id: u64) -> Seq<u64>
    decreases clients.len(),
{
    if clients.len() == 0 {
        clients
    } else if clients.last() == client_id {
        without(clients.drop_last(), client_id)
    } else {
        without(clients.drop_last(), client_id).push(clients.last())
    }
}

proof fn lemma_without(clients: Seq<u64>, client_id: u64)
    ensures
        !without(clients, client_id).contains(client_id),
        forall|c: u64|
            c != client_id ==> (#[trigger] without(clients, client_id).contains(c)
                <==> clients.contains(c)),
        clients.no_duplicates() ==> without(clients, client_id).no_duplicates(),
        without(clients, client_id).len() <= clients.len(),
    decreases clients.len(),
{
    if clients.len() > 0 {
        let init = clients.drop_last();
        let last = clients.last();
        lemma_without(init, client_id);
        assert(clients =~= init.push(last));
        assert forall|c: u64| clients.contains(c) <==> (init.contains(c) || c == last) by {
            if init.contains(c) {
                let k = choose|k: int| 0 <= k < init.len() && init[k] == c;
                assert(clients[k] == c);
            }
            if c == last {
                assert(clients[clients.len() - 1] == c);
            }
            if clients.contains(c) && c != last {
                let k = choose|k: int| 0 <= k < clients.len() && clients[k] == c;
                assert(init[k] == c);
            }
        }
        if last != client_id {
            let w = without(init, client_id);
            let r = without(clients, client_id);
            assert(r == w.push(last));
            assert forall|c: u64| r.contains(c) <==> (w.contains(c) || c == last) by {
                if w.contains(c) {
                    let k = choose|k: int| 0 <= k < w.len() && w[k] == c;
                    assert(r[k] == c);
                }
                if c == last {
                    assert(r[r.len() - 1] == c);
                }
                if r.contains(c) && c != last {
                    let k = choose|k: int| 0 <= k < r.len() && r[k] == c;
                    assert(w[k] == c);
                }
            }
            if clients.no_duplicates() {
                assert(init.no_duplicates());
                assert(!init.contains(last)) by {
                    if init.contains(last) {
                        let k = choose|k: int| 0 <= k < init.len() && init[k] == last;
                        assert(clients[k] == clients[clients.len() - 1]);
                    }
                }
                assert(!w.contains(last));
                assert forall|a: int, b: int|
                    0 <= a < r.len() && 0 <= b < r.len() && a != b implies r[a] != r[b] by {
                    if a < w.len() && b < w.len() {
                        assert(w[a] != w[b]);
                    } else if a < w.len() {
                        assert(w.contains(w[a]));
                    } else {
                        assert(w.contains(w[b]));
                    }
                }
            }
        } else {
            if clients.no_duplicates() {
                assert(init.no_duplicates());
            }
        }
    }
}

fn holds(clients: &Vec<u64>, client_id: u64) -> (r: bool)
    ensures
        r == clients@.contains(client_id),
{
    let mut i: usize = 0;
    while i < clients.len()
        invariant
            i <= clients@.len(),
            forall|k: int| 0 <= k < i ==> clients@[k] != client_id,
        decreases clients@.len() - i,
    {
        if clients[i] == client_id {
            assert(clients@[i as int] == client_id);
            return true;
        }
        i += 1;
    }
    false
}

fn removed(clients: &Vec<u64>, client_id: u64) -> (r: Vec<u64>)
    ensures
        r@ == without(clients@, client_id),
{
    let mut kept: Vec<u64> = Vec::new();
    let mut i: usize = 0;
    assert(clients@.take(0) =~= Seq::<u64>::empty());
    while i < clients.len()
        invariant
            i <= clients@.len(),
            kept@ == without(clients@.take(i as int), client_id),
        decreases clients@.len() - i,
    {
        let c: u64 = clients[i];
        assert(clients@.take(i + 1).drop_last() =~= clients@.take(i as int));
        if c != client_id {
            kept.push(c);
        }
        i += 1;
    }
    assert(clients@.take(clients@.len() as int) =~= clients@);
    kept
}

/// The deliveries of one event.
pub fn route(clients: &Vec<u64>, origin: Option<Origin>, event: &Event) -> (r: Vec<Delivery>)
    ensures
        delivery_views(r@) == routed(clients@, origin, event@),
{
    let mut out: Vec<Delivery> = Vec::new();
    if let Some(o) = origin {
        if matches!(fanout_of(event), Fanout::Direct) {
            if holds(clients, o.client_id) {
                out.push(
                    Delivery {
                        client_id: o.client_id,
                        message: ServerEvent {
                            request_id: Some(o.request_id),
                            event: event.clone(),
                        },
                    },
                );
            }
            assert(delivery_views(out@) =~= routed(clients@, origin, event@));
            return out;
        }
    }
    let ghost goal = broadcast(clients@, origin, event@);
    let mut i: usize = 0;
    while i < clients.len()
        invariant
            i <= clients@.len(),
            out@.len() == i,
            goal == broadcast(clients@, origin, event@),
            forall|k: int| 0 <= k < i ==> (#[trigger] out@[k])@ == goal[k],
        decreases clients@.len() - i,
    {
        let id: u64 = clients[i];
        let request_id = match origin {
            Some(o) => if o.client_id == id {
                Some(o.request_id)
            } else {
                None
            },
            None => None,
        };
        out.push(
            Delivery { client_id: id, message: ServerEvent { request_id, event: event.clone() } },
        );
        i += 1;
    }
    assert(delivery_views(out@) =~= goal);
    out
}

/// Appends deliveries.
fn join(into: &mut Vec<Delivery>, more: Vec<Delivery>)
    ensures
        delivery_views(final(into)@) == delivery_views(old(into)@) + delivery_views(more@),
{
    let mut more = more;
    let ghost m = more@;
    into.append(&mut more);
    assert(delivery_views(into@) =~= delivery_views(old(into)@) + delivery_views(m));
}

/// A process of this user is let in.
pub open spec fn lets_in(peer_uid: u32, own_uid: u32) -> bool {
    peer_uid == own_uid
}

/// Whether a connection is accepted: only from a process of the same user.
pub fn check_peer(peer_uid: u32, own_uid: u32) -> (r: Result<(), String>)
    ensures
        r is Ok <==> lets_in(peer_uid, own_uid),
        match r {
            Ok(_) => peer_uid == own_uid,
            Err(e) => peer_uid != own_uid && e@ == "peer uid mismatch — refusing connection"@,
        },
{
    if peer_uid == own_uid {
        Ok(())
    } else {
        Err("peer uid mismatch — refusing connection".to_owned())
    }
}

impl Hub {
    /// Clients are known once, under ids that were handed out.
    pub open spec fn valid(&self) -> bool {
        &&& self.coordinator.valid()
        &&& self.clients@.no_duplicates()
        &&& forall|i: int| 0 <= i < self.clients@.len() ==> self.clients@[i] < self.next_client_id
    }

    pub fn new() -> (r: Self)
        ensures
            r.valid(),
            r.clients@ == Seq::<u64>::empty(),
            r.coordinator.in_flight is None,
            r.coordinator.last_success is None,
            r.coordinator.waiters@ == Seq::<ScanWaiter>::empty(),
            r.coordinator.next_operation_id == 1,
            r.coordinator.lifetime.nanos == scan::CACHE_LIFETIME_SECS * time::NANOS_PER_SEC,
            r.wifi.queue@ == Seq::<Queued>::empty(),
            r.timers@ == Seq::<Timer>::empty(),
            r.next_client_id == 1,
    {
        Hub {
            clients: Vec::new(),
            coordinator: ScanCoordinator::default(),
            wifi: LocalWifiHandle::new(),
            timers: Vec::new(),
            next_client_id: 1,
        }
    }

    /// Admits a client that has completed its greeting, under a new id.
    pub fn client_connected(&mut self) -> (id: u64)
        requires
            old(self).valid(),
            old(self).next_client_id < u64::MAX,
        ensures
            final(self).valid(),
            id == old(self).next_client_id,
            !old(self).clients@.contains(id),
            final(self).clients@ == old(self).clients@.push(id),
            final(self).next_client_id == old(self).next_client_id + 1,
            final(self).coordinator == old(self).coordinator,
            final(self).wifi == old(self).wifi,
            final(self).timers == old(self).timers,
    {
        let id: u64 = self.next_client_id;
        self.next_client_id = id + 1;
        self.clients.push(id);
        id
    }

    /// Forgets a client whose connection has ended, with all that it waits
    /// for.
    pub fn client_disconnected(&mut self, client_id: u64)
        requires
            old(self).valid(),
        ensures
            final(self).valid(),
            final(self).clients@ == without(old(self).clients@, client_id),
            final(self).coordinator@ == old(self).coordinator@.forgotten(client_id),
            final(self).wifi == old(self).wifi,
            final(self).timers == old(self).timers,
            final(self).next_client_id == old(self).next_client_id,
    {
        proof {
            lemma_without(self.clients@, client_id);
        }
        let ghost before = self.clients@;
        self.clients = removed(&self.clients, client_id);
        self.coordinator.forget_client(client_id);
        assert forall|i: int| 0 <= i < self.clients@.len() implies self.clients@[i]
            < self.next_client_id by {
            assert(self.clients@.contains(self.clients@[i]));
            assert(before.contains(self.clients@[i]));
        }
    }

    /// Takes a client that could not be reached off the list. What it waits
    /// for stays until its connection ends.
    pub fn delivery_failed(&mut self, client_id: u64)
        requires
            old(self).valid(),
        ensures
            final(self).valid(),
            final(self).clients@ == without(old(self).clients@, client_id),
            final(self).coordinator == old(self).coordinator,
            final(self).wifi == old(self).wifi,
            final(self).timers == old(self).timers,
            final(self).next_client_id == old(self).next_client_id,
    {
        proof {
            lemma_without(self.clients@, client_id);
        }
        let ghost before = self.clients@;
        self.clients = removed(&self.clients, client_id);
        assert forall|i: int| 0 <= i < self.clients@.len() implies self.clients@[i]
            < self.next_client_id by {
            assert(self.clients@.contains(self.clients@[i]));
            assert(before.contains(self.clients@[i]));
        }
    }

    /// The deliveries of a scan result to one waiter.
    pub fn deliver_scan(
        &self,
        waiter: ScanWaiter,
        networks: &Arc<Vec<ScannedNetwork>>,
        auth: LocationAuth,
    ) -> (r: Vec<Delivery>)
        ensures
            delivery_views(r@) == routed_all(
                self.clients@,
                origin_of(waiter),
                served(networks@, auth),
            ),
    {
        reveal_with_fuel(routed_all, 3);
        let origin = Some(
            Origin { client_id: waiter.client_id, request_id: waiter.request_id },
        );
        let diagnostic = scan::redaction_diagnostic(networks.as_slice(), auth);
        let mut out = route(
            &self.clients,
            origin,
            &Event::ScanResult(corewlan::copy_networks(networks)),
        );
        let ghost first = EventView::ScanResult(networks@);
        assert(seq![first].drop_last() =~= Seq::<EventView>::empty());
        assert(routed_all(self.clients@, origin, seq![first]) =~= routed(
            self.clients@,
            origin,
            first,
        ));
        if let Some(d) = diagnostic {
            let ghost second = EventView::Error(d@);
            let more = route(&self.clients, origin, &Event::Error(d));
            join(&mut out, more);
            assert(seq![first, second].drop_last() =~= seq![first]);
        }
        out
    }

    /// Admits one request to scan. The client is told first that a scan has
    /// started; a fresh result follows at once, and otherwise the result of
    /// the scan that runs or is started now.
    pub fn scan_requested(&mut self, waiter: ScanWaiter, now: Instant, auth: LocationAuth) -> (r:
        Vec<Delivery>)
        requires
            old(self).valid(),
            old(self).coordinator@.decision(now) is Start
                ==> old(self).coordinator.next_operation_id < u64::MAX,
        ensures
            final(self).valid(),
            final(self).coordinator@ == old(self).coordinator@.requested(waiter, now),
            delivery_views(r@) == admitted(
                old(self).clients@,
                waiter,
                old(self).coordinator@.decision(now),
                auth,
            ),
            commands(final(self).wifi.queue@) == commands(old(self).wifi.queue@) + commanded(
                old(self).coordinator@.decision(now),
            ),
            delivery_views(r@) == routed(
                old(self).clients@,
                origin_of(waiter),
                EventView::ScanStarted,
            ) + match old(self).coordinator@.decision(now) {
                DecisionView::Cached(networks) => routed_all(
                    old(self).clients@,
                    origin_of(waiter),
                    served(networks, auth),
                ),
                _ => seq![],
            },
            final(self).wifi.queue@ == match old(self).coordinator@.decision(now) {
                DecisionView::Start { operation_id } => old(self).wifi.queue@.push(
                    Queued {
                        command: WorkerCommand::Scan { operation_id: operation_id as u64 },
                        enqueued: now,
                    },
                ),
                _ => old(self).wifi.queue@,
            },
            final(self).clients == old(self).clients,
            final(self).timers == old(self).timers,
            final(self).next_client_id == old(self).next_client_id,
    {
        let origin = Some(
            Origin { client_id: waiter.client_id, request_id: waiter.request_id },
        );
        let decision = self.coordinator.request(waiter, now);
        let mut out = route(&self.clients, origin, &Event::ScanStarted);
        let ghost started = delivery_views(out@);
        match decision {
            ScanDecision::Cached(networks) => {
                let more = self.deliver_scan(waiter, &networks, auth);
                join(&mut out, more);
            },
            ScanDecision::Coalesced => {
                assert(started + Seq::<DeliveryView>::empty() =~= started);
            },
            ScanDecision::Start { operation_id } => {
                self.wifi.send_command(WorkerCommand::Scan { operation_id }, now);
                assert(started + Seq::<DeliveryView>::empty() =~= started);
            },
        }
        assert(commands(self.wifi.queue@) =~= commands(old(self).wifi.queue@) + commanded(
            old(self).coordinator@.decision(now),
        ));
        out
    }

    /// Hands a finished scan to everyone who waited for it. The result of a
    /// scan that has been replaced goes to nobody.
    pub fn scan_finished(
        &mut self,
        operation_id: u64,
        result: Result<Vec<ScannedNetwork>, String>,
        now: Instant,
        auth: LocationAuth,
    ) -> (r: Vec<Delivery>)
        requires
            old(self).valid(),
        ensures
            final(self).valid(),
            final(self).coordinator@ == old(self).coordinator@.finished(
                operation_id,
                scan::found_in(result),
                now,
            ),
            delivery_views(r@) == if old(self).coordinator.running(operation_id) {
                to_waiters(
                    old(self).clients@,
                    old(self).coordinator.waiters@,
                    completed(result, auth),
                )
            } else {
                seq![]
            },
            final(self).clients == old(self).clients,
            final(self).wifi == old(self).wifi,
            final(self).timers == old(self).timers,
            final(self).next_client_id == old(self).next_client_id,
    {
        let mut out: Vec<Delivery> = Vec::new();
        assert(delivery_views(out@) =~= seq![]);
        let finished = self.coordinator.finish(operation_id, result, now);
        if let Some(completion) = finished {
            let waiters = completion.waiters;
            let ghost events = completed(result, auth);
            let mut i: usize = 0;
            assert(waiters@.take(0) =~= Seq::<ScanWaiter>::empty());
            match completion.result {
                Ok(networks) => {
                    while i < waiters.len()
                        invariant
                            i <= waiters@.len(),
                            events == served(networks@, auth),
                            delivery_views(out@) == to_waiters(
                                self.clients@,
                                waiters@.take(i as int),
                                events,
                            ),
                        decreases waiters@.len() - i,
                    {
                        let more = self.deliver_scan(waiters[i], &networks, auth);
                        join(&mut out, more);
                        assert(waiters@.take(i + 1).drop_last() =~= waiters@.take(i as int));
                        i += 1;
                    }
                },
                Err(e) => {
                    let event = Event::ScanFailed(e);
                    while i < waiters.len()
                        invariant
                            i <= waiters@.len(),
                            events == seq![event@],
                            delivery_views(out@) == to_waiters(
                                self.clients@,
                                waiters@.take(i as int),
                                events,
                            ),
                        decreases waiters@.len() - i,
                    {
                        let w = waiters[i];
                        let origin = Some(
                            Origin { client_id: w.client_id, request_id: w.request_id },
                        );
                        let more = route(&self.clients, origin, &event);
                        proof {
                            reveal_with_fuel(routed_all, 2);
                            assert(events.drop_last() =~= Seq::<EventView>::empty());
                            assert(routed_all(self.clients@, origin, events) =~= routed(
                                self.clients@,
                                origin,
                                event@,
                            ));
                        }
                        join(&mut out, more);
                        assert(waiters@.take(i + 1).drop_last() =~= waiters@.take(i as int));
                        i += 1;
                    }
                },
            }
            assert(waiters@.take(waiters@.len() as int) =~= waiters@);
        }
        out
    }

    /// Lets a check of a join wait for one interval. The wait is outside the
    /// worker, and goes on even where the client has left.
    pub fn schedule_verify(
        &mut self,
        origin: Option<Origin>,
        ssid: String,
        kind: JoinKind,
        attempts_remaining: u8,
        now: Instant,
    )
        ensures
            final(self).timers@ == old(self).timers@.push(
                Timer {
                    since: now,
                    command: WorkerCommand::VerifyJoin { origin, ssid, kind, attempts_remaining },
                },
            ),
            final(self).clients == old(self).clients,
            final(self).coordinator == old(self).coordinator,
            final(self).wifi == old(self).wifi,
            final(self).next_client_id == old(self).next_client_id,
    {
        self.timers.push(
            Timer {
                since: now,
                command: WorkerCommand::VerifyJoin { origin, ssid, kind, attempts_remaining },
            },
        );
    }

    /// Hands the oldest check to the worker if its interval is over. True: one
    /// was handed over, and there may be more.
    pub fn timer_due(&mut self, now: Instant) -> (fired: bool)
        requires
            old(self).valid(),
        ensures
            final(self).valid(),
            final(self).clients == old(self).clients,
            final(self).coordinator == old(self).coordinator,
            final(self).next_client_id == old(self).next_client_id,
            fired == (old(self).timers@.len() > 0 && check_is_due(
                old(self).timers@[0].since,
                now,
            )),
            fired == (old(self).timers@.len() > 0 && time::nanos_between(
                now,
                old(self).timers@[0].since,
            ) >= worker::VERIFY_INTERVAL_MILLIS * time::NANOS_PER_MILLI),
            !fired ==> final(self).timers@ == old(self).timers@ && final(self).wifi == old(
                self,
            ).wifi,
            fired ==> final(self).timers@ == old(self).timers@.skip(1) && final(self).wifi.queue@
                == old(self).wifi.queue@.push(
                Queued { command: old(self).timers@[0].command, enqueued: now },
            ),
    {
        if self.timers.len() == 0 {
            return false;
        }
        let waited = now.duration_since(self.timers[0].since);
        if waited.nanos < worker::verify_interval().nanos {
            return false;
        }
        let timer = self.timers.remove(0);
        assert(self.timers@ =~= old(self).timers@.skip(1));
        self.wifi.send_command(timer.command, now);
        true
    }

    /// Takes a request of a client. A scan is admitted here; everything else
    /// goes to the worker.
    pub fn request_received(
        &mut self,
        client_id: u64,
        message: ClientRequest,
        now: Instant,
        auth: LocationAuth,
    ) -> (r: Vec<Delivery>)
        requires
            old(self).valid(),
            message.request is Scan && old(self).coordinator@.decision(now) is Start
                ==> old(self).coordinator.next_operation_id < u64::MAX,
        ensures
            final(self).valid(),
            final(self).clients == old(self).clients,
            final(self).timers == old(self).timers,
            final(self).next_client_id == old(self).next_client_id,
            message.request is Scan ==> delivery_views(r@) == admitted(
                old(self).clients@,
                ScanWaiter { client_id, request_id: message.id, purpose: ScanPurpose::Scan },
                old(self).coordinator@.decision(now),
                auth,
            ) && commands(final(self).wifi.queue@) == commands(old(self).wifi.queue@) + commanded(
                old(self).coordinator@.decision(now),
            ),
            message.request is Scan ==> ({
                let waiter = ScanWaiter {
                    client_id,
                    request_id: message.id,
                    purpose: ScanPurpose::Scan,
                };
                &&& final(self).coordinator@ == old(self).coordinator@.requested(waiter, now)
                &&& delivery_views(r@) == routed(
                    old(self).clients@,
                    origin_of(waiter),
                    EventView::ScanStarted,
                ) + match old(self).coordinator@.decision(now) {
                    DecisionView::Cached(networks) => routed_all(
                        old(self).clients@,
                        origin_of(waiter),
                        served(networks, auth),
                    ),
                    _ => seq![],
                }
                &&& final(self).wifi.queue@ == match old(self).coordinator@.decision(now) {
                    DecisionView::Start { operation_id } => old(self).wifi.queue@.push(
                        Queued {
                            command: WorkerCommand::Scan { operation_id: operation_id as u64 },
                            enqueued: now,
                        },
                    ),
                    _ => old(self).wifi.queue@,
                }
            }),
            !(message.request is Scan) ==> final(self).wifi.queue@.last().command == forwarded(
                client_id,
                message,
            ),
            !(message.request is Scan) ==> {
                &&& r@.len() == 0
                &&& final(self).coordinator == old(self).coordinator
                &&& final(self).wifi.queue@ == old(self).wifi.queue@.push(
                    Queued {
                        command: WorkerCommand::Request {
                            origin: Some(Origin { client_id, request_id: message.id }),
                            request: message.request,
                        },
                        enqueued: now,
                    },
                )
            },
    {
        let ClientRequest { id, request } = message;
        match request {
            Request::Scan => self.scan_requested(
                ScanWaiter { client_id, request_id: id, purpose: ScanPurpose::Scan },
                now,
                auth,
            ),
            other => {
                self.wifi.send_command(
                    WorkerCommand::Request {
                        origin: Some(Origin { client_id, request_id: id }),
                        request: other,
                    },
                    now,
                );
                Vec::new()
            },
        }
    }

    /// Takes a report of the worker.
    pub fn worker_reported(
        &mut self,
        report: WorkerEvent,
        now: Instant,
        auth: LocationAuth,
    ) -> (r: Vec<Delivery>)
        requires
            old(self).valid(),
        ensures
            final(self).valid(),
            final(self).clients == old(self).clients,
            final(self).wifi == old(self).wifi,
            final(self).next_client_id == old(self).next_client_id,
            match report {
                WorkerEvent::Emit { origin, event } => {
                    &&& delivery_views(r@) == routed(old(self).clients@, origin, event@)
                    &&& final(self).coordinator == old(self).coordinator
                    &&& final(self).timers == old(self).timers
                },
                WorkerEvent::ScanFinished { operation_id, result, timings } => {
                    &&& delivery_views(r@) == if old(self).coordinator.running(operation_id) {
                        to_waiters(
                            old(self).clients@,
                            old(self).coordinator.waiters@,
                            completed(result, auth),
                        )
                    } else {
                        seq![]
                    }
                    &&& final(self).coordinator@ == old(self).coordinator@.finished(
                        operation_id,
                        scan::found_in(result),
                        now,
                    )
                    &&& final(self).timers == old(self).timers
                },
                WorkerEvent::ScheduleVerify { origin, ssid, kind, attempts_remaining } => {
                    &&& r@.len() == 0
                    &&& final(self).coordinator == old(self).coordinator
                    &&& final(self).timers@ == old(self).timers@.push(
                        Timer {
                            since: now,
                            command: WorkerCommand::VerifyJoin {
                                origin,
                                ssid,
                                kind,
                                attempts_remaining,
                            },
                        },
                    )
                },
            },
    {
        match report {
            WorkerEvent::Emit { origin, event } => route(&self.clients, origin, &event),
            WorkerEvent::ScanFinished { operation_id, result, timings: _ } => self.scan_finished(
                operation_id,
                result,
                now,
                auth,
            ),
            WorkerEvent::ScheduleVerify { origin, ssid, kind, attempts_remaining } => {
                self.schedule_verify(origin, ssid, kind, attempts_remaining, now);
                Vec::new()
            },
        }
    }
}

// ---------------------------------------------------------------------------
// What the log says of scans.
// ---------------------------------------------------------------------------

/// The line that records how a request to scan was admitted and, where a
/// result was at hand, how long it took to serve it.
pub open spec fn admission_line(
    waiter: ScanWaiter,
    decision: DecisionView,
    total: Duration,
) -> Seq<char> {
    "scan client="@ + text::decimal(waiter.client_id as nat) + " request_id="@ + text::decimal(
        waiter.request_id as nat,
    ) + match decision {
        DecisionView::Cached(networks) => " cache=hit coalesced=false total_ms="@ + text::decimal(
            (total.nanos / time::NANOS_PER_MILLI) as nat,
        ) + " networks="@ + text::decimal(networks.len()) + " blank_ssids="@ + text::decimal(
            scan::blank_count(networks),
        ) + " waiters=1 outcome=ok"@,
        DecisionView::Coalesced => " cache=miss coalesced=true — joined running scan"@,
        DecisionView::Start { operation_id } => " cache=miss coalesced=false operation="@
            + text::decimal(operation_id) + " — starting physical scan"@,
    }
}

/// The line that records how a request to scan was admitted.
pub fn log_admission(waiter: ScanWaiter, decision: &ScanDecision, total: Duration) -> (r: String)
    ensures
        r@ == admission_line(waiter, decision@, total),
{
    let client = text::decimal_text(waiter.client_id as u128);
    let request = text::decimal_text(waiter.request_id as u128);
    let mut rest;
    match decision {
        ScanDecision::Cached(networks) => {
            rest = " cache=hit coalesced=false total_ms=".to_owned();
            rest.append(text::decimal_text(total.as_millis()).as_str());
            rest.append(" networks=");
            rest.append(text::decimal_text(networks.len() as u128).as_str());
            rest.append(" blank_ssids=");
            let blank = scan::blank_ssids(networks.as_slice());
            rest.append(text::decimal_text(blank as u128).as_str());
            rest.append(" waiters=1 outcome=ok");
        },
        ScanDecision::Coalesced => {
            rest = " cache=miss coalesced=true — joined running scan".to_owned();
        },
        ScanDecision::Start { operation_id } => {
            rest = " cache=miss coalesced=false operation=".to_owned();
            rest.append(text::decimal_text(*operation_id as u128).as_str());
            rest.append(" — starting physical scan");
        },
    }
    text::cat5("scan client=", client.as_str(), " request_id=", request.as_str(), rest.as_str())
}

/// The lines that record a finished operation: the scan and the time that it
/// took the coordinator, or that the operation had been replaced.
pub open spec fn completion_lines(
    coordinator: CoordinatorView,
    operation_id: u64,
    found: Option<Seq<ScannedNetwork>>,
    timings: ScanTimings,
    now: Instant,
) -> Seq<Seq<char>> {
    let operation = "scan operation="@ + text::decimal(operation_id as nat);
    if coordinator.running(operation_id) {
        let elapsed = time::nanos_between(now, coordinator.in_flight->0.started_at);
        seq![
            worker::scan_line(timings, found, coordinator.waiters.len()),
            operation + " coordinator_ms="@ + text::decimal(
                (elapsed / time::NANOS_PER_MILLI as int) as nat,
            ) + " waiters="@ + text::decimal(coordinator.waiters.len()),
        ]
    } else {
        seq![operation + " was superseded — dropping its result"@]
    }
}

impl Hub {
    /// How a message would be admitted now: who waits, and what is decided,
    /// where the message asks for a scan.
    pub fn admission(&self, client_id: u64, message: &ClientRequest, now: Instant) -> (r: Option<
        (ScanWaiter, ScanDecision),
    >)
        ensures
            r is Some <==> message.request is Scan,
            r matches Some((waiter, decision)) ==> waiter == (ScanWaiter {
                client_id,
                request_id: message.id,
                purpose: ScanPurpose::Scan,
            }) && decision@ == self.coordinator@.decision(now),
    {
        match &message.request {
            Request::Scan => Some(
                (
                    ScanWaiter { client_id, request_id: message.id, purpose: ScanPurpose::Scan },
                    self.coordinator.decide(now),
                ),
            ),
            _ => None,
        }
    }

    /// The lines that record a finished operation, from the state before it is
    /// taken.
    pub fn log_completion(
        &self,
        operation_id: u64,
        result: &Result<Vec<ScannedNetwork>, String>,
        timings: ScanTimings,
        now: Instant,
    ) -> (r: Vec<String>)
        requires
            self.coordinator.running(operation_id) ==> timings.queue.nanos
                + timings.corewlan.nanos + timings.postprocess.nanos <= time::MAX_DURATION_NANOS,
        ensures
            text::texts(r@) == completion_lines(
                self.coordinator@,
                operation_id,
                scan::found_in(*result),
                timings,
                now,
            ),
    {
        let mut lines: Vec<String> = Vec::new();
        let operation = text::decimal_text(operation_id as u128);
        let started_at = match &self.coordinator.in_flight {
            Some(f) => {
                if f.operation_id == operation_id {
                    Some(f.started_at)
                } else {
                    None
                }
            },
            None => None,
        };
        match started_at {
            Some(started_at) => {
                let waiters = self.coordinator.waiters.len();
                let outcome: Result<&[ScannedNetwork], &str> = match result {
                    Ok(networks) => Ok(networks.as_slice()),
                    Err(e) => Err(e.as_str()),
                };
                lines.push(worker::log_scan(timings, outcome, waiters));
                let elapsed = text::decimal_text(now.duration_since(started_at).as_millis());
                let count = text::decimal_text(waiters as u128);
                let mut line = "scan operation=".to_owned();
                line.append(operation.as_str());
                line.append(" coordinator_ms=");
                line.append(elapsed.as_str());
                line.append(" waiters=");
                line.append(count.as_str());
                lines.push(line);
            },
            None => {
                lines.push(
                    text::cat3(
                        "scan operation=",
                        operation.as_str(),
                        " was superseded — dropping its result",
                    ),
                );
            },
        }
        assert(text::texts(lines@) =~= completion_lines(
            self.coordinator@,
            operation_id,
            scan::found_in(*result),
            timings,
            now,
        ));
        lines
    }
}

// ---------------------------------------------------------------------------
// Laws.
// ---------------------------------------------------------------------------

/// A direct event reaches the client that asked and nobody else, under the id
/// of its request.
pub proof fn direct_events_reach_only_the_requester(
    clients: Seq<u64>,
    origin: Origin,
    event: EventView,
)
    requires
        reach(event) == Fanout::Direct,
    ensures
        clients.contains(origin.client_id) ==> routed(clients, Some(origin), event) == seq![
            DeliveryView {
                client_id: origin.client_id,
                request_id: Some(origin.request_id),
                event,
            },
        ],
        !clients.contains(origin.client_id) ==> routed(clients, Some(origin), event).len() == 0,
{
}

/// A global event reaches every client, and only the one that asked sees the
/// id of its request.
pub proof fn global_events_reach_everyone(
    clients: Seq<u64>,
    origin: Option<Origin>,
    event: EventView,
)
    requires
        reach(event) == Fanout::Global || origin is None,
    ensures
        routed(clients, origin, event).len() == clients.len(),
        forall|i: int|
            0 <= i < clients.len() ==> {
                let d = #[trigger] routed(clients, origin, event)[i];
                &&& d.client_id == clients[i]
                &&& d.event == event
                &&& d.request_id == correlation(origin, clients[i])
            },
{
}

/// No client ever sees an event under the id of a request that another client
/// made, and nobody is sent anything who is not connected.
pub proof fn answers_are_never_mixed_up(
    clients: Seq<u64>,
    origin: Option<Origin>,
    event: EventView,
    i: int,
)
    requires
        0 <= i < routed(clients, origin, event).len(),
    ensures
        clients.contains(routed(clients, origin, event)[i].client_id),
        routed(clients, origin, event)[i].event == event,
        routed(clients, origin, event)[i].request_id matches Some(id) ==> origin == Some(
            Origin { client_id: routed(clients, origin, event)[i].client_id, request_id: id },
        ),
{
}

/// When a scan is over, every waiter that is still connected is told, under
/// its own request.
pub proof fn every_waiter_is_told(
    clients: Seq<u64>,
    waiters: Seq<ScanWaiter>,
    event: EventView,
    rest: Seq<EventView>,
    k: int,
)
    requires
        0 <= k < waiters.len(),
        clients.contains(waiters[k].client_id),
        reach(event) == Fanout::Direct,
    ensures
        to_waiters(clients, waiters, seq![event] + rest).contains(
            DeliveryView {
                client_id: waiters[k].client_id,
                request_id: Some(waiters[k].request_id),
                event,
            },
        ),
    decreases waiters.len(),
{
    let events = seq![event] + rest;
    let goal = DeliveryView {
        client_id: waiters[k].client_id,
        request_id: Some(waiters[k].request_id),
        event,
    };
    let before = to_waiters(clients, waiters.drop_last(), events);
    let mine = routed_all(clients, origin_of(waiters.last()), events);
    let all = to_waiters(clients, waiters, events);
    if k == waiters.len() - 1 {
        lemma_first_event(clients, origin_of(waiters[k]), event, rest);
        let j = choose|j: int| 0 <= j < mine.len() && mine[j] == goal;
        assert(all[before.len() + j] == goal);
    } else {
        every_waiter_is_told(clients, waiters.drop_last(), event, rest, k);
        let j = choose|j: int| 0 <= j < before.len() && before[j] == goal;
        assert(all[j] == goal);
    }
}

proof fn lemma_first_event(
    clients: Seq<u64>,
    origin: Option<Origin>,
    event: EventView,
    rest: Seq<EventView>,
)
    requires
        origin matches Some(o) && clients.contains(o.client_id),
        reach(event) == Fanout::Direct,
    ensures
        routed_all(clients, origin, seq![event] + rest).contains(
            DeliveryView {
                client_id: origin->0.client_id,
                request_id: Some(origin->0.request_id),
                event,
            },
        ),
    decreases rest.len(),
{
    let events = seq![event] + rest;
    let goal = DeliveryView {
        client_id: origin->0.client_id,
        request_id: Some(origin->0.request_id),
        event,
    };
    let before = routed_all(clients, origin, events.drop_last());
    let last = routed(clients, origin, events.last());
    let all = routed_all(clients, origin, events);
    assert(all == before + last);
    if rest.len() == 0 {
        assert(last[0] == goal);
        assert(all[before.len() as int] == goal);
    } else {
        assert(events.drop_last() =~= seq![event] + rest.drop_last());
        lemma_first_event(clients, origin, event, rest.drop_last());
        let j = choose|j: int| 0 <= j < before.len() && before[j] == goal;
        assert(all[j] == goal);
    }
}

/// A client that has left is told nothing more, and the others are told the
/// same as before.
pub proof fn a_departed_client_is_told_nothing(
    clients: Seq<u64>,
    gone: u64,
    origin: Option<Origin>,
    event: EventView,
    i: int,
)
    requires
        0 <= i < routed(without(clients, gone), origin, event).len(),
    ensures
        routed(without(clients, gone), origin, event)[i].client_id != gone,
        routed(clients, origin, event).contains(
            routed(without(clients, gone), origin, event)[i],
        ),
{
    lemma_without(clients, gone);
    let left = without(clients, gone);
    let d = routed(left, origin, event)[i];
    assert(left.contains(d.client_id)) by {
        answers_are_never_mixed_up(left, origin, event, i);
    }
    assert(clients.contains(d.client_id));
    let k = choose|k: int| 0 <= k < clients.len() && clients[k] == d.client_id;
    let all = routed(clients, origin, event);
    if origin is Some && reach(event) == Fanout::Direct {
        assert(all[0] == d);
    } else {
        assert(all[k] == d);
    }
}

/// While a scan runs, or a fresh result is at hand, a request starts no scan,
/// and so puts nothing into the queue of the worker.
pub proof fn requests_during_a_scan_do_not_reach_the_worker(
    coordinator: scan::CoordinatorView,
    now: Instant,
)
    requires
        coordinator.in_flight is Some || coordinator.fresh(now),
    ensures
        !(coordinator.decision(now) is Start),
{
}

/// Only the state and the known networks concern everyone; anything else is
/// the business of the client that asked.
pub proof fn only_the_state_and_the_known_networks_concern_everyone(event: EventView)
    ensures
        reach(event) is Global <==> event is State || event is PreferredResult,
{
}

/// A client that asks for a scan is told first that it has started, under its
/// own request, and gets the result at once where there is a fresh one. Nobody
/// else is told anything. The worker is sent to work exactly where a new
/// operation starts.
pub proof fn a_scan_is_answered_at_once_where_it_can_be(
    clients: Seq<u64>,
    waiter: ScanWaiter,
    decision: DecisionView,
    auth: LocationAuth,
)
    requires
        clients.contains(waiter.client_id),
    ensures
        ({
            let sent = admitted(clients, waiter, decision, auth);
            let told = |event: EventView|
                DeliveryView {
                    client_id: waiter.client_id,
                    request_id: Some(waiter.request_id),
                    event,
                };
            &&& sent[0] == told(EventView::ScanStarted)
            &&& decision matches DecisionView::Cached(networks) ==> sent.len() >= 2 && sent[1]
                == told(EventView::ScanResult(networks)) && (sent.len() == 2 || sent.len() == 3
                && sent[2].event is Error && sent[2].client_id == waiter.client_id
                && sent[2].request_id == Some(waiter.request_id))
            &&& !(decision is Cached) ==> sent.len() == 1
        }),
        commanded(decision).len() == if decision is Start {
            1
        } else {
            0int
        },
        decision matches DecisionView::Start { operation_id } ==> operation_id <= u64::MAX ==> (
        commanded(decision)[0] matches WorkerCommand::Scan { operation_id: id } && id
            == operation_id),
{
    reveal_with_fuel(routed_all, 3);
    let sent = admitted(clients, waiter, decision, auth);
    if let DecisionView::Cached(networks) = decision {
        let events = served(networks, auth);
        let origin = origin_of(waiter);
        let first = EventView::ScanResult(networks);
        if scan::diagnostic_of(networks, auth) is Some {
            assert(events.drop_last() =~= seq![first]);
            assert(seq![first].drop_last() =~= Seq::<EventView>::empty());
        } else {
            assert(events.drop_last() =~= Seq::<EventView>::empty());
        }
    }
}

/// A result is told together with the reason why its names are missing, where
/// they all are, and a failure is told as one, in its own words.
pub proof fn a_scan_is_told_as_it_came_out(
    networks: Vec<ScannedNetwork>,
    error: String,
    auth: LocationAuth,
)
    ensures
        completed(Ok(networks), auth)[0] == EventView::ScanResult(networks@),
        completed(Ok(networks), auth).len() == 2 <==> scan::diagnostic_of(networks@, auth) is Some,
        completed(Ok(networks), auth).len() == 1 <==> scan::diagnostic_of(networks@, auth) is None,
        scan::diagnostic_of(networks@, auth) matches Some(d) ==> completed(Ok(networks), auth)[1]
            == EventView::Error(d),
        completed(Err(error), auth) == seq![EventView::ScanFailed(error@)],
{
}

/// A check of a join is handed over half a second after it was asked for, and
/// not before.
pub proof fn a_check_waits_half_a_second(since: Instant, now: Instant)
    ensures
        check_is_due(since, now) <==> now.nanos >= since.nanos + 500_000_000,
{
}

/// The lines of the log tell a scan that was served from memory, one that
/// joined another, and one that was started; all name the client and its
/// request.
pub proof fn the_log_tells_how_a_scan_was_admitted(
    waiter: ScanWaiter,
    networks: Seq<ScannedNetwork>,
    id: nat,
    total: Duration,
)
    ensures
        ({
            let front = "scan client="@ + text::decimal(waiter.client_id as nat) + " request_id="@
                + text::decimal(waiter.request_id as nat);
            &&& admission_line(waiter, DecisionView::Coalesced, total) == front
                + " cache=miss coalesced=true — joined running scan"@
            &&& admission_line(waiter, DecisionView::Start { operation_id: id }, total) == front + (
            " cache=miss coalesced=false operation="@ + text::decimal(id)
                + " — starting physical scan"@)
            &&& admission_line(waiter, DecisionView::Cached(networks), total) == front + (
            " cache=hit coalesced=false total_ms="@ + text::decimal(
                (total.nanos / 1_000_000) as nat,
            ) + " networks="@ + text::decimal(networks.len()) + " blank_ssids="@ + text::decimal(
                scan::blank_count(networks),
            ) + " waiters=1 outcome=ok"@)
        }),
{
}

/// A request goes to the worker as it was made, under the client that made it
/// and the id that its answers are to carry.
pub proof fn a_request_is_forwarded_under_its_id(client_id: u64, message: ClientRequest)
    ensures
        match forwarded(client_id, message) {
            WorkerCommand::Request { origin, request } => request == message.request && origin
                == Some(Origin { client_id, request_id: message.id }),
            _ => false,
        },
{
}

/// Only the processes of the same user are let in.
pub proof fn only_the_same_user_is_let_in(peer_uid: u32, own_uid: u32)
    ensures
        lets_in(own_uid, own_uid),
        peer_uid != own_uid ==> !lets_in(peer_uid, own_uid),
{
}

/// Whatever is sent when a scan is over goes to a client that waited, under
/// the request with which it waited.
pub proof fn only_those_who_waited_are_told(
    clients: Seq<u64>,
    waiters: Seq<ScanWaiter>,
    events: Seq<EventView>,
    i: int,
)
    requires
        forall|k: int| 0 <= k < events.len() ==> reach(#[trigger] events[k]) is Direct,
        0 <= i < to_waiters(clients, waiters, events).len(),
    ensures
        ({
            let d = to_waiters(clients, waiters, events)[i];
            &&& clients.contains(d.client_id)
            &&& events.contains(d.event)
            &&& exists|k: int|
                0 <= k < waiters.len() && (#[trigger] waiters[k]).client_id == d.client_id && Some(
                    waiters[k].request_id,
                ) == d.request_id
        }),
    decreases waiters.len(),
{
    if waiters.len() > 0 {
        let init = waiters.drop_last();
        let before = to_waiters(clients, init, events);
        let mine = routed_all(clients, origin_of(waiters.last()), events);
        let d = to_waiters(clients, waiters, events)[i];
        if i < before.len() {
            only_those_who_waited_are_told(clients, init, events, i);
            assert(d == before[i]);
            let k = choose|k: int|
                0 <= k < init.len() && (#[trigger] init[k]).client_id == d.client_id && Some(
                    init[k].request_id,
                ) == d.request_id;
            assert(waiters[k] == init[k]);
        } else {
            assert(d == mine[i - before.len()]);
            lemma_routed_all(clients, waiters.last(), events, i - before.len());
            assert(waiters[waiters.len() - 1] == waiters.last());
        }
    }
}

proof fn lemma_routed_all(
    clients: Seq<u64>,
    waiter: ScanWaiter,
    events: Seq<EventView>,
    i: int,
)
    requires
        forall|k: int| 0 <= k < events.len() ==> reach(#[trigger] events[k]) is Direct,
        0 <= i < routed_all(clients, origin_of(waiter), events).len(),
    ensures
        ({
            let d = routed_all(clients, origin_of(waiter), events)[i];
            &&& clients.contains(d.client_id)
            &&& events.contains(d.event)
            &&& d.client_id == waiter.client_id
            &&& d.request_id == Some(waiter.request_id)
        }),
    decreases events.len(),
{
    if events.len() > 0 {
        let init = events.drop_last();
        let before = routed_all(clients, origin_of(waiter), init);
        let d = routed_all(clients, origin_of(waiter), events)[i];
        assert(events[events.len() - 1] == events.last());
        if i < before.len() {
            assert forall|k: int| 0 <= k < init.len() implies reach(#[trigger] init[k])
                is Direct by {
                assert(init[k] == events[k]);
            }
            lemma_routed_all(clients, waiter, init, i);
            let k = choose|k: int| 0 <= k < init.len() && init[k] == d.event;
            assert(events[k] == d.event);
        }
    }
}

/// The lines about a finished scan: of one that runs, its times and how long
/// the coordinator has waited for it; of any other, that it was replaced.
pub proof fn the_log_tells_a_replaced_scan(
    coordinator: CoordinatorView,
    operation_id: u64,
    found: Option<Seq<ScannedNetwork>>,
    timings: ScanTimings,
    now: Instant,
)
    ensures
        ({
            let lines = completion_lines(coordinator, operation_id, found, timings, now);
            let name = "scan operation="@ + text::decimal(operation_id as nat);
            let runs = coordinator.in_flight is Some && coordinator.in_flight->0.operation_id
                == operation_id;
            &&& !runs ==> lines == seq![name + " was superseded — dropping its result"@]
            &&& runs ==> lines.len() == 2 && lines[0] == worker::scan_line(
                timings,
                found,
                coordinator.waiters.len(),
            ) && lines[1] == name + " coordinator_ms="@ + text::decimal(
                (time::nanos_between(now, coordinator.in_flight->0.started_at) / 1_000_000) as nat,
            ) + " waiters="@ + text::decimal(coordinator.waiters.len())
        }),
{
}

/// A client that waits for a scan and is still there is sent the networks as
/// they were found, first of all, under its own request; one that has left is
/// sent nothing.
pub proof fn a_waiter_is_sent_the_networks(
    clients: Seq<u64>,
    waiter: ScanWaiter,
    networks: Seq<ScannedNetwork>,
    auth: LocationAuth,
)
    ensures
        ({
            let sent = routed_all(clients, origin_of(waiter), served(networks, auth));
            &&& clients.contains(waiter.client_id) ==> sent.len() > 0 && sent[0] == (DeliveryView {
                client_id: waiter.client_id,
                request_id: Some(waiter.request_id),
                event: EventView::ScanResult(networks),
            })
            &&& !clients.contains(waiter.client_id) ==> sent.len() == 0
        }),
{
    reveal_with_fuel(routed_all, 3);
    let first = seq![EventView::ScanResult(networks)];
    assert(first.drop_last() =~= Seq::<EventView>::empty());
    match scan::diagnostic_of(networks, auth) {
        Some(d) => {
            assert(served(networks, auth).drop_last() =~= first);
        },
        None => {},
    }
}

} // verus!
