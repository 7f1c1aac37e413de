//! The client's side of the daemon socket.
//!
//! A [`RemoteWifiHandle`] numbers and queues requests, whether or not a
//! connection is there; [`supervise`] says what follows when a connection
//! ends; [`Retry`] paces the attempts to open one; a [`OneShot`] collects the
//! answers to a single request.

use vstd::prelude::*;

use crate::event::{self, Event, EventView};
use crate::ipc::{ClientRequest, ServerEvent};
use crate::text;
use crate::time::{self, Duration, Instant};
use crate::worker::{Request, RequestView};

verus! {

/// How often a connection is tried before the daemon counts as unreachable.
pub const CONNECT_ATTEMPTS: u8 = 20;

/// The pause after a failed attempt, in milliseconds.
pub const CONNECT_PAUSE_MILLIS: u64 = 100;

/// How long a one-shot waits for its answer, in seconds.
pub const ONE_SHOT_SECS: u64 = 30;

/// The queue of requests to the daemon.
#[derive(Debug)]
pub struct RemoteWifiHandle {
    pub next_id: u64,
    /// Requests that no connection has taken yet, oldest first.
    pub outbox: Vec<ClientRequest>,
    /// Ask for a snapshot on every new connection.
    pub auto_init: bool,
    /// Open a new connection when one is lost.
    pub reconnect: bool,
}

/// The id after `id`.
pub open spec fn following(id: u64) -> u64 {
    if id == u64::MAX {
        0
    } else {
        (id + 1) as u64
    }
}

/// What a new connection asks for before anything else, with the ids of the
/// requests.
pub open spec fn snapshot(auto_init: bool, next_id: u64) -> Seq<(u64, RequestView)> {
    if auto_init {
        seq![
            (next_id, RequestView::RefreshState),
            (following(next_id), RequestView::RefreshPreferred),
            (following(following(next_id)), RequestView::Scan),
        ]
    } else {
        seq![]
    }
}

fn id_after(id: u64) -> (r: u64)
    ensures
        r == following(id),
{
    if id == u64::MAX {
        0
    } else {
        id + 1
    }
}

impl RemoteWifiHandle {
    /// A handle that lasts: it reconnects, and asks for a snapshot each time.
    pub fn connect() -> (r: Self)
        ensures
            r.next_id == 1,
            r.outbox@ == Seq::<ClientRequest>::empty(),
            r.auto_init,
            r.reconnect,
    {
        RemoteWifiHandle { next_id: 1, outbox: Vec::new(), auto_init: true, reconnect: true }
    }

    /// A handle for one request: no snapshot, and no second connection.
    pub fn connect_oneshot() -> (r: Self)
        ensures
            r.next_id == 1,
            r.outbox@ == Seq::<ClientRequest>::empty(),
            !r.auto_init,
            !r.reconnect,
    {
        RemoteWifiHandle { next_id: 1, outbox: Vec::new(), auto_init: false, reconnect: false }
    }

    /// Queues a request under the next id, which is returned.
    pub fn send(&mut self, req: Request) -> (id: u64)
        ensures
            id == old(self).next_id,
            final(self).outbox@ == old(self).outbox@.push(ClientRequest { id, request: req }),
            final(self).next_id == following(old(self).next_id),
            final(self).auto_init == old(self).auto_init,
            final(self).reconnect == old(self).reconnect,
    {
        let id: u64 = self.next_id;
        self.outbox.push(ClientRequest { id, request: req });
        self.next_id = id_after(id);
        id
    }

    /// What a new connection writes before anything that is queued: requests
    /// for the state, the preferred networks and a scan, numbered like all
    /// others.
    pub fn send_init(&mut self) -> (r: Vec<ClientRequest>)
        ensures
            Seq::new(r@.len(), |i: int| (r@[i].id, r@[i].request@)) == snapshot(
                old(self).auto_init,
                old(self).next_id,
            ),
            final(self).outbox@ == old(self).outbox@,
            final(self).auto_init == old(self).auto_init,
            final(self).reconnect == old(self).reconnect,
            !old(self).auto_init ==> r@.len() == 0 && final(self).next_id == old(self).next_id,
            old(self).auto_init ==> {
                let first = old(self).next_id;
                let second = following(first);
                let third = following(second);
                &&& r@.len() == 3
                &&& r@[0].id == first && r@[0].request@ == RequestView::RefreshState
                &&& r@[1].id == second && r@[1].request@ == RequestView::RefreshPreferred
                &&& r@[2].id == third && r@[2].request@ == RequestView::Scan
                &&& final(self).next_id == following(third)
            },
    {
        let mut out: Vec<ClientRequest> = Vec::new();
        if self.auto_init {
            let first: u64 = self.next_id;
            let second: u64 = id_after(first);
            let third: u64 = id_after(second);
            out.push(ClientRequest { id: first, request: Request::RefreshState });
            out.push(ClientRequest { id: second, request: Request::RefreshPreferred });
            out.push(ClientRequest { id: third, request: Request::Scan });
            self.next_id = id_after(third);
        }
        assert(Seq::new(out@.len(), |i: int| (out@[i].id, out@[i].request@)) =~= snapshot(
            old(self).auto_init,
            old(self).next_id,
        ));
        out
    }

    /// The oldest request in the queue, for the connection to write.
    pub fn take(&mut self) -> (r: Option<ClientRequest>)
        ensures
            (r, final(self).outbox@) == oldest_first(old(self).outbox@),
            final(self).next_id == old(self).next_id,
            final(self).auto_init == old(self).auto_init,
            final(self).reconnect == old(self).reconnect,
            old(self).outbox@.len() == 0 ==> r is None && final(self).outbox@ == old(self).outbox@,
            old(self).outbox@.len() > 0 ==> r == Some(old(self).outbox@[0]) && final(self).outbox@
                == old(self).outbox@.skip(1),
    {
        if self.outbox.len() == 0 {
            None
        } else {
            let first = self.outbox.remove(0);
            assert(self.outbox@ =~= old(self).outbox@.skip(1));
            Some(first)
        }
    }
}

/// The request that is written next, and those that are still to be written.
pub open spec fn oldest_first(outbox: Seq<ClientRequest>) -> (
    Option<ClientRequest>,
    Seq<ClientRequest>,
) {
    if outbox.len() == 0 {
        (None, outbox)
    } else {
        (Some(outbox[0]), outbox.skip(1))
    }
}

/// How a connection ended.
#[derive(Clone, Copy, Debug, PartialEq, Eq, Structural)]
pub enum ConnOutcome {
    /// The socket died while the program still holds the handle.
    Disconnected,
    /// The program has let go of the handle.
    HandleDropped,
}

/// What to do after a connection.
#[derive(Clone, Copy, Debug, PartialEq, Eq, Structural)]
pub enum Sequel {
    Stop,
    Reconnect,
}

/// What the user is told when a connection ends, and what follows.
pub open spec fn sequel(reconnect: bool, outcome: ConnOutcome) -> (Option<EventView>, Sequel) {
    match outcome {
        ConnOutcome::HandleDropped => (None, Sequel::Stop),
        ConnOutcome::Disconnected => if reconnect {
            (
                Some(EventView::Notice("daemon connection lost — reconnecting…"@)),
                Sequel::Reconnect,
            )
        } else {
            (
                Some(
                    EventView::Error(
                        "daemon connection closed — restart with `macwifi install-daemon`"@,
                    ),
                ),
                Sequel::Stop,
            )
        },
    }
}

/// What the user is told when a connection ends, and what follows.
pub fn supervise(reconnect: bool, outcome: ConnOutcome) -> (r: (Option<Event>, Sequel))
    ensures
        (match r.0 {
            Some(e) => Some(e@),
            None => None,
        }, r.1) == sequel(reconnect, outcome),
{
    match outcome {
        ConnOutcome::HandleDropped => (None, Sequel::Stop),
        ConnOutcome::Disconnected => {
            if reconnect {
                (
                    Some(Event::Notice("daemon connection lost — reconnecting…".to_owned())),
                    Sequel::Reconnect,
                )
            } else {
                (
                    Some(
                        Event::Error(
                            "daemon connection closed — restart with `macwifi install-daemon`".to_owned(),
                        ),
                    ),
                    Sequel::Stop,
                )
            }
        },
    }
}

/// What the user is told when no new connection could be opened.
pub open spec fn unreachable(error: Seq<char>) -> EventView {
    EventView::Error(
        "daemon unreachable — "@ + error + ". Restart with `macwifi install-daemon`"@,
    )
}

/// What the user is told when no new connection could be opened.
pub fn unreachable_event(error: &str) -> (r: Event)
    ensures
        r@ == unreachable(error@),
        r@ == EventView::Error(
            "daemon unreachable — "@ + error@ + ". Restart with `macwifi install-daemon`"@,
        ),
{
    Event::Error(
        text::cat3(
            "daemon unreachable — ",
            error,
            ". Restart with `macwifi install-daemon`",
        ),
    )
}

/// The attempts to open a connection.
#[derive(Clone, Copy, Debug)]
pub struct Retry {
    /// How many attempts have failed.
    pub failed: u8,
}

/// An attempt that failed: what was tried, and why it failed.
#[derive(Debug)]
pub struct ConnectError {
    pub context: String,
    pub cause: String,
}

/// After so many failed attempts the daemon counts as unreachable.
pub open spec fn gives_up(failed: int) -> bool {
    failed >= CONNECT_ATTEMPTS
}

impl Retry {
    pub fn new() -> (r: Self)
        ensures
            r.failed == 0,
    {
        Retry { failed: 0 }
    }

    /// Records a failed attempt. None: try again after the pause. Otherwise
    /// the daemon is unreachable, for the reason of the last attempt.
    pub fn attempt_failed(&mut self, path: &str, cause: String) -> (r: Option<ConnectError>)
        requires
            old(self).failed < CONNECT_ATTEMPTS,
        ensures
            final(self).failed == old(self).failed + 1,
            r is Some <==> gives_up(final(self).failed as int),
            r is Some <==> final(self).failed == CONNECT_ATTEMPTS,
            r matches Some(e) ==> e.cause == cause && e.context@ == "connect "@ + path@
                + " (attempt "@ + text::decimal(final(self).failed as nat) + ")"@,
    {
        self.failed = self.failed + 1;
        if self.failed == CONNECT_ATTEMPTS {
            let n = text::decimal_text(self.failed as u128);
            let context = text::cat5("connect ", path, " (attempt ", n.as_str(), ")");
            Some(ConnectError { context, cause })
        } else {
            None
        }
    }

    /// The pause after a failed attempt.
    pub fn pause() -> (r: Duration)
        ensures
            r.nanos == CONNECT_PAUSE_MILLIS * time::NANOS_PER_MILLI,
    {
        Duration::from_millis(CONNECT_PAUSE_MILLIS)
    }
}

/// Which event ends a one-shot.
#[derive(Clone, Copy, Debug, PartialEq, Eq, Structural)]
pub enum Terminal {
    State,
    ScanResult,
    NoticeOrError,
    /// A notice, an error, or a failed reconnect.
    Connect,
    Preferred,
    ShareOrError,
    Diagnose,
}

impl Terminal {
    /// The event ends the one-shot.
    pub open spec fn ends(self, event: EventView) -> bool {
        match self {
            Terminal::State => event is State,
            Terminal::ScanResult => event is ScanResult,
            Terminal::NoticeOrError => event is Notice || event is Error,
            Terminal::Connect => event is Notice || event is Error || event is JoinSavedFailed,
            Terminal::Preferred => event is PreferredResult,
            Terminal::ShareOrError => event is ShareReady || event is Error,
            Terminal::Diagnose => event is DaemonDiagnose,
        }
    }

    pub fn matches(&self, event: &Event) -> (r: bool)
        ensures
            r == self.ends(event@),
    {
        match self {
            Terminal::State => matches!(event, Event::State(_)),
            Terminal::ScanResult => matches!(event, Event::ScanResult(_)),
            Terminal::NoticeOrError => is_notice_or_error(event),
            Terminal::Connect => is_connect_terminal(event),
            Terminal::Preferred => matches!(event, Event::PreferredResult(_)),
            Terminal::ShareOrError => matches!(event, Event::ShareReady(_)) || matches!(
                event,
                Event::Error(_)
            ),
            Terminal::Diagnose => matches!(event, Event::DaemonDiagnose(_)),
        }
    }
}

/// The event is a notice or an error.
pub fn is_notice_or_error(ev: &Event) -> (r: bool)
    ensures
        r == Terminal::NoticeOrError.ends(ev@),
{
    matches!(ev, Event::Notice(_)) || matches!(ev, Event::Error(_))
}

/// The event answers a request to connect.
pub fn is_connect_terminal(ev: &Event) -> (r: bool)
    ensures
        r == Terminal::Connect.ends(ev@),
{
    is_notice_or_error(ev) || matches!(ev, Event::JoinSavedFailed { .. })
}

/// How much longer a one-shot waits, in nanoseconds.
pub open spec fn patience(started: Instant, now: Instant) -> int {
    let limit = ONE_SHOT_SECS * time::NANOS_PER_SEC;
    let waited = time::nanos_between(now, started);
    if waited >= limit {
        0
    } else {
        limit - waited
    }
}

/// One request and the answers to it so far.
#[derive(Debug)]
pub struct OneShot {
    pub request_id: u64,
    pub terminal: Terminal,
    pub started: Instant,
    pub events: Vec<Event>,
}

/// Sends a request and waits for the event that ends it.
pub fn cli_one_shot(
    handle: &mut RemoteWifiHandle,
    req: Request,
    terminal: Terminal,
    now: Instant,
) -> (r: OneShot)
    ensures
        final(handle).outbox@ == old(handle).outbox@.push(
            ClientRequest { id: old(handle).next_id, request: req },
        ),
        final(handle).next_id == following(old(handle).next_id),
        final(handle).auto_init == old(handle).auto_init,
        final(handle).reconnect == old(handle).reconnect,
        r.request_id == old(handle).next_id,
        r.terminal == terminal,
        r.started == now,
        r.events@ == Seq::<Event>::empty(),
{
    let request_id: u64 = handle.send(req);
    OneShot { request_id, terminal, started: now, events: Vec::new() }
}

impl OneShot {
    /// Takes a message of the daemon. An event that answers another request,
    /// or none, is ignored. True: this was the event that ends the one-shot.
    pub fn received(&mut self, message: ServerEvent) -> (done: bool)
        ensures
            final(self).request_id == old(self).request_id,
            final(self).terminal == old(self).terminal,
            final(self).started == old(self).started,
            message.request_id != Some(old(self).request_id) ==> !done && final(self).events@
                == old(self).events@,
            message.request_id == Some(old(self).request_id) ==> final(self).events@ == old(
                self,
            ).events@.push(message.event) && done == old(self).terminal.ends(message.event@),
            forall|stream: Seq<ServerEvent>|
                event::event_views(old(self).events@) == answers_to(old(self).request_id, stream)
                    ==> event::event_views(final(self).events@) == #[trigger] answers_to(
                    old(self).request_id,
                    stream.push(message),
                ),
    {
        proof {
            assert forall|stream: Seq<ServerEvent>|
                #![trigger stream.push(message)]
                stream.push(message).drop_last() == stream && stream.push(message).last()
                    == message by {
                assert(stream.push(message).drop_last() =~= stream);
            }
        }
        let mine = match message.request_id {
            Some(id) => id == self.request_id,
            None => false,
        };
        if mine {
            let done = self.terminal.matches(&message.event);
            self.events.push(message.event);
            assert(event::event_views(self.events@) =~= event::event_views(old(self).events@).push(
                message.event@,
            ));
            done
        } else {
            false
        }
    }

    /// How much longer to wait; zero once the time is up.
    pub fn remaining(&self, now: Instant) -> (r: Duration)
        ensures
            r.nanos == patience(self.started, now),
            ({
                let limit = ONE_SHOT_SECS * time::NANOS_PER_SEC;
                let waited = time::nanos_between(now, self.started);
                r.nanos == if waited >= limit {
                    0
                } else {
                    limit - waited
                }
            }),
    {
        let limit = Duration::from_secs(ONE_SHOT_SECS);
        let waited = now.duration_since(self.started);
        if waited.nanos >= limit.nanos {
            Duration { nanos: 0 }
        } else {
            Duration { nanos: limit.nanos - waited.nanos }
        }
    }
}

/// The error where the time of a one-shot is up.
pub fn timed_out() -> (r: String)
    ensures
        r@ == "daemon reply timed out"@,
{
    "daemon reply timed out".to_owned()
}

/// The error where the connection of a one-shot closes early.
pub fn channel_closed() -> (r: String)
    ensures
        r@ == "daemon channel closed"@,
{
    "daemon channel closed".to_owned()
}

/// The events of a stream that answer one request, in order.
pub open spec fn answers_to(id: u64, stream: Seq<ServerEvent>) -> Seq<EventView>
    decreases stream.len(),
{
    if stream.len() == 0 {
        seq![]
    } else {
        let before = answers_to(id, stream.drop_last());
        if stream.last().request_id == Some(id) {
            before.push(stream.last().event@)
        } else {
            before
        }
    }
}

/// What a one-shot collects is what answers its own request: the events of
/// other requests change nothing, however they are mixed in.
pub proof fn other_answers_change_nothing(id: u64, a: Seq<ServerEvent>, b: Seq<ServerEvent>)
    requires
        forall|i: int| 0 <= i < b.len() ==> (#[trigger] b[i]).request_id != Some(id),
    ensures
        answers_to(id, a + b) == answers_to(id, a),
        answers_to(id, b + a) == answers_to(id, a),
    decreases a.len() + b.len(),
{
    if b.len() > 0 {
        other_answers_change_nothing(id, a, b.drop_last());
        assert((a + b).drop_last() =~= a + b.drop_last());
        assert((a + b).last() == b.last());
    } else {
        assert(a + b =~= a);
    }
    if a.len() > 0 {
        other_answers_change_nothing(id, a.drop_last(), b);
        assert((b + a).drop_last() =~= b + a.drop_last());
        assert((b + a).last() == a.last());
    } else {
        assert(b + a =~= b);
        lemma_no_answers(id, b);
    }
}

proof fn lemma_no_answers(id: u64, b: Seq<ServerEvent>)
    requires
        forall|i: int| 0 <= i < b.len() ==> (#[trigger] b[i]).request_id != Some(id),
    ensures
        answers_to(id, b) == Seq::<EventView>::empty(),
    decreases b.len(),
{
    if b.len() > 0 {
        lemma_no_answers(id, b.drop_last());
    }
}

/// Ids go up by one, and begin again at zero after the last one.
pub proof fn ids_go_up_by_one(id: u64)
    ensures
        id < u64::MAX ==> following(id) == id + 1,
        following(u64::MAX) == 0,
        following(id) != id,
{
}

/// A lasting handle asks each new connection for the state, the known networks
/// and a scan, in this order and under ids that follow each other; a handle
/// for one request asks for nothing of its own.
pub proof fn a_new_connection_asks_for_a_snapshot(next_id: u64)
    requires
        next_id < u64::MAX - 2,
    ensures
        snapshot(false, next_id).len() == 0,
        snapshot(true, next_id).len() == 3,
        snapshot(true, next_id)[0].1 is RefreshState,
        snapshot(true, next_id)[1].1 is RefreshPreferred,
        snapshot(true, next_id)[2].1 is Scan,
        forall|i: int| 0 <= i < 3 ==> (#[trigger] snapshot(true, next_id)[i]).0 == next_id + i,
{
}

/// A lost connection is opened again exactly where the handle is a lasting
/// one. Losing it is told to the user, as an error where it is final; letting
/// go of it is not.
pub proof fn a_lost_connection_is_opened_again(reconnect: bool)
    ensures
        sequel(reconnect, ConnOutcome::HandleDropped) == (None::<EventView>, Sequel::Stop),
        sequel(reconnect, ConnOutcome::Disconnected).1 is Reconnect <==> reconnect,
        reconnect ==> (sequel(reconnect, ConnOutcome::Disconnected).0 matches Some(
            EventView::Notice(_),
        )),
        !reconnect ==> (sequel(reconnect, ConnOutcome::Disconnected).0 matches Some(
            EventView::Error(_),
        )),
{
}

/// A connection is tried twenty times within two seconds, and not once more.
pub proof fn a_connection_is_tried_for_two_seconds(failed: int)
    ensures
        gives_up(failed) <==> failed >= 20,
        CONNECT_ATTEMPTS * CONNECT_PAUSE_MILLIS == 2_000,
{
}

/// A one-shot waits for thirty seconds after it was sent, and no longer: what
/// it has waited and what it will wait add up to that.
pub proof fn a_one_shot_waits_half_a_minute(started: Instant, now: Instant)
    requires
        now.nanos >= started.nanos,
    ensures
        now.nanos - started.nanos <= 30_000_000_000 ==> patience(started, now) + (now.nanos
            - started.nanos) == 30_000_000_000,
        now.nanos - started.nanos >= 30_000_000_000 ==> patience(started, now) == 0,
{
}

/// Each kind of one-shot is ended by the events that answer it, and by no
/// other; none is ended by the mere start of a scan.
pub proof fn a_one_shot_ends_with_its_own_answer(terminal: Terminal, event: EventView)
    ensures
        Terminal::State.ends(event) <==> event is State,
        Terminal::ScanResult.ends(event) <==> event is ScanResult,
        Terminal::Preferred.ends(event) <==> event is PreferredResult,
        Terminal::Diagnose.ends(event) <==> event is DaemonDiagnose,
        Terminal::NoticeOrError.ends(event) <==> event is Notice || event is Error,
        Terminal::Connect.ends(event) <==> event is Notice || event is Error || event
            is JoinSavedFailed,
        Terminal::ShareOrError.ends(event) <==> event is ShareReady || event is Error,
        event is ScanStarted ==> !terminal.ends(event),
{
}

/// The answers to a request are collected one by one, in their order, and
/// nothing else is.
pub proof fn answers_are_collected_in_order(
    id: u64,
    stream: Seq<ServerEvent>,
    message: ServerEvent,
)
    ensures
        answers_to(id, stream.push(message)) == if message.request_id == Some(id) {
            answers_to(id, stream).push(message.event@)
        } else {
            answers_to(id, stream)
        },
        answers_to(id, Seq::<ServerEvent>::empty()).len() == 0,
{
    assert(stream.push(message).drop_last() =~= stream);
}

/// Requests are written in the order in which they were made, and none is
/// lost: what is written next and what is left are together what there was,
/// and a request that is added comes behind all that wait.
pub proof fn requests_are_written_in_order(outbox: Seq<ClientRequest>, request: ClientRequest)
    ensures
        oldest_first(outbox).0 is None <==> outbox.len() == 0,
        oldest_first(outbox).0 matches Some(first) ==> seq![first] + oldest_first(outbox).1
            == outbox,
        outbox.len() == 0 ==> oldest_first(outbox.push(request)).0 == Some(request),
        outbox.len() > 0 ==> oldest_first(outbox.push(request)) == (
            oldest_first(outbox).0,
            oldest_first(outbox).1.push(request),
        ),
{
    if outbox.len() > 0 {
        assert(seq![outbox[0]] + outbox.skip(1) =~= outbox);
        assert(outbox.push(request).skip(1) =~= outbox.skip(1).push(request));
    }
}

/// Where the daemon cannot be reached, the user is told so as an error, with
/// the reason and with what to do.
pub proof fn an_unreachable_daemon_is_an_error(error: Seq<char>)
    ensures
        unreachable(error) == EventView::Error(
            "daemon unreachable — "@ + error + ". Restart with `macwifi install-daemon`"@,
        ),
{
}

} // verus!
