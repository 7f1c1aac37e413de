//! What the worker may be asked for, and what it reports.
//!
//! The hardware belongs to one thread, which takes commands from a queue.

use vstd::prelude::*;

use crate::client::{self, RemoteWifiHandle};
use crate::corewlan::ScannedNetwork;
use crate::event::Event;
use crate::scan;
use crate::text;
use crate::time::{self, Duration, Instant};

verus! {

/// An operation that a client asks for.
#[derive(Debug)]
pub enum Request {
    RefreshState,
    Scan,
    RefreshPreferred,
    SetPower(bool),
    Associate(Associate),
    Disconnect,
    Forget(String),
    JoinSaved(String),
    JoinWithPassword { ssid: String, password: String },
    Share { ssid: String, security: ShareSecurity },
    Diagnose,
}

#[derive(Clone, Copy, Debug, PartialEq, Eq, Structural)]
pub enum ShareSecurity {
    Wpa,
    Wep,
    Nopass,
}

#[derive(Debug)]
pub struct Associate {
    pub ssid: String,
    pub kind: AssociateKind,
}

#[derive(Debug)]
pub enum AssociateKind {
    Open,
    Psk(String),
    Peap { username: String, password: String },
    Hidden(Option<String>),
}

/// The request of a client that an event answers.
#[derive(Clone, Copy, Debug, PartialEq, Eq, Structural)]
pub struct Origin {
    pub client_id: u64,
    pub request_id: u64,
}

/// Which join a verification belongs to.
#[derive(Debug)]
pub enum JoinKind {
    /// A join with a password that the user typed.
    Password,
    /// A reconnect to a saved network, with what to say where it fails.
    Saved { fail_detail: String },
}

/// What the daemon asks the worker to do. Never crosses the socket.
#[derive(Debug)]
pub enum WorkerCommand {
    Request { origin: Option<Origin>, request: Request },
    /// A physical scan. One scan may answer any number of clients, so it
    /// carries the id of the operation.
    Scan { operation_id: u64 },
    /// Look whether a join has taken effect by now.
    VerifyJoin {
        origin: Option<Origin>,
        ssid: String,
        kind: JoinKind,
        attempts_remaining: u8,
    },
}

/// What the worker reports back.
#[derive(Debug)]
pub enum WorkerEvent {
    Emit { origin: Option<Origin>, event: Event },
    ScanFinished {
        operation_id: u64,
        result: Result<Vec<ScannedNetwork>, String>,
        timings: ScanTimings,
    },
    /// Ask again after one interval whether a join has taken effect.
    ScheduleVerify {
        origin: Option<Origin>,
        ssid: String,
        kind: JoinKind,
        attempts_remaining: u8,
    },
}

/// Where the time of one scan went.
#[derive(Clone, Copy, Debug)]
pub struct ScanTimings {
    /// In the queue, behind other operations.
    pub queue: Duration,
    /// In the scan itself.
    pub corewlan: Duration,
    /// In sorting its result.
    pub postprocess: Duration,
}

impl ScanTimings {
    /// Everything that the worker was responsible for.
    pub fn worker_total(&self) -> (r: Duration)
        requires
            self.queue.nanos + self.corewlan.nanos + self.postprocess.nanos
                <= time::MAX_DURATION_NANOS,
        ensures
            r.nanos == self.queue.nanos + self.corewlan.nanos + self.postprocess.nanos,
    {
        Duration { nanos: self.queue.nanos + self.corewlan.nanos + self.postprocess.nanos }
    }
}

/// How many checks a join is given before it counts as unconfirmed.
pub const VERIFY_ATTEMPTS: u8 = 20;

/// The pause between two checks of a join, in milliseconds.
pub const VERIFY_INTERVAL_MILLIS: u64 = 500;

/// The pause between two checks of a join.
pub fn verify_interval() -> (r: Duration)
    ensures
        r.nanos == VERIFY_INTERVAL_MILLIS * time::NANOS_PER_MILLI,
{
    Duration::from_millis(VERIFY_INTERVAL_MILLIS)
}

// ---------------------------------------------------------------------------
// Views.
// ---------------------------------------------------------------------------

#[verifier::ext_equal]
pub enum AssociateKindView {
    Open,
    Psk(Seq<char>),
    Peap { username: Seq<char>, password: Seq<char> },
    Hidden(Option<Seq<char>>),
}

#[verifier::ext_equal]
pub enum RequestView {
    RefreshState,
    Scan,
    RefreshPreferred,
    SetPower(bool),
    Associate { ssid: Seq<char>, kind: AssociateKindView },
    Disconnect,
    Forget(Seq<char>),
    JoinSaved(Seq<char>),
    JoinWithPassword { ssid: Seq<char>, password: Seq<char> },
    Share { ssid: Seq<char>, security: ShareSecurity },
    Diagnose,
}

#[verifier::ext_equal]
pub enum JoinKindView {
    Password,
    Saved { fail_detail: Seq<char> },
}

impl View for AssociateKind {
    type V = AssociateKindView;

    open spec fn view(&self) -> AssociateKindView {
        match *self {
            AssociateKind::Open => AssociateKindView::Open,
            AssociateKind::Psk(p) => AssociateKindView::Psk(p@),
            AssociateKind::Peap { username, password } => AssociateKindView::Peap {
                username: username@,
                password: password@,
            },
            AssociateKind::Hidden(p) => AssociateKindView::Hidden(text::opt_text(p)),
        }
    }
}

impl View for Request {
    type V = RequestView;

    open spec fn view(&self) -> RequestView {
        match *self {
            Request::RefreshState => RequestView::RefreshState,
            Request::Scan => RequestView::Scan,
            Request::RefreshPreferred => RequestView::RefreshPreferred,
            Request::SetPower(on) => RequestView::SetPower(on),
            Request::Associate(a) => RequestView::Associate { ssid: a.ssid@, kind: a.kind@ },
            Request::Disconnect => RequestView::Disconnect,
            Request::Forget(ssid) => RequestView::Forget(ssid@),
            Request::JoinSaved(ssid) => RequestView::JoinSaved(ssid@),
            Request::JoinWithPassword { ssid, password } => RequestView::JoinWithPassword {
                ssid: ssid@,
                password: password@,
            },
            Request::Share { ssid, security } => RequestView::Share { ssid: ssid@, security },
            Request::Diagnose => RequestView::Diagnose,
        }
    }
}

impl View for JoinKind {
    type V = JoinKindView;

    open spec fn view(&self) -> JoinKindView {
        match *self {
            JoinKind::Password => JoinKindView::Password,
            JoinKind::Saved { fail_detail } => JoinKindView::Saved { fail_detail: fail_detail@ },
        }
    }
}

#[verifier::ext_equal]
pub enum CommandView {
    Request { origin: Option<Origin>, request: RequestView },
    Scan { operation_id: u64 },
    VerifyJoin {
        origin: Option<Origin>,
        ssid: Seq<char>,
        kind: JoinKindView,
        attempts_remaining: u8,
    },
}

impl View for WorkerCommand {
    type V = CommandView;

    open spec fn view(&self) -> CommandView {
        match *self {
            WorkerCommand::Request { origin, request } => CommandView::Request {
                origin,
                request: request@,
            },
            WorkerCommand::Scan { operation_id } => CommandView::Scan { operation_id },
            WorkerCommand::VerifyJoin { origin, ssid, kind, attempts_remaining } =>
                CommandView::VerifyJoin { origin, ssid: ssid@, kind: kind@, attempts_remaining },
        }
    }
}

/// What a handle holds, oldest first.
#[verifier::ext_equal]
pub enum WifiView {
    /// The commands in the queue of the worker, with their times.
    Local(Seq<(CommandView, Instant)>),
    /// The requests for the socket, with their ids.
    Remote {
        next_id: u64,
        auto_init: bool,
        reconnect: bool,
        outbox: Seq<(u64, RequestView)>,
    },
}

impl View for WifiHandle {
    type V = WifiView;

    open spec fn view(&self) -> WifiView {
        match *self {
            WifiHandle::Local(h) => WifiView::Local(
                Seq::new(h.queue@.len(), |i: int| (h.queue@[i].command@, h.queue@[i].enqueued)),
            ),
            WifiHandle::Remote(h) => WifiView::Remote {
                next_id: h.next_id,
                auto_init: h.auto_init,
                reconnect: h.reconnect,
                outbox: Seq::new(
                    h.outbox@.len(),
                    |i: int| (h.outbox@[i].id, h.outbox@[i].request@),
                ),
            },
        }
    }
}

impl WifiView {
    /// The handle after one more request.
    pub open spec fn sent(self, request: RequestView, now: Instant) -> WifiView {
        match self {
            WifiView::Local(queue) => WifiView::Local(
                queue.push((CommandView::Request { origin: None, request }, now)),
            ),
            WifiView::Remote { next_id, auto_init, reconnect, outbox } => WifiView::Remote {
                next_id: client::following(next_id),
                auto_init,
                reconnect,
                outbox: outbox.push((next_id, request)),
            },
        }
    }
}

/// The requests of a list.
pub open spec fn request_views(v: Seq<Request>) -> Seq<RequestView> {
    Seq::new(v.len(), |i: int| v[i]@)
}

// ---------------------------------------------------------------------------
// Queues.
// ---------------------------------------------------------------------------

/// A command and the moment when it entered the queue.
#[derive(Debug)]
pub struct Queued {
    pub command: WorkerCommand,
    pub enqueued: Instant,
}

/// The queue of the worker, served strictly in order.
#[derive(Debug)]
pub struct LocalWifiHandle {
    pub queue: Vec<Queued>,
}

/// The command that is carried out next, and those that are still to come.
pub open spec fn oldest_first(queue: Seq<Queued>) -> (Option<Queued>, Seq<Queued>) {
    if queue.len() == 0 {
        (None, queue)
    } else {
        (Some(queue[0]), queue.skip(1))
    }
}

impl LocalWifiHandle {
    pub fn new() -> (r: Self)
        ensures
            r.queue@ == Seq::<Queued>::empty(),
    {
        LocalWifiHandle { queue: Vec::new() }
    }

    /// Puts a command at the end of the queue.
    pub fn send_command(&mut self, command: WorkerCommand, now: Instant)
        ensures
            final(self).queue@ == old(self).queue@.push(Queued { command, enqueued: now }),
    {
        self.queue.push(Queued { command, enqueued: now });
    }

    /// Queues a request that no client made.
    pub fn send(&mut self, req: Request, now: Instant)
        ensures
            final(self).queue@ == old(self).queue@.push(
                Queued {
                    command: WorkerCommand::Request { origin: None, request: req },
                    enqueued: now,
                },
            ),
    {
        self.send_command(WorkerCommand::Request { origin: None, request: req }, now);
    }

    /// Takes the oldest command out of the queue, with the time that it
    /// spent there.
    pub fn next(&mut self, now: Instant) -> (r: Option<(WorkerCommand, Duration)>)
        ensures
            r is Some <==> oldest_first(old(self).queue@).0 is Some,
            r matches Some(taken) ==> taken.0 == oldest_first(old(self).queue@).0->0.command,
            final(self).queue@ == oldest_first(old(self).queue@).1,
            old(self).queue@.len() == 0 ==> r is None && final(self).queue@ == old(self).queue@,
            old(self).queue@.len() > 0 ==> {
                &&& r matches Some(taken)
                &&& taken.0 == old(self).queue@[0].command
                &&& taken.1.nanos == time::nanos_between(now, old(self).queue@[0].enqueued)
                &&& final(self).queue@ == old(self).queue@.skip(1)
            },
    {
        if self.queue.len() == 0 {
            None
        } else {
            let first = self.queue.remove(0);
            assert(self.queue@ =~= old(self).queue@.skip(1));
            Some((first.command, now.duration_since(first.enqueued)))
        }
    }
}

/// Where a front end sends its requests: to the worker of its own process, or
/// through the socket.
#[derive(Debug)]
pub enum WifiHandle {
    Local(LocalWifiHandle),
    Remote(RemoteWifiHandle),
}

impl WifiHandle {
    /// Hands a request on.
    pub fn send(&mut self, req: Request, now: Instant)
        ensures
            final(self)@ == old(self)@.sent(req@, now),
    {
        let ghost before = self@;
        match self {
            WifiHandle::Local(h) => {
                h.send(req, now);
            },
            WifiHandle::Remote(h) => {
                h.send(req);
            },
        }
        assert(self@ =~= before.sent(req@, now));
    }
}

/// The line that records one scan.
pub open spec fn scan_line(
    timings: ScanTimings,
    result: Option<Seq<ScannedNetwork>>,
    waiters: nat,
) -> Seq<char> {
    let total = timings.queue.nanos + timings.corewlan.nanos + timings.postprocess.nanos;
    let (networks, blank, outcome) = match result {
        Some(n) => (n.len(), scan::blank_count(n), "ok"@),
        None => (0, 0, "error"@),
    };
    "scan queue_ms="@ + text::decimal((timings.queue.nanos / time::NANOS_PER_MILLI) as nat)
        + " corewlan_ms="@ + text::decimal(
        (timings.corewlan.nanos / time::NANOS_PER_MILLI) as nat,
    ) + " postprocess_ms="@ + text::decimal(
        (timings.postprocess.nanos / time::NANOS_PER_MILLI) as nat,
    ) + " worker_total_ms="@ + text::decimal((total / time::NANOS_PER_MILLI as int) as nat)
        + " networks="@ + text::decimal(networks) + " blank_ssids="@ + text::decimal(blank)
        + " waiters="@ + text::decimal(waiters) + " outcome="@ + outcome
}

/// The line that records one scan, so that a slow one can be put down to the
/// queue, to the scan itself, or to what came after it.
pub fn log_scan(
    timings: ScanTimings,
    result: Result<&[ScannedNetwork], &str>,
    waiters: usize,
) -> (r: String)
    requires
        timings.queue.nanos + timings.corewlan.nanos + timings.postprocess.nanos
            <= time::MAX_DURATION_NANOS,
    ensures
        r@ == scan_line(
            timings,
            match result {
                Ok(n) => Some(n@),
                Err(_) => None,
            },
            waiters as nat,
        ),
{
    let (networks, blank, outcome): (usize, usize, &str) = match result {
        Ok(n) => (n.len(), scan::blank_ssids(n), "ok"),
        Err(_) => (0, 0, "error"),
    };
    let mut line = "scan queue_ms=".to_owned();
    line.append(text::decimal_text(timings.queue.as_millis()).as_str());
    line.append(" corewlan_ms=");
    line.append(text::decimal_text(timings.corewlan.as_millis()).as_str());
    line.append(" postprocess_ms=");
    line.append(text::decimal_text(timings.postprocess.as_millis()).as_str());
    line.append(" worker_total_ms=");
    line.append(text::decimal_text(timings.worker_total().as_millis()).as_str());
    line.append(" networks=");
    line.append(text::decimal_text(networks as u128).as_str());
    line.append(" blank_ssids=");
    line.append(text::decimal_text(blank as u128).as_str());
    line.append(" waiters=");
    line.append(text::decimal_text(waiters as u128).as_str());
    line.append(" outcome=");
    line.append(outcome);
    line
}

// ---------------------------------------------------------------------------
// Building requests.
// ---------------------------------------------------------------------------

/// The request that joins a network with a password that may be blank.
pub open spec fn joining(ssid: Seq<char>, password: Seq<char>) -> RequestView {
    if password.len() == 0 {
        RequestView::Associate { ssid, kind: AssociateKindView::Open }
    } else {
        RequestView::JoinWithPassword { ssid, password }
    }
}

/// The request that joins a network with a password that may be blank: a
/// blank one means an open network.
pub fn join_request(ssid: String, password: String) -> (r: Request)
    ensures
        r@ == joining(ssid@, password@),
        r@ == if password@.len() == 0 {
            RequestView::Associate { ssid: ssid@, kind: AssociateKindView::Open }
        } else {
            RequestView::JoinWithPassword { ssid: ssid@, password: password@ }
        },
{
    if password.as_str().is_empty() {
        Request::Associate(Associate { ssid, kind: AssociateKind::Open })
    } else {
        Request::JoinWithPassword { ssid, password }
    }
}

/// What the worker does before it accepts any command.
pub open spec fn at_startup() -> Seq<RequestView> {
    seq![RequestView::RefreshState, RequestView::RefreshPreferred]
}

/// The requests that the worker carries out before it accepts any command:
/// state and preferred networks, and no scan, since nobody could receive its
/// result yet.
pub fn startup_requests() -> (r: Vec<Request>)
    ensures
        request_views(r@) == at_startup(),
        request_views(r@) == seq![RequestView::RefreshState, RequestView::RefreshPreferred],
{
    let mut v: Vec<Request> = Vec::new();
    v.push(Request::RefreshState);
    v.push(Request::RefreshPreferred);
    assert(request_views(v@) =~= seq![RequestView::RefreshState, RequestView::RefreshPreferred]);
    v
}

// ---------------------------------------------------------------------------
// Share URIs.
// ---------------------------------------------------------------------------

/// A character with a meaning of its own in a share URI.
pub open spec fn is_reserved(c: char) -> bool {
    c == '\\' || c == ';' || c == ',' || c == ':' || c == '"'
}

/// One character as it stands in a share URI.
pub open spec fn escaped_char(c: char) -> Seq<char> {
    if is_reserved(c) {
        seq!['\\', c]
    } else {
        seq![c]
    }
}

/// A text as it stands in a share URI: a backslash before each reserved
/// character.
pub open spec fn escaped(s: Seq<char>) -> Seq<char>
    decreases s.len(),
{
    if s.len() == 0 {
        seq![]
    } else {
        escaped(s.drop_last()) + escaped_char(s.last())
    }
}

/// The text that an escaped one stands for: a backslash gives the character
/// behind it.
pub open spec fn unescaped(s: Seq<char>) -> Seq<char>
    decreases s.len(),
{
    if s.len() == 0 {
        seq![]
    } else if s[0] == '\\' && s.len() > 1 {
        seq![s[1]] + unescaped(s.skip(2))
    } else {
        seq![s[0]] + unescaped(s.skip(1))
    }
}

pub open spec fn security_word(security: ShareSecurity) -> Seq<char> {
    match security {
        ShareSecurity::Wep => "WEP"@,
        ShareSecurity::Wpa => "WPA"@,
        ShareSecurity::Nopass => "nopass"@,
    }
}

/// The share URI of a network. Without a password it names an open network.
pub open spec fn uri_of(
    ssid: Seq<char>,
    security: ShareSecurity,
    password: Option<Seq<char>>,
) -> Seq<char> {
    match password {
        None => "WIFI:T:nopass;S:"@ + escaped(ssid) + ";;"@,
        Some(p) => "WIFI:T:"@ + security_word(security) + ";S:"@ + escaped(ssid) + ";P:"@
            + escaped(p) + ";;"@,
    }
}

/// A text with a backslash before each reserved character.
pub fn escape_wifi(s: &str) -> (r: String)
    ensures
        r@ == escaped(s@),
{
    let v = text::chars_of(s);
    let mut out = String::new();
    let mut i: usize = 0;
    assert(v@.take(0) =~= Seq::<char>::empty());
    while i < v.len()
        invariant
            i <= v@.len(),
            out@ == escaped(v@.take(i as int)),
        decreases v@.len() - i,
    {
        let c = v[i];
        let ghost before = out@;
        assert(v@.take(i + 1).drop_last() =~= v@.take(i as int));
        assert(v@.take(i + 1).last() == c);
        if c == '\\' || c == ';' || c == ',' || c == ':' || c == '"' {
            out.push('\\');
            out.push(c);
            assert(out@ =~= before + seq!['\\', c]);
        } else {
            out.push(c);
            assert(out@ =~= before + seq![c]);
        }
        i += 1;
    }
    assert(v@.take(v@.len() as int) =~= v@);
    out
}

/// The share URI of a network, and whether it carries a password.
pub fn share_uri(ssid: &str, security: ShareSecurity, password: Option<&str>) -> (r: (String, bool))
    ensures
        r.0@ == uri_of(ssid@, security, text::opt_str(password)),
        r.1 == password is Some,
{
    let name = escape_wifi(ssid);
    match password {
        None => (text::cat3("WIFI:T:nopass;S:", name.as_str(), ";;"), false),
        Some(p) => {
            let word = match security {
                ShareSecurity::Wep => "WEP",
                ShareSecurity::Wpa => "WPA",
                ShareSecurity::Nopass => "nopass",
            };
            let secret = escape_wifi(p);
            let mut uri = text::cat4("WIFI:T:", word, ";S:", name.as_str());
            uri.append(";P:");
            uri.append(secret.as_str());
            uri.append(";;");
            (uri, true)
        },
    }
}

proof fn lemma_unescaped_snoc(a: Seq<char>, c: char)
    ensures
        unescaped(escaped(a) + escaped_char(c)) == unescaped(escaped(a)).push(c),
    decreases a.len(),
{
    lemma_escaped_cons(a);
    if a.len() == 0 {
        reveal_with_fuel(unescaped, 2);
        assert(escaped(a) + escaped_char(c) =~= escaped_char(c));
        let e = escaped_char(c);
        if is_reserved(c) {
            assert(e.skip(2) =~= Seq::<char>::empty());
            assert(unescaped(e) =~= seq![c]);
        } else {
            assert(e.skip(1) =~= Seq::<char>::empty());
            assert(unescaped(e) =~= seq![c]);
        }
        assert(unescaped(escaped(a)).push(c) =~= seq![c]);
    } else {
        let tail = a.skip(1);
        lemma_unescaped_snoc(tail, c);
        let head = escaped_char(a[0]);
        let rest = escaped(tail) + escaped_char(c);
        let whole = escaped(a) + escaped_char(c);
        assert(whole =~= head + rest);
        assert(whole.skip(head.len() as int) =~= rest);
        assert(escaped(a).skip(head.len() as int) =~= escaped(tail));
        assert(unescaped(whole) == seq![a[0]] + unescaped(rest));
        assert(unescaped(escaped(a)) == seq![a[0]] + unescaped(escaped(tail)));
        assert(seq![a[0]] + unescaped(escaped(tail)).push(c) =~= (seq![a[0]] + unescaped(
            escaped(tail),
        )).push(c));
    }
}

// Escaping works from the front as well as from the back.
proof fn lemma_escaped_cons(s: Seq<char>)
    ensures
        s.len() > 0 ==> escaped(s) == escaped_char(s[0]) + escaped(s.skip(1)),
    decreases s.len(),
{
    if s.len() == 1 {
        assert(s.drop_last() =~= Seq::<char>::empty());
        assert(s.skip(1) =~= Seq::<char>::empty());
        assert(escaped(s) =~= escaped_char(s[0]) + escaped(s.skip(1)));
    } else if s.len() > 1 {
        let init = s.drop_last();
        lemma_escaped_cons(init);
        assert(s.skip(1).drop_last() =~= init.skip(1));
        assert(escaped(s) =~= escaped_char(s[0]) + escaped(s.skip(1)));
    }
}

/// A name or password is recovered from its escaped form, whatever characters
/// it holds.
pub proof fn unescaping_recovers_the_text(s: Seq<char>)
    ensures
        unescaped(escaped(s)) == s,
    decreases s.len(),
{
    if s.len() > 0 {
        unescaping_recovers_the_text(s.drop_last());
        lemma_unescaped_snoc(s.drop_last(), s.last());
        assert(s.drop_last().push(s.last()) =~= s);
    }
}

/// What a reader takes from a URI up to the next bare semicolon.
pub open spec fn field_text(s: Seq<char>) -> Seq<char>
    decreases s.len(),
{
    if s.len() == 0 || s[0] == ';' {
        seq![]
    } else if s[0] == '\\' && s.len() > 1 {
        seq![s[1]] + field_text(s.skip(2))
    } else {
        seq![s[0]] + field_text(s.skip(1))
    }
}

/// How many characters of a URI stand before the next bare semicolon.
pub open spec fn field_len(s: Seq<char>) -> nat
    decreases s.len(),
{
    if s.len() == 0 || s[0] == ';' {
        0
    } else if s[0] == '\\' && s.len() > 1 {
        2 + field_len(s.skip(2))
    } else {
        1 + field_len(s.skip(1))
    }
}

proof fn lemma_field(x: Seq<char>, rest: Seq<char>)
    requires
        rest.len() > 0,
        rest[0] == ';',
    ensures
        field_text(escaped(x) + rest) == x,
        field_len(escaped(x) + rest) == escaped(x).len(),
    decreases x.len(),
{
    if x.len() == 0 {
        assert(escaped(x) + rest =~= rest);
        assert(field_text(rest) =~= x);
    } else {
        lemma_escaped_cons(x);
        let head = escaped_char(x[0]);
        let tail = x.skip(1);
        lemma_field(tail, rest);
        let whole = escaped(x) + rest;
        assert(whole =~= head + (escaped(tail) + rest));
        assert(whole.skip(head.len() as int) =~= escaped(tail) + rest);
        assert(seq![x[0]] + tail =~= x);
    }
}

/// A reader that unescapes each field up to the next bare semicolon gets back
/// from a share URI exactly the name and the password that went into it.
pub proof fn a_share_uri_gives_back_its_fields(
    ssid: Seq<char>,
    security: ShareSecurity,
    password: Seq<char>,
)
    ensures
        ({
            let uri = uri_of(ssid, security, Some(password));
            let at_name = ("WIFI:T:"@ + security_word(security) + ";S:"@).len() as int;
            let at_secret = at_name + field_len(uri.skip(at_name)) + ";P:"@.len();
            &&& field_text(uri.skip(at_name)) == ssid
            &&& field_text(uri.skip(at_secret)) == password
        }),
        ({
            let uri = uri_of(ssid, security, None);
            field_text(uri.skip("WIFI:T:nopass;S:"@.len() as int)) == ssid
        }),
{
    reveal_strlit(";P:");
    reveal_strlit(";;");
    let front = "WIFI:T:"@ + security_word(security) + ";S:"@;
    let uri = uri_of(ssid, security, Some(password));
    let end = ";;"@;
    let secret = escaped(password) + end;
    let after = ";P:"@ + secret;
    assert(uri.skip(front.len() as int) =~= escaped(ssid) + after);
    lemma_field(ssid, after);
    let at_secret = front.len() + escaped(ssid).len() + ";P:"@.len();
    assert(uri.skip(at_secret as int) =~= secret);
    lemma_field(password, end);
    let open = uri_of(ssid, security, None);
    assert(open.skip("WIFI:T:nopass;S:"@.len() as int) =~= escaped(ssid) + end);
    lemma_field(ssid, end);
}

/// What is sent as the request of a command, if it is one.
pub open spec fn requested_by(command: CommandView) -> Option<RequestView> {
    match command {
        CommandView::Request { request, .. } => Some(request),
        _ => None,
    }
}

impl WifiView {
    /// What waits in the handle to be carried out, oldest first.
    pub open spec fn waiting(self) -> Seq<Option<RequestView>> {
        match self {
            WifiView::Local(queue) => queue.map_values(
                |entry: (CommandView, Instant)| requested_by(entry.0),
            ),
            WifiView::Remote { outbox, .. } => outbox.map_values(
                |entry: (u64, RequestView)| Some(entry.1),
            ),
        }
    }
}

/// To send a request puts exactly this request behind those that wait already,
/// under an id of its own where it goes through the socket.
pub proof fn sending_adds_one_request(wifi: WifiView, request: RequestView, now: Instant)
    ensures
        wifi.sent(request, now).waiting() == wifi.waiting().push(Some(request)),
        wifi is Local <==> wifi.sent(request, now) is Local,
        wifi matches WifiView::Remote { next_id, auto_init, reconnect, outbox } ==> {
            &&& wifi.sent(request, now) matches WifiView::Remote {
                next_id: n,
                auto_init: a,
                reconnect: r,
                outbox: o,
            }
            &&& o.last().0 == next_id
            &&& next_id < u64::MAX ==> n == next_id + 1
            &&& a == auto_init
            &&& r == reconnect
        },
{
    let all = wifi.sent(request, now).waiting();
    assert(all.len() == wifi.waiting().len() + 1);
    assert(all =~= wifi.waiting().push(Some(request)));
}

/// A join without a password is one of an open network, and one with a
/// password hands on exactly this password; both are of the network that was
/// named.
pub proof fn a_join_hands_on_its_password(ssid: Seq<char>, password: Seq<char>)
    ensures
        joining(ssid, password) matches RequestView::JoinWithPassword { ssid: s, password: p }
            ==> s == ssid && p == password && p.len() > 0,
        password.len() > 0 ==> joining(ssid, password) is JoinWithPassword,
        password.len() == 0 ==> joining(ssid, password) == (RequestView::Associate {
            ssid,
            kind: AssociateKindView::Open,
        }),
{
}

/// A join is checked every half second, and for ten seconds in all.
pub proof fn a_join_is_checked_for_ten_seconds()
    ensures
        VERIFY_INTERVAL_MILLIS == 500,
        VERIFY_ATTEMPTS * VERIFY_INTERVAL_MILLIS == 10_000,
{
}

/// Exactly the backslash, the semicolon, the comma, the colon and the quote
/// are escaped, each by one backslash, and any other character stands for
/// itself.
pub proof fn reserved_characters_are_escaped(c: char)
    ensures
        escaped_char(c).last() == c,
        escaped_char(c).len() == 2 <==> seq!['\\', ';', ',', ':', '"'].contains(c),
        escaped_char(c).len() == 1 || escaped_char(c).len() == 2 && escaped_char(c)[0] == '\\',
{
    let all = seq!['\\', ';', ',', ':', '"'];
    assert(all[0] == '\\' && all[1] == ';' && all[2] == ',' && all[3] == ':' && all[4] == '"');
}

/// A URI names its security: without a password none, and otherwise the one
/// that was asked for.
pub proof fn a_share_uri_names_its_security(
    ssid: Seq<char>,
    security: ShareSecurity,
    password: Seq<char>,
)
    ensures
        uri_of(ssid, security, None) == "WIFI:T:nopass;S:"@ + escaped(ssid) + ";;"@,
        uri_of(ssid, ShareSecurity::Wpa, Some(password)) == "WIFI:T:WPA;S:"@ + escaped(ssid)
            + ";P:"@ + escaped(password) + ";;"@,
        uri_of(ssid, ShareSecurity::Wep, Some(password)) == "WIFI:T:WEP;S:"@ + escaped(ssid)
            + ";P:"@ + escaped(password) + ";;"@,
        uri_of(ssid, ShareSecurity::Nopass, Some(password)) == "WIFI:T:nopass;S:"@ + escaped(ssid)
            + ";P:"@ + escaped(password) + ";;"@,
{
    reveal_strlit("WIFI:T:");
    reveal_strlit("WPA");
    reveal_strlit("WEP");
    reveal_strlit("nopass");
    reveal_strlit(";S:");
    reveal_strlit("WIFI:T:WPA;S:");
    reveal_strlit("WIFI:T:WEP;S:");
    reveal_strlit("WIFI:T:nopass;S:");
    assert("WIFI:T:"@ + "WPA"@ + ";S:"@ =~= "WIFI:T:WPA;S:"@);
    assert("WIFI:T:"@ + "WEP"@ + ";S:"@ =~= "WIFI:T:WEP;S:"@);
    assert("WIFI:T:"@ + "nopass"@ + ";S:"@ =~= "WIFI:T:nopass;S:"@);
}

/// The line that records a scan tells success from failure.
pub proof fn a_failed_scan_is_recorded_as_one(
    timings: ScanTimings,
    found: Seq<ScannedNetwork>,
    waiters: nat,
)
    ensures
        scan_line(timings, Some(found), waiters) != scan_line(timings, None, waiters),
{
    reveal_strlit("ok");
    reveal_strlit("error");
    let good = scan_line(timings, Some(found), waiters);
    let bad = scan_line(timings, None, waiters);
    if good == bad {
        assert(good.last() == "ok"@.last());
        assert(bad.last() == "error"@.last());
    }
}

/// The worker begins with the state and the known networks, and never with a
/// scan.
pub proof fn the_worker_begins_without_a_scan()
    ensures
        at_startup().contains(RequestView::RefreshState),
        at_startup().contains(RequestView::RefreshPreferred),
        !at_startup().contains(RequestView::Scan),
        at_startup().len() == 2,
{
    assert(at_startup()[0] is RefreshState);
    assert(at_startup()[1] is RefreshPreferred);
}

/// The line that records a scan tells each part of its time, in milliseconds,
/// and their sum, how many networks it found, how many of them without a name,
/// and how many clients waited.
pub proof fn a_scan_is_recorded_with_its_times(
    timings: ScanTimings,
    found: Seq<ScannedNetwork>,
    waiters: nat,
)
    ensures
        ({
            let ms = |nanos: int| text::decimal((nanos / 1_000_000) as nat);
            let total = timings.queue.nanos + timings.corewlan.nanos + timings.postprocess.nanos;
            let times = "scan queue_ms="@ + ms(timings.queue.nanos as int) + " corewlan_ms="@ + ms(
                timings.corewlan.nanos as int,
            ) + " postprocess_ms="@ + ms(timings.postprocess.nanos as int) + " worker_total_ms="@
                + ms(total);
            &&& scan_line(timings, Some(found), waiters) == times + " networks="@ + text::decimal(
                found.len(),
            ) + " blank_ssids="@ + text::decimal(scan::blank_count(found)) + " waiters="@
                + text::decimal(waiters) + " outcome="@ + "ok"@
            &&& scan_line(timings, None, waiters) == times + " networks="@ + text::decimal(0)
                + " blank_ssids="@ + text::decimal(0) + " waiters="@ + text::decimal(waiters)
                + " outcome="@ + "error"@
        }),
{
}

/// Commands are carried out in the order in which they were queued, and none
/// is lost: what comes next and what is left are together what there was, and
/// a command that is added comes behind all that wait.
pub proof fn commands_are_carried_out_in_order(queue: Seq<Queued>, command: Queued)
    ensures
        oldest_first(queue).0 is None <==> queue.len() == 0,
        oldest_first(queue).0 matches Some(first) ==> seq![first] + oldest_first(queue).1 == queue,
        queue.len() == 0 ==> oldest_first(queue.push(command)).0 == Some(command),
        queue.len() > 0 ==> oldest_first(queue.push(command)) == (
            oldest_first(queue).0,
            oldest_first(queue).1.push(command),
        ),
{
    if queue.len() > 0 {
        assert(seq![queue[0]] + queue.skip(1) =~= queue);
        assert(queue.push(command).skip(1) =~= queue.skip(1).push(command));
    }
}

} // verus!
