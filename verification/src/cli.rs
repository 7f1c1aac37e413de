//! The commands of the command line: what each asks the daemon for, which
//! event ends it, and what it prints.

use vstd::prelude::*;

use crate::client::Terminal;
use crate::corewlan::{self, InterfaceState, ScannedNetwork};
use crate::event::{DaemonDiagnose, Event, EventView, SharePayload};
use crate::signal;
use crate::speedtest::{
    self, LiveMetrics, Metric, ResultView, SpeedtestEvent, SpeedtestEventView, SpeedtestResult,
    SpeedtestServer,
};
use crate::text;
use crate::ui;
use crate::worker::{
    self, Associate, AssociateKind, AssociateKindView, Request, RequestView, ShareSecurity,
};

verus! {

/// A command that goes to the daemon.
#[derive(Debug)]
pub enum Cmd {
    Status,
    Scan,
    Power { on: bool },
    Connect { ssid: String, password: Option<String> },
    ConnectHidden { ssid: String, password: Option<String> },
    ConnectPeap { ssid: String, username: String, password: String },
    Disconnect,
    Preferred,
    Share { ssid: String, security: ShareSecurityArg },
    Forget { ssid: String },
    Diagnose,
}

/// The security of a network, as it is given on the command line.
#[derive(Clone, Copy, Debug, PartialEq, Eq, Structural)]
pub enum ShareSecurityArg {
    Wpa,
    Wep,
    Open,
}

pub open spec fn security_of(arg: ShareSecurityArg) -> ShareSecurity {
    match arg {
        ShareSecurityArg::Wpa => ShareSecurity::Wpa,
        ShareSecurityArg::Wep => ShareSecurity::Wep,
        ShareSecurityArg::Open => ShareSecurity::Nopass,
    }
}

pub fn share_security(arg: ShareSecurityArg) -> (r: ShareSecurity)
    ensures
        r == security_of(arg),
{
    match arg {
        ShareSecurityArg::Wpa => ShareSecurity::Wpa,
        ShareSecurityArg::Wep => ShareSecurity::Wep,
        ShareSecurityArg::Open => ShareSecurity::Nopass,
    }
}

/// What a command asks for.
pub open spec fn request_of(cmd: Cmd) -> RequestView {
    match cmd {
        Cmd::Status => RequestView::RefreshState,
        Cmd::Scan => RequestView::Scan,
        Cmd::Power { on } => RequestView::SetPower(on),
        Cmd::Connect { ssid, password } => match password {
            Some(p) => if p@.len() == 0 {
                RequestView::Associate { ssid: ssid@, kind: AssociateKindView::Open }
            } else {
                RequestView::JoinWithPassword { ssid: ssid@, password: p@ }
            },
            None => RequestView::JoinSaved(ssid@),
        },
        Cmd::ConnectHidden { ssid, password } => RequestView::Associate {
            ssid: ssid@,
            kind: AssociateKindView::Hidden(text::opt_text(password)),
        },
        Cmd::ConnectPeap { ssid, username, password } => RequestView::Associate {
            ssid: ssid@,
            kind: AssociateKindView::Peap { username: username@, password: password@ },
        },
        Cmd::Disconnect => RequestView::Disconnect,
        Cmd::Preferred => RequestView::RefreshPreferred,
        Cmd::Share { ssid, security } => RequestView::Share {
            ssid: ssid@,
            security: security_of(security),
        },
        Cmd::Forget { ssid } => RequestView::Forget(ssid@),
        Cmd::Diagnose => RequestView::Diagnose,
    }
}

/// Which event ends a command.
pub open spec fn terminal_of(cmd: Cmd) -> Terminal {
    match cmd {
        Cmd::Status => Terminal::State,
        Cmd::Scan => Terminal::ScanResult,
        Cmd::Connect { .. } => Terminal::Connect,
        Cmd::Preferred => Terminal::Preferred,
        Cmd::Share { .. } => Terminal::ShareOrError,
        Cmd::Diagnose => Terminal::Diagnose,
        _ => Terminal::NoticeOrError,
    }
}

/// What a command asks for, and which event ends it.
pub fn run_cli(cmd: Cmd) -> (r: (Request, Terminal))
    ensures
        r.0@ == request_of(cmd),
        r.1 == terminal_of(cmd),
{
    match cmd {
        Cmd::Status => (Request::RefreshState, Terminal::State),
        Cmd::Scan => (Request::Scan, Terminal::ScanResult),
        Cmd::Power { on } => (Request::SetPower(on), Terminal::NoticeOrError),
        Cmd::Connect { ssid, password } => match password {
            Some(p) => (worker::join_request(ssid, p), Terminal::Connect),
            None => (Request::JoinSaved(ssid), Terminal::Connect),
        },
        Cmd::ConnectHidden { ssid, password } => (
            Request::Associate(Associate { ssid, kind: AssociateKind::Hidden(password) }),
            Terminal::NoticeOrError,
        ),
        Cmd::ConnectPeap { ssid, username, password } => (
            Request::Associate(
                Associate { ssid, kind: AssociateKind::Peap { username, password } },
            ),
            Terminal::NoticeOrError,
        ),
        Cmd::Disconnect => (Request::Disconnect, Terminal::NoticeOrError),
        Cmd::Preferred => (Request::RefreshPreferred, Terminal::Preferred),
        Cmd::Share { ssid, security } => (
            Request::Share { ssid, security: share_security(security) },
            Terminal::ShareOrError,
        ),
        Cmd::Forget { ssid } => (Request::Forget(ssid), Terminal::NoticeOrError),
        Cmd::Diagnose => (Request::Diagnose, Terminal::Diagnose),
    }
}

/// Something that is printed.
#[derive(Debug)]
pub enum Line {
    Stdout(String),
    Stderr(String),
    /// A line for a transmit rate in Mbit/s, given by the bits of a double.
    Rate(u64),
}

#[verifier::ext_equal]
pub enum LineView {
    Stdout(Seq<char>),
    Stderr(Seq<char>),
    Rate(u64),
}

impl View for Line {
    type V = LineView;

    open spec fn view(&self) -> LineView {
        match *self {
            Line::Stdout(s) => LineView::Stdout(s@),
            Line::Stderr(s) => LineView::Stderr(s@),
            Line::Rate(bits) => LineView::Rate(bits),
        }
    }
}

pub open spec fn line_views(v: Seq<Line>) -> Seq<LineView> {
    Seq::new(v.len(), |i: int| v[i]@)
}

pub open spec fn or_dash(o: Option<String>) -> Seq<char> {
    match o {
        Some(s) => s@,
        None => "-"@,
    }
}

fn dashed(o: &Option<String>) -> (r: String)
    ensures
        r@ == or_dash(*o),
{
    match o {
        Some(s) => s.clone(),
        None => "-".to_owned(),
    }
}

/// What the status command prints.
pub open spec fn status_view(s: InterfaceState) -> Seq<LineView> {
    seq![
        LineView::Stdout("interface : "@ + s.name@),
        LineView::Stdout(
            "powered   : "@ + if s.powered {
                "true"@
            } else {
                "false"@
            },
        ),
        LineView::Stdout("hw addr   : "@ + or_dash(s.hw_address)),
        LineView::Stdout("ssid      : "@ + or_dash(s.ssid)),
        LineView::Stdout("bssid     : "@ + or_dash(s.bssid)),
        LineView::Stdout("rssi      : "@ + text::signed_decimal(s.rssi as int) + " dBm"@),
        LineView::Stdout("noise     : "@ + text::signed_decimal(s.noise as int) + " dBm"@),
        LineView::Rate(s.tx_rate_bits),
        LineView::Stdout(
            "channel   : "@ + match s.channel {
                Some(c) => text::decimal(c as nat),
                None => "-"@,
            },
        ),
    ]
}

fn out2(label: &str, value: &str) -> (r: Line)
    ensures
        r@ == LineView::Stdout(label@ + value@),
{
    Line::Stdout(text::cat2(label, value))
}

/// What the status command prints.
pub fn status_lines(s: &InterfaceState) -> (r: Vec<Line>)
    ensures
        line_views(r@) == status_view(*s),
{
    let mut v: Vec<Line> = Vec::new();
    v.push(out2("interface : ", s.name.as_str()));
    v.push(
        out2(
            "powered   : ",
            if s.powered {
                "true"
            } else {
                "false"
            },
        ),
    );
    v.push(out2("hw addr   : ", dashed(&s.hw_address).as_str()));
    v.push(out2("ssid      : ", dashed(&s.ssid).as_str()));
    v.push(out2("bssid     : ", dashed(&s.bssid).as_str()));
    let rssi = text::signed_text(s.rssi as i128);
    v.push(Line::Stdout(text::cat3("rssi      : ", rssi.as_str(), " dBm")));
    let noise = text::signed_text(s.noise as i128);
    v.push(Line::Stdout(text::cat3("noise     : ", noise.as_str(), " dBm")));
    v.push(Line::Rate(s.tx_rate_bits));
    let channel = match s.channel {
        Some(c) => text::decimal_text(c as u128),
        None => "-".to_owned(),
    };
    v.push(out2("channel   : ", channel.as_str()));
    assert(line_views(v@) =~= status_view(*s));
    v
}

/// A row of the scan table.
pub open spec fn scan_row(
    ssid: Seq<char>,
    rssi: Seq<char>,
    channel: Seq<char>,
    security: Seq<char>,
    bssid: Seq<char>,
) -> Seq<char> {
    text::padded_right(ssid, 32) + "  "@ + text::padded_left(rssi, 5) + "  "@ + text::padded_left(
        channel,
        4,
    ) + "  "@ + text::padded_right(security, 10) + "  "@ + bssid
}

pub open spec fn network_row(n: ScannedNetwork) -> Seq<char> {
    scan_row(
        match n.ssid {
            Some(s) => s@,
            None => "<hidden>"@,
        },
        text::signed_decimal(n.rssi as int),
        match n.channel {
            Some(c) => text::decimal(c as nat),
            None => "?"@,
        },
        ui::label_of(n.security),
        or_dash(n.bssid),
    )
}

/// The scan table: a headline, and the networks, strongest first.
pub open spec fn scan_view(networks: Seq<ScannedNetwork>) -> Seq<Seq<char>> {
    let sorted = signal::strongest_first(networks);
    seq![scan_row("SSID"@, "RSSI"@, "CH"@, "SEC"@, "BSSID"@)] + Seq::new(
        sorted.len(),
        |i: int| network_row(sorted[i]),
    )
}

fn row_text(ssid: &str, rssi: &str, channel: &str, security: &str, bssid: &str) -> (r: String)
    ensures
        r@ == scan_row(ssid@, rssi@, channel@, security@, bssid@),
{
    let mut row = text::pad_right(ssid, 32);
    row.append("  ");
    row.append(text::pad_left(rssi, 5).as_str());
    row.append("  ");
    row.append(text::pad_left(channel, 4).as_str());
    row.append("  ");
    row.append(text::pad_right(security, 10).as_str());
    row.append("  ");
    row.append(bssid);
    row
}

/// What the scan command prints.
pub fn scan_lines(networks: Vec<ScannedNetwork>) -> (r: Vec<String>)
    ensures
        text::texts(r@) == scan_view(networks@),
{
    let ghost input = networks@;
    let sorted = corewlan::sort_networks(networks);
    let mut v: Vec<String> = Vec::new();
    v.push(row_text("SSID", "RSSI", "CH", "SEC", "BSSID"));
    let ghost goal = scan_view(input);
    let mut i: usize = 0;
    while i < sorted.len()
        invariant
            i <= sorted@.len(),
            sorted@ == signal::strongest_first(input),
            goal == scan_view(input),
            v@.len() == i + 1,
            forall|k: int| 0 <= k < v@.len() ==> (#[trigger] v@[k])@ == goal[k],
        decreases sorted@.len() - i,
    {
        let n = &sorted[i];
        let name = match &n.ssid {
            Some(s) => s.as_str(),
            None => "<hidden>",
        };
        let rssi = text::signed_text(n.rssi as i128);
        let channel = match n.channel {
            Some(c) => text::decimal_text(c as u128),
            None => "?".to_owned(),
        };
        let bssid = dashed(&n.bssid);
        v.push(
            row_text(
                name,
                rssi.as_str(),
                channel.as_str(),
                ui::sec_label(n.security),
                bssid.as_str(),
            ),
        );
        assert(goal[i + 1] == network_row(*n));
        i += 1;
    }
    assert(text::texts(v@) =~= goal);
    v
}

/// What is printed of the event that ends a command.
pub open spec fn terminal_view(event: EventView) -> Option<LineView> {
    match event {
        EventView::Notice(s) => Some(LineView::Stdout(s)),
        EventView::Error(s) => Some(LineView::Stderr("error: "@ + s)),
        EventView::JoinSavedFailed { ssid, detail, .. } => Some(
            LineView::Stderr("error: connect to "@ + ssid + " failed: "@ + detail),
        ),
        _ => None,
    }
}

/// What is printed of the last event of a command.
pub fn print_terminal_event(evs: &Vec<Event>) -> (r: Option<Line>)
    ensures
        (match r {
            Some(l) => Some(l@),
            None => None,
        }) == if evs@.len() == 0 {
            None
        } else {
            terminal_view(evs@.last()@)
        },
{
    if evs.len() == 0 {
        return None;
    }
    match &evs[evs.len() - 1] {
        Event::Notice(s) => Some(Line::Stdout(s.clone())),
        Event::Error(s) => Some(Line::Stderr(text::cat2("error: ", s.as_str()))),
        Event::JoinSavedFailed { ssid, reason: _, detail } => Some(
            Line::Stderr(
                text::cat4("error: connect to ", ssid.as_str(), " failed: ", detail.as_str()),
            ),
        ),
        _ => None,
    }
}

/// What a share command has got out of its last event.
pub open spec fn shared_by(last: Option<EventView>) -> Result<(Seq<char>, Seq<char>, bool), Seq<char>> {
    match last {
        Some(EventView::ShareReady { ssid, uri, has_password, .. }) => Ok(
            (ssid, uri, has_password),
        ),
        Some(EventView::Error(m)) => Err(m),
        _ => Err("daemon returned no share payload"@),
    }
}

/// The last event of a list.
pub open spec fn last_of(evs: Seq<Event>) -> Option<EventView> {
    if evs.len() == 0 {
        None
    } else {
        Some(evs.last()@)
    }
}

/// What a share command has got: the payload of its last event, or an error.
pub fn share_outcome(evs: Vec<Event>) -> (r: Result<SharePayload, String>)
    ensures
        match r {
            Ok(p) => shared_by(last_of(evs@)) == Ok::<_, Seq<char>>(
                (p.ssid@, p.uri@, p.has_password),
            ),
            Err(e) => shared_by(last_of(evs@)) == Err::<(Seq<char>, Seq<char>, bool), _>(e@),
        },
        if evs@.len() == 0 {
            r matches Err(e) && e@ == "daemon returned no share payload"@
        } else {
            match evs@.last() {
                Event::ShareReady(p) => r == Ok::<_, String>(p),
                Event::Error(m) => r == Err::<SharePayload, _>(m),
                _ => r matches Err(e) && e@ == "daemon returned no share payload"@,
            }
        },
{
    let mut evs = evs;
    match evs.pop() {
        Some(Event::ShareReady(p)) => Ok(p),
        Some(Event::Error(m)) => Err(m),
        _ => Err("daemon returned no share payload".to_owned()),
    }
}

/// What is printed of the daemon's own environment.
pub open spec fn diagnose_view(d: DaemonDiagnose) -> Seq<Seq<char>> {
    seq![
        "daemon pid        : "@ + text::signed_decimal(d.pid as int),
        "daemon parent pid : "@ + text::signed_decimal(d.parent_pid as int),
        "daemon location   : "@ + text::signed_decimal(d.location_auth_raw as int)
            + "  (0=notDet 1=restr 2=denied 3=always 4=whenInUse)"@,
        "interface         : "@ + d.interface@,
        "current SSID      : "@ + or_dash(d.current_ssid),
        "scan              : "@ + text::decimal(d.scan_count as nat) + " networks, "@
            + text::decimal(d.scan_blank as nat) + " blank"@,
    ]
}

/// What is printed of the daemon's own environment.
pub fn diagnose_lines(d: &DaemonDiagnose) -> (r: Vec<String>)
    ensures
        text::texts(r@) == diagnose_view(*d),
{
    let mut v: Vec<String> = Vec::new();
    let pid = text::signed_text(d.pid as i128);
    v.push(text::cat2("daemon pid        : ", pid.as_str()));
    let parent = text::signed_text(d.parent_pid as i128);
    v.push(text::cat2("daemon parent pid : ", parent.as_str()));
    let auth = text::signed_text(d.location_auth_raw as i128);
    v.push(
        text::cat3(
            "daemon location   : ",
            auth.as_str(),
            "  (0=notDet 1=restr 2=denied 3=always 4=whenInUse)",
        ),
    );
    v.push(text::cat2("interface         : ", d.interface.as_str()));
    let ssid = dashed(&d.current_ssid);
    v.push(text::cat2("current SSID      : ", ssid.as_str()));
    let count = text::decimal_text(d.scan_count as u128);
    let blank = text::decimal_text(d.scan_blank as u128);
    v.push(
        text::cat5(
            "scan              : ",
            count.as_str(),
            " networks, ",
            blank.as_str(),
            " blank",
        ),
    );
    assert(text::texts(v@) =~= diagnose_view(*d));
    v
}

/// Whether a program runs out of an application bundle.
pub fn is_bundled(executable: &str) -> (r: bool)
    ensures
        r == text::find_in(executable@, ".app/Contents/MacOS/"@) is Some,
{
    text::contains(executable, ".app/Contents/MacOS/")
}

/// The name of the server of a speed test, where it has one.
pub open spec fn server_label(server: Option<SpeedtestServer>) -> Option<Seq<char>> {
    match server {
        Some(s) => Some(
            match s.name {
                Some(name) => name@,
                None => or_dash(s.host),
            },
        ),
        None => None,
    }
}

/// A line of the report of a speed test.
#[derive(Debug)]
pub enum ReportLine {
    Text(String),
    /// A label, a value, and its unit. A value that is missing is a dash.
    Value { label: &'static str, value: Option<Metric>, unit: &'static str },
}

#[verifier::ext_equal]
pub enum ReportView {
    Text(Seq<char>),
    Value { label: Seq<char>, value: Option<Metric>, unit: Seq<char> },
}

impl View for ReportLine {
    type V = ReportView;

    open spec fn view(&self) -> ReportView {
        match *self {
            ReportLine::Text(s) => ReportView::Text(s@),
            ReportLine::Value { label, value, unit } => ReportView::Value {
                label: label@,
                value,
                unit: unit@,
            },
        }
    }
}

pub open spec fn report_views(v: Seq<ReportLine>) -> Seq<ReportView> {
    Seq::new(v.len(), |i: int| v[i]@)
}

/// A line that is only there where its value is.
pub open spec fn if_measured(
    label: Seq<char>,
    value: Option<Metric>,
    unit: Seq<char>,
) -> Seq<ReportView> {
    if value is Some {
        seq![ReportView::Value { label, value, unit }]
    } else {
        seq![]
    }
}

/// The report of a speed test.
pub open spec fn report_of(result: SpeedtestResult) -> Seq<ReportView> {
    seq![
        ReportView::Text("provider : "@ + speedtest::provider_name(result.provider)),
        ReportView::Value {
            label: "download : "@,
            value: result.download_mbps,
            unit: " Mbps"@,
        },
        ReportView::Value { label: "upload   : "@, value: result.upload_mbps, unit: " Mbps"@ },
        ReportView::Value { label: "ping     : "@, value: result.ping_ms, unit: " ms"@ },
    ] + if_measured("jitter   : "@, result.jitter_ms, " ms"@) + if_measured(
        "loss     : "@,
        result.packet_loss_percent,
        "%"@,
    ) + match server_label(result.server) {
        Some(label) => seq![ReportView::Text("server   : "@ + label)],
        None => seq![],
    }
}

/// The report of a speed test.
pub fn print_speedtest(result: &SpeedtestResult) -> (r: Vec<ReportLine>)
    ensures
        report_views(r@) == report_of(*result),
{
    let mut v: Vec<ReportLine> = Vec::new();
    v.push(ReportLine::Text(text::cat2("provider : ", result.provider.name())));
    v.push(
        ReportLine::Value { label: "download : ", value: result.download_mbps, unit: " Mbps" },
    );
    v.push(ReportLine::Value { label: "upload   : ", value: result.upload_mbps, unit: " Mbps" });
    v.push(ReportLine::Value { label: "ping     : ", value: result.ping_ms, unit: " ms" });
    if result.jitter_ms.is_some() {
        v.push(ReportLine::Value { label: "jitter   : ", value: result.jitter_ms, unit: " ms" });
    }
    if result.packet_loss_percent.is_some() {
        v.push(
            ReportLine::Value { label: "loss     : ", value: result.packet_loss_percent, unit: "%" },
        );
    }
    if let Some(s) = &result.server {
        let label = match &s.name {
            Some(name) => name.clone(),
            None => dashed(&s.host),
        };
        v.push(ReportLine::Text(text::cat2("server   : ", label.as_str())));
    }
    assert(report_views(v@) =~= report_of(*result));
    v
}

/// What an event of a speed test shows on the terminal.
#[derive(Debug)]
pub enum Render {
    Nothing,
    /// A line of its own.
    Line(String),
    /// Text that replaces the line that is shown.
    Raw(String),
    /// The metrics of the moment, which replace the line that is shown.
    Live { elapsed_ms: u64, live: LiveMetrics },
}

#[verifier::ext_equal]
pub enum RenderView {
    Nothing,
    Line(Seq<char>),
    Raw(Seq<char>),
    Live { elapsed_ms: u64, live: LiveMetrics },
}

impl View for Render {
    type V = RenderView;

    open spec fn view(&self) -> RenderView {
        match *self {
            Render::Nothing => RenderView::Nothing,
            Render::Line(s) => RenderView::Line(s@),
            Render::Raw(s) => RenderView::Raw(s@),
            Render::Live { elapsed_ms, live } => RenderView::Live { elapsed_ms, live },
        }
    }
}

/// What an event of a speed test shows. Only a terminal is written over.
pub open spec fn rendering(event: SpeedtestEventView, live_terminal: bool) -> RenderView {
    match event {
        SpeedtestEventView::Started { provider, .. } => if live_terminal {
            RenderView::Raw(
                "\rTesting with "@ + speedtest::provider_name(provider) + "... 0.0s"@,
            )
        } else {
            RenderView::Line("Testing with "@ + speedtest::provider_name(provider) + "..."@)
        },
        SpeedtestEventView::Progress { elapsed_ms, live, .. } => if live_terminal {
            RenderView::Live { elapsed_ms, live }
        } else {
            RenderView::Nothing
        },
        _ => if live_terminal {
            RenderView::Raw("\r\x1b[2K"@)
        } else {
            RenderView::Nothing
        },
    }
}

pub fn render_speedtest_event(event: &SpeedtestEvent, live_terminal: bool) -> (r: Render)
    ensures
        r@ == rendering(event@, live_terminal),
{
    match event {
        SpeedtestEvent::Started { provider, .. } => {
            if live_terminal {
                Render::Raw(text::cat3("\rTesting with ", provider.name(), "... 0.0s"))
            } else {
                Render::Line(text::cat3("Testing with ", provider.name(), "..."))
            }
        },
        SpeedtestEvent::Progress { elapsed_ms, live, .. } => {
            if live_terminal {
                Render::Live { elapsed_ms: *elapsed_ms, live: *live }
            } else {
                Render::Nothing
            }
        },
        _ => {
            if live_terminal {
                Render::Raw("\r\x1b[2K".to_owned())
            } else {
                Render::Nothing
            }
        },
    }
}

/// The format in which a speed test is written out.
#[derive(Clone, Copy, Debug, PartialEq, Eq, Structural)]
pub enum SpeedtestOutput {
    /// Progress for a reader, and a report at the end.
    Text,
    /// The result alone, as one line of JSON.
    Json,
    /// Every event, as one line of JSON each.
    Jsonl,
}

/// What an event of a speed test gives rise to.
#[derive(Debug)]
pub enum EventOutput<'a> {
    Nothing,
    /// For the reader, on the standard error.
    Shown(Render),
    /// One line of JSON with this event, on the standard output.
    Serialized(&'a SpeedtestEvent),
}

#[verifier::ext_equal]
pub enum EventOutputView {
    Nothing,
    Shown(RenderView),
    Serialized(SpeedtestEventView),
}

impl<'a> View for EventOutput<'a> {
    type V = EventOutputView;

    open spec fn view(&self) -> EventOutputView {
        match *self {
            EventOutput::Nothing => EventOutputView::Nothing,
            EventOutput::Shown(render) => EventOutputView::Shown(render@),
            EventOutput::Serialized(event) => EventOutputView::Serialized(event@),
        }
    }
}

/// What the result of a speed test gives rise to, on the standard output.
#[derive(Debug)]
pub enum ResultOutput<'a> {
    Nothing,
    Report(Vec<ReportLine>),
    /// One line of JSON with this result.
    Serialized(&'a SpeedtestResult),
}

#[verifier::ext_equal]
pub enum ResultOutputView {
    Nothing,
    Report(Seq<ReportView>),
    Serialized(ResultView),
}

impl<'a> View for ResultOutput<'a> {
    type V = ResultOutputView;

    open spec fn view(&self) -> ResultOutputView {
        match *self {
            ResultOutput::Nothing => ResultOutputView::Nothing,
            ResultOutput::Report(lines) => ResultOutputView::Report(report_views(lines@)),
            ResultOutput::Serialized(result) => ResultOutputView::Serialized(result@),
        }
    }
}

/// What an event gives rise to in a format.
pub open spec fn output_of_event(
    format: SpeedtestOutput,
    event: SpeedtestEventView,
    live_terminal: bool,
) -> EventOutputView {
    match format {
        SpeedtestOutput::Text => EventOutputView::Shown(rendering(event, live_terminal)),
        SpeedtestOutput::Json => EventOutputView::Nothing,
        SpeedtestOutput::Jsonl => EventOutputView::Serialized(event),
    }
}

/// What a result gives rise to in a format.
pub open spec fn output_of_result(
    format: SpeedtestOutput,
    result: SpeedtestResult,
) -> ResultOutputView {
    match format {
        SpeedtestOutput::Text => ResultOutputView::Report(report_of(result)),
        SpeedtestOutput::Json => ResultOutputView::Serialized(result@),
        SpeedtestOutput::Jsonl => ResultOutputView::Nothing,
    }
}

/// What an event gives rise to: in text something to show, in JSON nothing,
/// and in JSON lines one line.
pub fn event_output(
    format: SpeedtestOutput,
    event: &SpeedtestEvent,
    live_terminal: bool,
) -> (r: EventOutput<'_>)
    ensures
        r@ == output_of_event(format, event@, live_terminal),
{
    match format {
        SpeedtestOutput::Text => EventOutput::Shown(render_speedtest_event(event, live_terminal)),
        SpeedtestOutput::Json => EventOutput::Nothing,
        SpeedtestOutput::Jsonl => EventOutput::Serialized(event),
    }
}

/// What the result gives rise to: in text the report, in JSON one line, and in
/// JSON lines nothing, since the last event has told it.
pub fn result_output(format: SpeedtestOutput, result: &SpeedtestResult) -> (r: ResultOutput<'_>)
    ensures
        r@ == output_of_result(format, *result),
{
    match format {
        SpeedtestOutput::Text => ResultOutput::Report(print_speedtest(result)),
        SpeedtestOutput::Json => ResultOutput::Serialized(result),
        SpeedtestOutput::Jsonl => ResultOutput::Nothing,
    }
}

/// A line of the standard output of a speed test.
#[verifier::ext_equal]
pub enum PrintedView {
    Report(ReportView),
    Event(SpeedtestEventView),
    Result(ResultView),
}

/// The standard output of a speed test, given its events and, where it did not
/// fail, its result.
pub open spec fn printed(
    format: SpeedtestOutput,
    events: Seq<SpeedtestEventView>,
    result: Option<SpeedtestResult>,
    live_terminal: bool,
) -> Seq<PrintedView>
    decreases events.len(),
{
    if events.len() > 0 {
        (match output_of_event(format, events[0], live_terminal) {
            EventOutputView::Serialized(event) => seq![PrintedView::Event(event)],
            _ => seq![],
        }) + printed(format, events.skip(1), result, live_terminal)
    } else {
        match result {
            Some(result) => match output_of_result(format, result) {
                ResultOutputView::Report(lines) => lines.map_values(
                    |line: ReportView| PrintedView::Report(line),
                ),
                ResultOutputView::Serialized(result) => seq![PrintedView::Result(result)],
                ResultOutputView::Nothing => seq![],
            },
            None => seq![],
        }
    }
}

/// In JSON the result is the only line of the standard output, and a test that
/// fails writes none. In JSON lines there is one line for each event, in their
/// order, and no other. In text there is the report alone.
pub proof fn each_format_has_the_output_to_itself(
    events: Seq<SpeedtestEventView>,
    result: Option<SpeedtestResult>,
    live_terminal: bool,
)
    ensures
        printed(SpeedtestOutput::Json, events, result, live_terminal) == match result {
            Some(result) => seq![PrintedView::Result(result@)],
            None => seq![],
        },
        printed(SpeedtestOutput::Jsonl, events, result, live_terminal) == events.map_values(
            |event: SpeedtestEventView| PrintedView::Event(event),
        ),
        printed(SpeedtestOutput::Text, events, result, live_terminal) == match result {
            Some(result) => report_of(result).map_values(
                |line: ReportView| PrintedView::Report(line),
            ),
            None => seq![],
        },
    decreases events.len(),
{
    let event_line = |event: SpeedtestEventView| PrintedView::Event(event);
    if events.len() > 0 {
        each_format_has_the_output_to_itself(events.skip(1), result, live_terminal);
        assert(events.map_values(event_line) =~= seq![PrintedView::Event(events[0])]
            + events.skip(1).map_values(event_line));
        assert forall|rest: Seq<PrintedView>| #[trigger] (seq![] + rest) == rest by {
            assert(seq![] + rest =~= rest);
        }
    } else {
        assert(events.map_values(event_line) =~= seq![]);
    }
}

/// What is printed of the client's own environment.
pub open spec fn client_view(
    executable: Option<Seq<char>>,
    parent_pid: int,
    status: int,
    socket: Seq<char>,
) -> Seq<Seq<char>> {
    seq!["== macwifi diagnose (client) =="@] + match executable {
        Some(e) => seq![
            "executable        : "@ + e,
            "bundled           : "@ + if text::find_in(e, ".app/Contents/MacOS/"@) is Some {
                "true"@
            } else {
                "false"@
            },
        ],
        None => seq![],
    } + seq![
        "parent pid        : "@ + text::signed_decimal(parent_pid),
        "location auth     : CLAuthorizationStatus("@ + text::signed_decimal(status)
            + ")  (0=notDet 1=restr 2=denied 3=always 4=whenInUse)"@,
        "socket path       : "@ + socket,
        ""@,
        "== macwifi diagnose (daemon) =="@,
    ]
}

/// What is printed of the client's own environment, the Location status among
/// it.
pub fn run_diagnose(executable: Option<&str>, parent_pid: i32, status: i32, socket: &str) -> (r:
    Vec<String>)
    ensures
        text::texts(r@) == client_view(
            text::opt_str(executable),
            parent_pid as int,
            status as int,
            socket@,
        ),
{
    let mut v: Vec<String> = Vec::new();
    v.push("== macwifi diagnose (client) ==".to_owned());
    if let Some(e) = executable {
        v.push(text::cat2("executable        : ", e));
        let bundled = if is_bundled(e) {
            "true"
        } else {
            "false"
        };
        v.push(text::cat2("bundled           : ", bundled));
    }
    let parent = text::signed_text(parent_pid as i128);
    v.push(text::cat2("parent pid        : ", parent.as_str()));
    let raw = text::signed_text(status as i128);
    v.push(
        text::cat3(
            "location auth     : CLAuthorizationStatus(",
            raw.as_str(),
            ")  (0=notDet 1=restr 2=denied 3=always 4=whenInUse)",
        ),
    );
    v.push(text::cat2("socket path       : ", socket));
    v.push("".to_owned());
    v.push("== macwifi diagnose (daemon) ==".to_owned());
    assert(text::texts(v@) =~= client_view(
        text::opt_str(executable),
        parent_pid as int,
        status as int,
        socket@,
    ));
    v
}

/// However an attempt to connect ends, the command ends with it and says so.
pub proof fn a_connect_ends_with_every_outcome(
    ssid: String,
    password: Option<String>,
    event: EventView,
)
    requires
        event is Notice || event is Error || event is JoinSavedFailed,
    ensures
        terminal_of(Cmd::Connect { ssid, password }).ends(event),
        terminal_view(event) is Some,
{
}

/// What a command asks for is of the network that it names, with the
/// credentials that it gives. To connect without a password is to reconnect;
/// with a blank one it is to join an open network; with any other it is to
/// join with exactly that password.
pub proof fn a_command_asks_for_what_it_names(
    ssid: String,
    username: String,
    password: String,
    secret: Option<String>,
    on: bool,
)
    ensures
        request_of(Cmd::Connect { ssid, password: None }) == RequestView::JoinSaved(ssid@),
        password@.len() > 0 ==> request_of(Cmd::Connect { ssid, password: Some(password) }) == (
        RequestView::JoinWithPassword { ssid: ssid@, password: password@ }),
        password@.len() == 0 ==> request_of(Cmd::Connect { ssid, password: Some(password) }) == (
        RequestView::Associate { ssid: ssid@, kind: AssociateKindView::Open }),
        request_of(Cmd::ConnectHidden { ssid, password: secret }) == (RequestView::Associate {
            ssid: ssid@,
            kind: AssociateKindView::Hidden(text::opt_text(secret)),
        }),
        request_of(Cmd::ConnectPeap { ssid, username, password }) == (RequestView::Associate {
            ssid: ssid@,
            kind: AssociateKindView::Peap { username: username@, password: password@ },
        }),
        request_of(Cmd::Forget { ssid }) == RequestView::Forget(ssid@),
        request_of(Cmd::Power { on }) == RequestView::SetPower(on),
        request_of(Cmd::Share { ssid, security: ShareSecurityArg::Wpa }) == (RequestView::Share {
            ssid: ssid@,
            security: ShareSecurity::Wpa,
        }),
        request_of(Cmd::Share { ssid, security: ShareSecurityArg::Wep }) == (RequestView::Share {
            ssid: ssid@,
            security: ShareSecurity::Wep,
        }),
        request_of(Cmd::Share { ssid, security: ShareSecurityArg::Open }) == (RequestView::Share {
            ssid: ssid@,
            security: ShareSecurity::Nopass,
        }),
        request_of(Cmd::Status) is RefreshState,
        request_of(Cmd::Scan) is Scan,
        request_of(Cmd::Disconnect) is Disconnect,
        request_of(Cmd::Preferred) is RefreshPreferred,
        request_of(Cmd::Diagnose) is Diagnose,
{
}

/// Every command ends with an event that answers its request: the state, the
/// networks, the known networks, the code or the diagnosis that was asked for,
/// or else a notice or an error. To connect may also end in a failed
/// reconnect, and to share in an error.
pub proof fn a_command_ends_with_its_answer(cmd: Cmd, event: EventView)
    ensures
        cmd is Status ==> (terminal_of(cmd).ends(event) <==> event is State),
        cmd is Scan ==> (terminal_of(cmd).ends(event) <==> event is ScanResult),
        cmd is Preferred ==> (terminal_of(cmd).ends(event) <==> event is PreferredResult),
        cmd is Diagnose ==> (terminal_of(cmd).ends(event) <==> event is DaemonDiagnose),
        cmd is Share ==> (terminal_of(cmd).ends(event) <==> event is ShareReady || event is Error),
        cmd is Connect ==> (terminal_of(cmd).ends(event) <==> event is Notice || event is Error
            || event is JoinSavedFailed),
        cmd is Power || cmd is ConnectHidden || cmd is ConnectPeap || cmd is Disconnect || cmd
            is Forget ==> (terminal_of(cmd).ends(event) <==> event is Notice || event is Error),
{
}

/// Errors go to the standard error and everything else to the standard output;
/// a failed reconnect names its network and its reason.
pub proof fn errors_are_printed_apart(s: Seq<char>, event: EventView)
    ensures
        terminal_view(EventView::Notice(s)) == Some(LineView::Stdout(s)),
        terminal_view(EventView::Error(s)) == Some(LineView::Stderr("error: "@ + s)),
        event matches EventView::JoinSavedFailed { ssid, reason, detail } ==> terminal_view(event)
            == Some(LineView::Stderr("error: connect to "@ + ssid + " failed: "@ + detail)),
        !(event is Notice || event is Error || event is JoinSavedFailed) ==> terminal_view(event)
            is None,
{
}

/// A share command has got what the last event carries, its error, or nothing.
pub proof fn a_shared_code_is_the_last_event(event: EventView)
    ensures
        event matches EventView::ShareReady { schema_version, ssid, uri, has_password }
            ==> shared_by(Some(event)) == Ok::<_, Seq<char>>((ssid, uri, has_password)),
        event matches EventView::Error(m) ==> shared_by(Some(event)) == Err::<
            (Seq<char>, Seq<char>, bool),
            _,
        >(m),
        shared_by(Some(event)) is Ok <==> event is ShareReady,
        shared_by(None) is Err,
{
}

/// The status command prints each part of the state under its own label, with
/// a dash for what is not known.
pub proof fn each_part_of_the_status_has_its_line(s: InterfaceState)
    ensures
        ({
            let lines = status_view(s);
            let out = |label: Seq<char>, value: Seq<char>| LineView::Stdout(label + value);
            let named = |o: Option<String>|
                if o is Some {
                    o->0@
                } else {
                    "-"@
                };
            &&& lines.len() == 9
            &&& lines[0] == out("interface : "@, s.name@)
            &&& s.powered ==> lines[1] == out("powered   : "@, "true"@)
            &&& !s.powered ==> lines[1] == out("powered   : "@, "false"@)
            &&& lines[2] == out("hw addr   : "@, named(s.hw_address))
            &&& lines[3] == out("ssid      : "@, named(s.ssid))
            &&& lines[4] == out("bssid     : "@, named(s.bssid))
            &&& lines[5] == LineView::Stdout(
                "rssi      : "@ + text::signed_decimal(s.rssi as int) + " dBm"@,
            )
            &&& lines[6] == LineView::Stdout(
                "noise     : "@ + text::signed_decimal(s.noise as int) + " dBm"@,
            )
            &&& lines[7] == LineView::Rate(s.tx_rate_bits)
            &&& s.channel matches Some(c) ==> lines[8] == out(
                "channel   : "@,
                text::decimal(c as nat),
            )
            &&& s.channel is None ==> lines[8] == out("channel   : "@, "-"@)
        }),
{
}

/// The scan table has a headline and one row for each network, strongest
/// first. A row shows the name, the strength, the channel, the security and
/// the address of its network, in columns of fixed width; a short name begins
/// its row.
pub proof fn the_scan_table_shows_every_network(networks: Seq<ScannedNetwork>, i: int)
    requires
        0 <= i < networks.len(),
    ensures
        scan_view(networks).len() == networks.len() + 1,
        exists|sorted: Seq<ScannedNetwork>|
            #![trigger sorted.to_multiset()]
            sorted.to_multiset() == networks.to_multiset() && sorted.len() == networks.len() && (
            forall|a: int, b: int|
                0 <= a < b < sorted.len() ==> (#[trigger] sorted[a]).rssi >= (
                #[trigger] sorted[b]).rssi) && scan_view(networks)[i + 1] == network_row(sorted[i]),
{
    let sorted = signal::strongest_first(networks);
    signal::strongest_first_is_a_stable_sort(networks, 0);
    assert forall|a: int, b: int| 0 <= a < b < sorted.len() implies (#[trigger] sorted[a]).rssi >= (
    #[trigger] sorted[b]).rssi by {
        assert(signal::HasSignal::signal(&sorted[a]) >= signal::HasSignal::signal(&sorted[b]));
    }
    assert(sorted.to_multiset() == networks.to_multiset());
}

/// What a row of the scan table shows of its network.
pub proof fn a_row_shows_its_network(n: ScannedNetwork)
    ensures
        ({
            let name = if n.ssid is Some {
                n.ssid->0@
            } else {
                "<hidden>"@
            };
            let channel = if n.channel is Some {
                text::decimal(n.channel->0 as nat)
            } else {
                "?"@
            };
            let address = if n.bssid is Some {
                n.bssid->0@
            } else {
                "-"@
            };
            &&& network_row(n) == text::padded_right(name, 32) + "  "@ + text::padded_left(
                text::signed_decimal(n.rssi as int),
                5,
            ) + "  "@ + text::padded_left(channel, 4) + "  "@ + text::padded_right(
                ui::label_of(n.security),
                10,
            ) + "  "@ + address
            &&& network_row(n).take(name.len() as int) == name
        }),
{
    let name = if n.ssid is Some {
        n.ssid->0@
    } else {
        "<hidden>"@
    };
    text::padding_keeps_the_text(name, 32);
    let padded = text::padded_right(name, 32);
    assert(padded.take(name.len() as int) == name);
    assert(network_row(n).take(name.len() as int) =~= padded.take(name.len() as int));
}

/// The report names the provider and tells the measured values under their own
/// labels: download, upload and ping always, jitter, loss and the server only
/// where they are known.
pub proof fn the_report_tells_each_value_once(result: SpeedtestResult)
    ensures
        ({
            let lines = report_of(result);
            let value = |label: Seq<char>, value: Option<Metric>, unit: Seq<char>|
                ReportView::Value { label, value, unit };
            let jitter = if result.jitter_ms is Some {
                1int
            } else {
                0int
            };
            let loss = if result.packet_loss_percent is Some {
                1int
            } else {
                0int
            };
            let server = if result.server is Some {
                1int
            } else {
                0int
            };
            &&& lines.len() == 4 + jitter + loss + server
            &&& lines[0] == ReportView::Text(
                "provider : "@ + speedtest::provider_name(result.provider),
            )
            &&& lines[1] == value("download : "@, result.download_mbps, " Mbps"@)
            &&& lines[2] == value("upload   : "@, result.upload_mbps, " Mbps"@)
            &&& lines[3] == value("ping     : "@, result.ping_ms, " ms"@)
            &&& jitter == 1 ==> lines[4] == value("jitter   : "@, result.jitter_ms, " ms"@)
            &&& loss == 1 ==> lines[4 + jitter] == value(
                "loss     : "@,
                result.packet_loss_percent,
                "%"@,
            )
            &&& result.server matches Some(s) ==> {
                &&& s.name matches Some(name) ==> lines.last() == ReportView::Text(
                    "server   : "@ + name@,
                )
                &&& s.name is None && s.host is Some ==> lines.last() == ReportView::Text(
                    "server   : "@ + s.host->0@,
                )
                &&& s.name is None && s.host is None ==> lines.last() == ReportView::Text(
                    "server   : "@ + "-"@,
                )
            }
        }),
{
}

/// What is shown of a run while it goes on: its start always, its progress
/// only on a terminal, where the line is cleared at the end.
pub proof fn progress_is_shown_on_a_terminal(event: SpeedtestEventView)
    ensures
        event matches SpeedtestEventView::Started { schema_version, provider } ==> rendering(
            event,
            false,
        ) == RenderView::Line("Testing with "@ + speedtest::provider_name(provider) + "..."@)
            && rendering(event, true) == RenderView::Raw(
            "\rTesting with "@ + speedtest::provider_name(provider) + "... 0.0s"@,
        ),
        event matches SpeedtestEventView::Progress { schema_version, provider, elapsed_ms, live }
            ==> rendering(event, true) == (RenderView::Live { elapsed_ms, live }) && rendering(
            event,
            false,
        ) is Nothing,
        event is Complete || event is Failed ==> rendering(event, true) == RenderView::Raw(
            "\r\x1b[2K"@,
        ) && rendering(event, false) is Nothing,
{
}

/// The diagnosis prints what the daemon says of itself, each part under its
/// own label.
pub proof fn each_part_of_the_diagnosis_has_its_line(d: DaemonDiagnose)
    ensures
        ({
            let lines = diagnose_view(d);
            &&& lines.len() == 6
            &&& lines[0] == "daemon pid        : "@ + text::signed_decimal(d.pid as int)
            &&& lines[1] == "daemon parent pid : "@ + text::signed_decimal(d.parent_pid as int)
            &&& lines[2] == "daemon location   : "@ + text::signed_decimal(
                d.location_auth_raw as int,
            ) + "  (0=notDet 1=restr 2=denied 3=always 4=whenInUse)"@
            &&& lines[3] == "interface         : "@ + d.interface@
            &&& d.current_ssid matches Some(s) ==> lines[4] == "current SSID      : "@ + s@
            &&& d.current_ssid is None ==> lines[4] == "current SSID      : "@ + "-"@
            &&& lines[5] == "scan              : "@ + text::decimal(d.scan_count as nat)
                + " networks, "@ + text::decimal(d.scan_blank as nat) + " blank"@
        }),
{
}

/// JSON tells the result alone, once; JSON lines tell every event as it comes,
/// and the result only as the last of them; a text shows both.
pub proof fn a_result_is_serialized_once(
    event: SpeedtestEventView,
    result: SpeedtestResult,
    live_terminal: bool,
)
    ensures
        output_of_event(SpeedtestOutput::Json, event, live_terminal) is Nothing,
        output_of_result(SpeedtestOutput::Json, result) == ResultOutputView::Serialized(result@),
        output_of_event(SpeedtestOutput::Jsonl, event, live_terminal)
            == EventOutputView::Serialized(event),
        output_of_result(SpeedtestOutput::Jsonl, result) is Nothing,
        output_of_event(SpeedtestOutput::Text, event, live_terminal) is Shown,
        output_of_result(SpeedtestOutput::Text, result) is Report,
{
}

/// What the client prints of itself is in this order: its program and whether
/// that lies in a bundle, where it is known, its parent, its Location status
/// and the path of the socket; the daemon's part follows.
pub proof fn each_part_of_the_client_has_its_line(
    executable: Option<Seq<char>>,
    parent_pid: int,
    status: int,
    socket: Seq<char>,
)
    ensures
        ({
            let lines = client_view(executable, parent_pid, status, socket);
            let n = if executable is Some {
                3int
            } else {
                1int
            };
            &&& lines.len() == n + 5
            &&& lines[0] == "== macwifi diagnose (client) =="@
            &&& executable matches Some(e) ==> {
                &&& lines[1] == "executable        : "@ + e
                &&& text::find_in(e, ".app/Contents/MacOS/"@) is Some ==> lines[2]
                    == "bundled           : "@ + "true"@
                &&& text::find_in(e, ".app/Contents/MacOS/"@) is None ==> lines[2]
                    == "bundled           : "@ + "false"@
            }
            &&& lines[n] == "parent pid        : "@ + text::signed_decimal(parent_pid)
            &&& lines[n + 1] == "location auth     : CLAuthorizationStatus("@
                + text::signed_decimal(status)
                + ")  (0=notDet 1=restr 2=denied 3=always 4=whenInUse)"@
            &&& lines[n + 2] == "socket path       : "@ + socket
            &&& lines[n + 3] == ""@
            &&& lines[n + 4] == "== macwifi diagnose (daemon) =="@
        }),
{
}

/// Of several events the one that came last counts.
pub proof fn the_last_event_counts(evs: Seq<Event>, event: Event)
    ensures
        last_of(evs.push(event)) == Some(event@),
        last_of(Seq::<Event>::empty()) is None,
{
}

} // verus!
