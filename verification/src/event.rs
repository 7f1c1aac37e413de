//! What the daemon tells its clients.

use vstd::prelude::*;

use crate::corewlan::{self, InterfaceState, ScannedNetwork};
use crate::text;

verus! {

/// Why a reconnect to a saved network failed.
#[derive(Clone, Copy, Debug, PartialEq, Eq, Structural)]
pub enum JoinFailReason {
    /// The network does not answer: out of range, or the radio is off.
    NotInRange,
    /// The association was attempted and did not take effect.
    AssociationFailed,
    /// No password was ever cached for the network.
    NoCachedCredential,
    /// The cached password could not be read.
    KeychainDenied,
}

/// An event that the daemon emits.
#[derive(Debug)]
pub enum Event {
    State(InterfaceState),
    ScanStarted,
    ScanResult(Vec<ScannedNetwork>),
    ScanFailed(String),
    PreferredResult(Vec<String>),
    Notice(String),
    Error(String),
    ShareReady(SharePayload),
    JoinSavedFailed { ssid: String, reason: JoinFailReason, detail: String },
    DaemonDiagnose(DaemonDiagnose),
}

/// A `WIFI:` share URI, ready to be rendered or sent.
#[derive(Debug)]
pub struct SharePayload {
    pub schema_version: u8,
    pub ssid: String,
    pub uri: String,
    pub has_password: bool,
}

/// A snapshot of the daemon's own environment.
#[derive(Debug)]
pub struct DaemonDiagnose {
    pub pid: i32,
    pub parent_pid: i32,
    pub location_auth_raw: i32,
    pub interface: String,
    pub current_ssid: Option<String>,
    pub scan_count: usize,
    pub scan_blank: usize,
}

/// An event, with its texts and lists as mathematical values.
#[verifier::ext_equal]
pub enum EventView {
    State(InterfaceState),
    ScanStarted,
    ScanResult(Seq<ScannedNetwork>),
    ScanFailed(Seq<char>),
    PreferredResult(Seq<Seq<char>>),
    Notice(Seq<char>),
    Error(Seq<char>),
    ShareReady { schema_version: u8, ssid: Seq<char>, uri: Seq<char>, has_password: bool },
    JoinSavedFailed { ssid: Seq<char>, reason: JoinFailReason, detail: Seq<char> },
    DaemonDiagnose {
        pid: i32,
        parent_pid: i32,
        location_auth_raw: i32,
        interface: Seq<char>,
        current_ssid: Option<Seq<char>>,
        scan_count: usize,
        scan_blank: usize,
    },
}

impl View for Event {
    type V = EventView;

    open spec fn view(&self) -> EventView {
        match *self {
            Event::State(s) => EventView::State(s),
            Event::ScanStarted => EventView::ScanStarted,
            Event::ScanResult(n) => EventView::ScanResult(n@),
            Event::ScanFailed(s) => EventView::ScanFailed(s@),
            Event::PreferredResult(v) => EventView::PreferredResult(text::texts(v@)),
            Event::Notice(s) => EventView::Notice(s@),
            Event::Error(s) => EventView::Error(s@),
            Event::ShareReady(p) => EventView::ShareReady {
                schema_version: p.schema_version,
                ssid: p.ssid@,
                uri: p.uri@,
                has_password: p.has_password,
            },
            Event::JoinSavedFailed { ssid, reason, detail } => EventView::JoinSavedFailed {
                ssid: ssid@,
                reason,
                detail: detail@,
            },
            Event::DaemonDiagnose(d) => EventView::DaemonDiagnose {
                pid: d.pid,
                parent_pid: d.parent_pid,
                location_auth_raw: d.location_auth_raw,
                interface: d.interface@,
                current_ssid: text::opt_text(d.current_ssid),
                scan_count: d.scan_count,
                scan_blank: d.scan_blank,
            },
        }
    }
}

/// The events of a list.
pub open spec fn event_views(v: Seq<Event>) -> Seq<EventView> {
    Seq::new(v.len(), |i: int| v[i]@)
}

/// A list of strings, copied unchanged.
pub fn copy_strings(v: &Vec<String>) -> (r: Vec<String>)
    ensures
        r@ == v@,
{
    let r = v.clone();
    proof {
        assert forall|i: int| 0 <= i < v@.len() implies r@[i] == v@[i] by {
            assert(cloned::<String>(v@[i], r@[i]));
        }
        assert(r@ =~= v@);
    }
    r
}

impl Clone for Event {
    fn clone(&self) -> (r: Self)
        ensures
            r@ == self@,
    {
        match self {
            Event::State(s) => Event::State(s.clone()),
            Event::ScanStarted => Event::ScanStarted,
            Event::ScanResult(n) => Event::ScanResult(corewlan::copy_networks(n)),
            Event::ScanFailed(s) => Event::ScanFailed(s.clone()),
            Event::PreferredResult(v) => Event::PreferredResult(copy_strings(v)),
            Event::Notice(s) => Event::Notice(s.clone()),
            Event::Error(s) => Event::Error(s.clone()),
            Event::ShareReady(p) => Event::ShareReady(
                SharePayload {
                    schema_version: p.schema_version,
                    ssid: p.ssid.clone(),
                    uri: p.uri.clone(),
                    has_password: p.has_password,
                },
            ),
            Event::JoinSavedFailed { ssid, reason, detail } => Event::JoinSavedFailed {
                ssid: ssid.clone(),
                reason: *reason,
                detail: detail.clone(),
            },
            Event::DaemonDiagnose(d) => Event::DaemonDiagnose(
                DaemonDiagnose {
                    pid: d.pid,
                    parent_pid: d.parent_pid,
                    location_auth_raw: d.location_auth_raw,
                    interface: d.interface.clone(),
                    current_ssid: d.current_ssid.clone(),
                    scan_count: d.scan_count,
                    scan_blank: d.scan_blank,
                },
            ),
        }
    }
}

} // verus!
