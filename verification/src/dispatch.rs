//! How the worker carries out one request, step by step.
//!
//! [`dispatch`] gives the first step of a request and [`resume`] the step that
//! follows the reply to an action. The thread that owns the hardware reports
//! the events of a step, performs its action, and asks for the next step.

use vstd::prelude::*;

use crate::corewlan::{InterfaceState, ScannedNetwork, Security};
use crate::event::{self, DaemonDiagnose, Event, EventView, JoinFailReason, SharePayload};
use crate::keychain::{self, KeychainError};
use crate::location::LocationAuth;
use crate::scan;
use crate::signal;
use crate::text;
use crate::worker::{
    self, AssociateKind, AssociateKindView, CommandView, JoinKind, JoinKindView, Origin, Request,
    RequestView, ScanTimings, ShareSecurity, WorkerCommand, WorkerEvent,
};

verus! {

/// One thing to do with the hardware, the system tools or the keychain.
#[derive(Debug)]
pub enum Action {
    SetPower { on: bool },
    NetworksetupPower { on: bool },
    AssociateOpen { ssid: String },
    AssociatePsk { ssid: String, password: String },
    AssociatePeap { ssid: String, username: String, password: String },
    /// Scan for networks of one name.
    DirectedScan { ssid: String },
    /// Scan for everything in range.
    FullScan,
    Disassociate,
    ReadState,
    ListPreferred,
    RemovePreferred { ssid: String },
    /// Let the system join a network; without a password it looks for one of
    /// its own.
    SetAirportNetwork { ssid: String, password: Option<String> },
    CachePassword { ssid: String, password: String },
    ReadCached { ssid: String },
    ForgetCached { ssid: String },
    /// Read the system's own item, which asks the user for authorization.
    ReadSystemPassword { ssid: String },
    /// Read what the process and its interface are called.
    Identify,
}

/// What came of an action.
#[derive(Debug)]
pub enum Reply {
    Done(Result<(), String>),
    Networks(Result<Vec<ScannedNetwork>, String>),
    State(Result<InterfaceState, String>),
    Names(Result<Vec<String>, String>),
    Secret(Result<Vec<u8>, KeychainError>),
    Identity { pid: i32, parent_pid: i32, location_auth_raw: i32, interface: String },
}

/// What a request waits for.
#[derive(Debug)]
pub enum Pending {
    Power { on: bool },
    PowerFallback { on: bool, corewlan_error: String },
    HiddenScan { ssid: String, secret: Option<String> },
    Association { ssid: String },
    JoinAccepted { ssid: String, password: String },
    JoinCached { ssid: String },
    Verify { ssid: String, kind: JoinKind, attempts: u8 },
    SavedScan { ssid: String },
    SavedAssociate { ssid: String, fail_detail: String },
    SavedCache { ssid: String },
    SavedAutoJoin { ssid: String },
    SavedPoisoned { ssid: String, detail: String },
    Disconnected,
    ShareCache { ssid: String, security: ShareSecurity },
    ShareSystem { ssid: String, security: ShareSecurity },
    ShareStore { ssid: String, security: ShareSecurity, password: String },
    ForgetCache { ssid: String },
    ForgetRemoved { ssid: String },
    /// The state is read once more and reported; then, perhaps, the preferred
    /// networks.
    Refresh { preferred: bool },
    Preferred,
    DirectScan,
    DiagnoseState,
    DiagnoseScan { state: Option<(String, Option<String>)> },
    DiagnoseIdentity {
        state: Option<(String, Option<String>)>,
        scan_count: usize,
        scan_blank: usize,
    },
}

/// A check of a join that is due after one interval.
#[derive(Debug)]
pub struct Verification {
    pub ssid: String,
    pub kind: JoinKind,
    pub attempts_remaining: u8,
}

/// One step of a request.
#[derive(Debug)]
pub struct Step {
    /// To be reported, in this order, before the action.
    pub events: Vec<Event>,
    pub verify: Option<Verification>,
    /// The action to perform and what to remember until its reply; none where
    /// the request is finished for now.
    pub next: Option<(Action, Pending)>,
}

// ---------------------------------------------------------------------------
// Views.
// ---------------------------------------------------------------------------

#[verifier::ext_equal]
pub enum ActionView {
    SetPower { on: bool },
    NetworksetupPower { on: bool },
    AssociateOpen { ssid: Seq<char> },
    AssociatePsk { ssid: Seq<char>, password: Seq<char> },
    AssociatePeap { ssid: Seq<char>, username: Seq<char>, password: Seq<char> },
    DirectedScan { ssid: Seq<char> },
    FullScan,
    Disassociate,
    ReadState,
    ListPreferred,
    RemovePreferred { ssid: Seq<char> },
    SetAirportNetwork { ssid: Seq<char>, password: Option<Seq<char>> },
    CachePassword { ssid: Seq<char>, password: Seq<char> },
    ReadCached { ssid: Seq<char> },
    ForgetCached { ssid: Seq<char> },
    ReadSystemPassword { ssid: Seq<char> },
    Identify,
}

#[verifier::ext_equal]
pub enum PendingView {
    Power { on: bool },
    PowerFallback { on: bool, corewlan_error: Seq<char> },
    HiddenScan { ssid: Seq<char>, secret: Option<Seq<char>> },
    Association { ssid: Seq<char> },
    JoinAccepted { ssid: Seq<char>, password: Seq<char> },
    JoinCached { ssid: Seq<char> },
    Verify { ssid: Seq<char>, kind: JoinKindView, attempts: u8 },
    SavedScan { ssid: Seq<char> },
    SavedAssociate { ssid: Seq<char>, fail_detail: Seq<char> },
    SavedCache { ssid: Seq<char> },
    SavedAutoJoin { ssid: Seq<char> },
    SavedPoisoned { ssid: Seq<char>, detail: Seq<char> },
    Disconnected,
    ShareCache { ssid: Seq<char>, security: ShareSecurity },
    ShareSystem { ssid: Seq<char>, security: ShareSecurity },
    ShareStore { ssid: Seq<char>, security: ShareSecurity, password: Seq<char> },
    ForgetCache { ssid: Seq<char> },
    ForgetRemoved { ssid: Seq<char> },
    Refresh { preferred: bool },
    Preferred,
    DirectScan,
    DiagnoseState,
    DiagnoseScan { state: Option<(Seq<char>, Option<Seq<char>>)> },
    DiagnoseIdentity {
        state: Option<(Seq<char>, Option<Seq<char>>)>,
        scan_count: usize,
        scan_blank: usize,
    },
}

#[verifier::ext_equal]
pub struct VerificationView {
    pub ssid: Seq<char>,
    pub kind: JoinKindView,
    pub attempts_remaining: u8,
}

#[verifier::ext_equal]
pub struct StepView {
    pub events: Seq<EventView>,
    pub verify: Option<VerificationView>,
    pub next: Option<(ActionView, PendingView)>,
}

impl View for Action {
    type V = ActionView;

    open spec fn view(&self) -> ActionView {
        match *self {
            Action::SetPower { on } => ActionView::SetPower { on },
            Action::NetworksetupPower { on } => ActionView::NetworksetupPower { on },
            Action::AssociateOpen { ssid } => ActionView::AssociateOpen { ssid: ssid@ },
            Action::AssociatePsk { ssid, password } => ActionView::AssociatePsk {
                ssid: ssid@,
                password: password@,
            },
            Action::AssociatePeap { ssid, username, password } => ActionView::AssociatePeap {
                ssid: ssid@,
                username: username@,
                password: password@,
            },
            Action::DirectedScan { ssid } => ActionView::DirectedScan { ssid: ssid@ },
            Action::FullScan => ActionView::FullScan,
            Action::Disassociate => ActionView::Disassociate,
            Action::ReadState => ActionView::ReadState,
            Action::ListPreferred => ActionView::ListPreferred,
            Action::RemovePreferred { ssid } => ActionView::RemovePreferred { ssid: ssid@ },
            Action::SetAirportNetwork { ssid, password } => ActionView::SetAirportNetwork {
                ssid: ssid@,
                password: text::opt_text(password),
            },
            Action::CachePassword { ssid, password } => ActionView::CachePassword {
                ssid: ssid@,
                password: password@,
            },
            Action::ReadCached { ssid } => ActionView::ReadCached { ssid: ssid@ },
            Action::ForgetCached { ssid } => ActionView::ForgetCached { ssid: ssid@ },
            Action::ReadSystemPassword { ssid } => ActionView::ReadSystemPassword { ssid: ssid@ },
            Action::Identify => ActionView::Identify,
        }
    }
}

/// The name and the network of an interface.
pub open spec fn state_view(state: Option<(String, Option<String>)>) -> Option<
    (Seq<char>, Option<Seq<char>>),
> {
    match state {
        Some(s) => Some((s.0@, text::opt_text(s.1))),
        None => None,
    }
}

impl View for Pending {
    type V = PendingView;

    open spec fn view(&self) -> PendingView {
        match *self {
            Pending::Power { on } => PendingView::Power { on },
            Pending::PowerFallback { on, corewlan_error } => PendingView::PowerFallback {
                on,
                corewlan_error: corewlan_error@,
            },
            Pending::HiddenScan { ssid, secret } => PendingView::HiddenScan {
                ssid: ssid@,
                secret: text::opt_text(secret),
            },
            Pending::Association { ssid } => PendingView::Association { ssid: ssid@ },
            Pending::JoinAccepted { ssid, password } => PendingView::JoinAccepted {
                ssid: ssid@,
                password: password@,
            },
            Pending::JoinCached { ssid } => PendingView::JoinCached { ssid: ssid@ },
            Pending::Verify { ssid, kind, attempts } => PendingView::Verify {
                ssid: ssid@,
                kind: kind@,
                attempts,
            },
            Pending::SavedScan { ssid } => PendingView::SavedScan { ssid: ssid@ },
            Pending::SavedAssociate { ssid, fail_detail } => PendingView::SavedAssociate {
                ssid: ssid@,
                fail_detail: fail_detail@,
            },
            Pending::SavedCache { ssid } => PendingView::SavedCache { ssid: ssid@ },
            Pending::SavedAutoJoin { ssid } => PendingView::SavedAutoJoin { ssid: ssid@ },
            Pending::SavedPoisoned { ssid, detail } => PendingView::SavedPoisoned {
                ssid: ssid@,
                detail: detail@,
            },
            Pending::Disconnected => PendingView::Disconnected,
            Pending::ShareCache { ssid, security } => PendingView::ShareCache {
                ssid: ssid@,
                security,
            },
            Pending::ShareSystem { ssid, security } => PendingView::ShareSystem {
                ssid: ssid@,
                security,
            },
            Pending::ShareStore { ssid, security, password } => PendingView::ShareStore {
                ssid: ssid@,
                security,
                password: password@,
            },
            Pending::ForgetCache { ssid } => PendingView::ForgetCache { ssid: ssid@ },
            Pending::ForgetRemoved { ssid } => PendingView::ForgetRemoved { ssid: ssid@ },
            Pending::Refresh { preferred } => PendingView::Refresh { preferred },
            Pending::Preferred => PendingView::Preferred,
            Pending::DirectScan => PendingView::DirectScan,
            Pending::DiagnoseState => PendingView::DiagnoseState,
            Pending::DiagnoseScan { state } => PendingView::DiagnoseScan {
                state: state_view(state),
            },
            Pending::DiagnoseIdentity { state, scan_count, scan_blank } =>
                PendingView::DiagnoseIdentity { state: state_view(state), scan_count, scan_blank },
        }
    }
}

impl View for Verification {
    type V = VerificationView;

    open spec fn view(&self) -> VerificationView {
        VerificationView {
            ssid: self.ssid@,
            kind: self.kind@,
            attempts_remaining: self.attempts_remaining,
        }
    }
}

impl View for Step {
    type V = StepView;

    open spec fn view(&self) -> StepView {
        StepView {
            events: event::event_views(self.events@),
            verify: match self.verify {
                Some(v) => Some(v@),
                None => None,
            },
            next: match self.next {
                Some(n) => Some((n.0@, n.1@)),
                None => None,
            },
        }
    }
}

// ---------------------------------------------------------------------------
// What each step is.
// ---------------------------------------------------------------------------

/// A step that only asks for an action.
pub open spec fn asks(action: ActionView, pending: PendingView) -> StepView {
    StepView { events: seq![], verify: None, next: Some((action, pending)) }
}

/// A step that reports and then asks for an action.
pub open spec fn says_and_asks(
    event: EventView,
    action: ActionView,
    pending: PendingView,
) -> StepView {
    StepView { events: seq![event], verify: None, next: Some((action, pending)) }
}

/// A step that reports and finishes the request.
pub open spec fn says(events: Seq<EventView>) -> StepView {
    StepView { events, verify: None, next: None }
}

/// A step that reports an outcome and then reads the state once more.
pub open spec fn concludes(event: EventView, preferred: bool) -> StepView {
    says_and_asks(event, ActionView::ReadState, PendingView::Refresh { preferred })
}

/// The notice that a network is joined.
pub open spec fn connected_to(ssid: Seq<char>) -> EventView {
    EventView::Notice("connected to "@ + ssid)
}

pub open spec fn power_word(on: bool) -> Seq<char> {
    if on {
        "on"@
    } else {
        "off"@
    }
}

pub open spec fn join_failed(
    ssid: Seq<char>,
    reason: JoinFailReason,
    detail: Seq<char>,
) -> EventView {
    EventView::JoinSavedFailed { ssid, reason, detail }
}

/// The payload that answers a share request.
pub open spec fn share_ready(
    ssid: Seq<char>,
    security: ShareSecurity,
    password: Option<Seq<char>>,
) -> EventView {
    EventView::ShareReady {
        schema_version: 1,
        ssid,
        uri: worker::uri_of(ssid, security, password),
        has_password: password is Some,
    }
}

/// The first step of a request.
pub open spec fn dispatched(request: RequestView) -> StepView {
    match request {
        RequestView::RefreshState => asks(
            ActionView::ReadState,
            PendingView::Refresh { preferred: false },
        ),
        RequestView::RefreshPreferred => asks(ActionView::ListPreferred, PendingView::Preferred),
        RequestView::Scan => says_and_asks(
            EventView::ScanStarted,
            ActionView::FullScan,
            PendingView::DirectScan,
        ),
        RequestView::SetPower(on) => asks(ActionView::SetPower { on }, PendingView::Power { on }),
        RequestView::Associate { ssid, kind } => match kind {
            AssociateKindView::Open => asks(
                ActionView::AssociateOpen { ssid },
                PendingView::Association { ssid },
            ),
            AssociateKindView::Psk(password) => asks(
                ActionView::AssociatePsk { ssid, password },
                PendingView::Association { ssid },
            ),
            AssociateKindView::Peap { username, password } => asks(
                ActionView::AssociatePeap { ssid, username, password },
                PendingView::Association { ssid },
            ),
            AssociateKindView::Hidden(password) => asks(
                ActionView::DirectedScan { ssid },
                PendingView::HiddenScan { ssid, secret: password },
            ),
        },
        RequestView::JoinWithPassword { ssid, password } => asks(
            ActionView::SetAirportNetwork { ssid, password: Some(password) },
            PendingView::JoinAccepted { ssid, password },
        ),
        RequestView::JoinSaved(ssid) => asks(
            ActionView::DirectedScan { ssid },
            PendingView::SavedScan { ssid },
        ),
        RequestView::Disconnect => asks(ActionView::Disassociate, PendingView::Disconnected),
        RequestView::Share { ssid, security } => if security == ShareSecurity::Nopass {
            says(seq![share_ready(ssid, security, None)])
        } else {
            asks(ActionView::ReadCached { ssid }, PendingView::ShareCache { ssid, security })
        },
        RequestView::Forget(ssid) => asks(
            ActionView::ForgetCached { ssid },
            PendingView::ForgetCache { ssid },
        ),
        RequestView::Diagnose => asks(ActionView::ReadState, PendingView::DiagnoseState),
    }
}

/// The interface says that it is on the network `ssid`.
pub open spec fn is_on(state: Result<InterfaceState, String>, ssid: Seq<char>) -> bool {
    match state {
        Ok(s) => text::opt_text(s.ssid) == Some(ssid),
        Err(_) => false,
    }
}

/// The step after a check of a join. A confirmed join is announced. One that
/// is not confirmed is checked again as long as checks remain; after the last
/// one a typed password may still work, and a saved network has failed.
pub open spec fn verified(
    ssid: Seq<char>,
    kind: JoinKindView,
    attempts: u8,
    state: Result<InterfaceState, String>,
) -> StepView {
    if is_on(state, ssid) {
        concludes(connected_to(ssid), false)
    } else if attempts > 1 {
        StepView {
            events: seq![],
            verify: Some(
                VerificationView { ssid, kind, attempts_remaining: (attempts - 1) as u8 },
            ),
            next: None,
        }
    } else {
        match kind {
            JoinKindView::Password => concludes(
                EventView::Notice(
                    "join to "@ + ssid
                        + " sent — association not yet confirmed, it may still complete"@,
                ),
                false,
            ),
            JoinKindView::Saved { fail_detail } => concludes(
                join_failed(ssid, JoinFailReason::AssociationFailed, fail_detail),
                false,
            ),
        }
    }
}

/// What a scan reports: its networks, strongest first, with the diagnostic
/// where every name is blank; or that it failed.
pub open spec fn scan_report(
    result: Result<Vec<ScannedNetwork>, String>,
    auth: LocationAuth,
) -> Seq<EventView> {
    match result {
        Ok(networks) => {
            let sorted = signal::strongest_first(networks@);
            match scan::diagnostic_of(sorted, auth) {
                Some(d) => seq![EventView::ScanResult(sorted), EventView::Error(d)],
                None => seq![EventView::ScanResult(sorted)],
            }
        },
        Err(e) => seq![EventView::ScanFailed("scan failed: "@ + e@)],
    }
}

/// The step after a reply. A reply that nothing waits for ends the request.
pub open spec fn resumed(pending: PendingView, reply: Reply, auth: LocationAuth) -> StepView {
    match (pending, reply) {
        (PendingView::Power { on }, Reply::Done(result)) => match result {
            Ok(_) => concludes(EventView::Notice("Wi-Fi "@ + power_word(on)), false),
            Err(e) => asks(
                ActionView::NetworksetupPower { on },
                PendingView::PowerFallback { on, corewlan_error: e@ },
            ),
        },
        (PendingView::PowerFallback { on, corewlan_error }, Reply::Done(result)) => match result {
            Ok(_) => concludes(EventView::Notice("Wi-Fi "@ + power_word(on)), false),
            Err(e) => concludes(
                EventView::Error(
                    "power toggle failed: CoreWLAN="@ + corewlan_error + "; networksetup="@ + e@,
                ),
                false,
            ),
        },
        (PendingView::HiddenScan { ssid, secret }, Reply::Networks(result)) => match result {
            Ok(_) => match secret {
                Some(p) => asks(
                    ActionView::AssociatePsk { ssid, password: p },
                    PendingView::Association { ssid },
                ),
                None => asks(
                    ActionView::AssociateOpen { ssid },
                    PendingView::Association { ssid },
                ),
            },
            Err(e) => concludes(EventView::Error("connect failed: "@ + e@), true),
        },
        (PendingView::Association { ssid }, Reply::Done(result)) => match result {
            Ok(_) => concludes(connected_to(ssid), true),
            Err(e) => concludes(EventView::Error("connect failed: "@ + e@), true),
        },
        (PendingView::JoinAccepted { ssid, password }, Reply::Done(result)) => match result {
            Ok(_) => asks(
                ActionView::CachePassword { ssid, password },
                PendingView::JoinCached { ssid },
            ),
            Err(e) => concludes(EventView::Error("join failed: "@ + e@), false),
        },
        (PendingView::JoinCached { ssid }, Reply::Done(_)) => asks(
            ActionView::ReadState,
            PendingView::Verify {
                ssid,
                kind: JoinKindView::Password,
                attempts: worker::VERIFY_ATTEMPTS,
            },
        ),
        (PendingView::Verify { ssid, kind, attempts }, Reply::State(result)) => verified(
            ssid,
            kind,
            attempts,
            result,
        ),
        (PendingView::SavedScan { ssid }, Reply::Networks(result)) => match result {
            Err(e) => concludes(
                join_failed(
                    ssid,
                    JoinFailReason::NotInRange,
                    "directed scan failed: "@ + e@,
                ),
                false,
            ),
            Ok(networks) => if networks@.len() == 0 {
                concludes(
                    join_failed(
                        ssid,
                        JoinFailReason::NotInRange,
                        "network not visible in scan"@,
                    ),
                    false,
                )
            } else if networks@[0].security == Security::Open {
                asks(
                    ActionView::AssociateOpen { ssid },
                    PendingView::SavedAssociate {
                        ssid,
                        fail_detail: "open associate did not take effect"@,
                    },
                )
            } else {
                asks(ActionView::ReadCached { ssid }, PendingView::SavedCache { ssid })
            },
        },
        (PendingView::SavedAssociate { ssid, fail_detail }, Reply::Done(result)) => match result {
            Ok(_) => asks(
                ActionView::ReadState,
                PendingView::Verify {
                    ssid,
                    kind: JoinKindView::Saved { fail_detail },
                    attempts: worker::VERIFY_ATTEMPTS,
                },
            ),
            Err(_) => concludes(
                join_failed(ssid, JoinFailReason::AssociationFailed, fail_detail),
                false,
            ),
        },
        (PendingView::SavedCache { ssid }, Reply::Secret(result)) => match keychain::cached_outcome(result, ssid) {
            Ok(Some(password)) => asks(
                ActionView::AssociatePsk { ssid, password },
                PendingView::SavedAssociate {
                    ssid,
                    fail_detail: "cached password did not associate"@,
                },
            ),
            Ok(None) => asks(
                ActionView::SetAirportNetwork { ssid, password: None },
                PendingView::SavedAutoJoin { ssid },
            ),
            Err(detail) => asks(
                ActionView::ForgetCached { ssid },
                PendingView::SavedPoisoned { ssid, detail },
            ),
        },
        (PendingView::SavedAutoJoin { ssid }, Reply::Done(result)) => match result {
            Ok(_) => asks(
                ActionView::ReadState,
                PendingView::Verify {
                    ssid,
                    kind: JoinKindView::Saved {
                        fail_detail: "no saved credential in macwifi cache"@,
                    },
                    attempts: worker::VERIFY_ATTEMPTS,
                },
            ),
            Err(_) => concludes(
                join_failed(
                    ssid,
                    JoinFailReason::NoCachedCredential,
                    "no saved credential in macwifi cache"@,
                ),
                false,
            ),
        },
        (PendingView::SavedPoisoned { ssid, detail }, Reply::Done(_)) => concludes(
            join_failed(ssid, JoinFailReason::KeychainDenied, detail),
            false,
        ),
        (PendingView::Disconnected, Reply::Done(_)) => concludes(EventView::Notice("disconnected"@), false),
        (PendingView::ShareCache { ssid, security }, Reply::Secret(result)) => match result {
            Ok(bytes) => says(seq![share_ready(ssid, security, Some(text::lossy_text(bytes@)))]),
            Err(_) => asks(
                ActionView::ReadSystemPassword { ssid },
                PendingView::ShareSystem { ssid, security },
            ),
        },
        (PendingView::ShareSystem { ssid, security }, Reply::Secret(result)) => match result {
            Ok(bytes) => asks(
                ActionView::CachePassword { ssid, password: text::lossy_text(bytes@) },
                PendingView::ShareStore { ssid, security, password: text::lossy_text(bytes@) },
            ),
            Err(_) => says(
                seq![
                    EventView::Error(
                        "keychain: "@ + ("system keychain lookup for "@ + ssid)
                            + " — sharing SSID only"@,
                    ),
                    share_ready(ssid, security, None),
                ],
            ),
        },
        (PendingView::ShareStore { ssid, security, password }, Reply::Done(_)) => says(
            seq![share_ready(ssid, security, Some(password))],
        ),
        (PendingView::ForgetCache { ssid }, Reply::Done(_)) => asks(
            ActionView::RemovePreferred { ssid },
            PendingView::ForgetRemoved { ssid },
        ),
        (PendingView::ForgetRemoved { ssid }, Reply::Done(result)) => match result {
            Ok(_) => says_and_asks(
                EventView::Notice("forgot "@ + ssid),
                ActionView::ListPreferred,
                PendingView::Preferred,
            ),
            Err(e) => says_and_asks(
                EventView::Error("forget failed: "@ + e@),
                ActionView::ListPreferred,
                PendingView::Preferred,
            ),
        },
        (PendingView::Refresh { preferred }, Reply::State(result)) => {
            let event = match result {
                Ok(s) => EventView::State(s),
                Err(e) => EventView::Error("state refresh failed: "@ + e@),
            };
            if preferred {
                says_and_asks(event, ActionView::ListPreferred, PendingView::Preferred)
            } else {
                says(seq![event])
            }
        },
        (PendingView::Preferred, Reply::Names(result)) => match result {
            Ok(v) => says(seq![EventView::PreferredResult(text::texts(v@))]),
            Err(e) => says(seq![EventView::Error("preferred list failed: "@ + e@)]),
        },
        (PendingView::DirectScan, Reply::Networks(result)) => says(scan_report(result, auth)),
        (PendingView::DiagnoseState, Reply::State(result)) => asks(
            ActionView::FullScan,
            PendingView::DiagnoseScan {
                state: match result {
                    Ok(s) => Some((s.name@, text::opt_text(s.ssid))),
                    Err(_) => None,
                },
            },
        ),
        (PendingView::DiagnoseScan { state }, Reply::Networks(result)) => asks(
            ActionView::Identify,
            PendingView::DiagnoseIdentity {
                state,
                scan_count: match result {
                    Ok(n) => n@.len() as usize,
                    Err(_) => 0,
                },
                scan_blank: match result {
                    Ok(n) => scan::blank_count(n@) as usize,
                    Err(_) => 0,
                },
            },
        ),
        (
            PendingView::DiagnoseIdentity { state, scan_count, scan_blank },
            Reply::Identity { pid, parent_pid, location_auth_raw, interface },
        ) => says(
            seq![
                EventView::DaemonDiagnose {
                    pid,
                    parent_pid,
                    location_auth_raw,
                    interface: match state {
                        Some(s) => s.0,
                        None => interface@,
                    },
                    current_ssid: match state {
                        Some(s) => s.1,
                        None => None,
                    },
                    scan_count,
                    scan_blank,
                },
            ],
        ),
        _ => says(seq![]),
    }
}

// ---------------------------------------------------------------------------
// The steps themselves.
// ---------------------------------------------------------------------------

fn ask(action: Action, pending: Pending) -> (r: Step)
    ensures
        r@ == asks(action@, pending@),
{
    let r = Step { events: Vec::new(), verify: None, next: Some((action, pending)) };
    assert(r@.events =~= seq![]);
    r
}

fn say_and_ask(event: Event, action: Action, pending: Pending) -> (r: Step)
    ensures
        r@ == says_and_asks(event@, action@, pending@),
{
    let mut events: Vec<Event> = Vec::new();
    events.push(event);
    let r = Step { events, verify: None, next: Some((action, pending)) };
    assert(r@.events =~= seq![event@]);
    r
}

fn say(event: Event) -> (r: Step)
    ensures
        r@ == says(seq![event@]),
{
    let mut events: Vec<Event> = Vec::new();
    events.push(event);
    let r = Step { events, verify: None, next: None };
    assert(r@.events =~= seq![event@]);
    r
}

fn say_two(first: Event, second: Event) -> (r: Step)
    ensures
        r@ == says(seq![first@, second@]),
{
    let mut events: Vec<Event> = Vec::new();
    events.push(first);
    events.push(second);
    let r = Step { events, verify: None, next: None };
    assert(r@.events =~= seq![first@, second@]);
    r
}

fn conclude(event: Event, preferred: bool) -> (r: Step)
    ensures
        r@ == concludes(event@, preferred),
{
    say_and_ask(event, Action::ReadState, Pending::Refresh { preferred })
}

fn connected(ssid: &str) -> (r: Event)
    ensures
        r@ == connected_to(ssid@),
{
    Event::Notice(text::cat2("connected to ", ssid))
}

fn power_notice(on: bool) -> (r: Event)
    ensures
        r@ == EventView::Notice("Wi-Fi "@ + power_word(on)),
{
    let word = if on {
        "on"
    } else {
        "off"
    };
    Event::Notice(text::cat2("Wi-Fi ", word))
}

fn share_event(ssid: String, security: ShareSecurity, password: Option<String>) -> (r: Event)
    ensures
        r@ == share_ready(ssid@, security, text::opt_text(password)),
{
    let (uri, has_password) = match &password {
        Some(p) => worker::share_uri(ssid.as_str(), security, Some(p.as_str())),
        None => worker::share_uri(ssid.as_str(), security, None),
    };
    Event::ShareReady(SharePayload { schema_version: 1, ssid, uri, has_password })
}

/// The first step of a request.
pub fn dispatch(request: Request) -> (r: Step)
    ensures
        r@ == dispatched(request@),
{
    match request {
        Request::RefreshState => ask(Action::ReadState, Pending::Refresh { preferred: false }),
        Request::RefreshPreferred => ask(Action::ListPreferred, Pending::Preferred),
        Request::Scan => say_and_ask(Event::ScanStarted, Action::FullScan, Pending::DirectScan),
        Request::SetPower(on) => ask(Action::SetPower { on }, Pending::Power { on }),
        Request::Associate(a) => {
            let ssid = a.ssid;
            match a.kind {
                AssociateKind::Open => ask(
                    Action::AssociateOpen { ssid: ssid.clone() },
                    Pending::Association { ssid },
                ),
                AssociateKind::Psk(password) => ask(
                    Action::AssociatePsk { ssid: ssid.clone(), password },
                    Pending::Association { ssid },
                ),
                AssociateKind::Peap { username, password } => ask(
                    Action::AssociatePeap { ssid: ssid.clone(), username, password },
                    Pending::Association { ssid },
                ),
                AssociateKind::Hidden(password) => ask(
                    Action::DirectedScan { ssid: ssid.clone() },
                    Pending::HiddenScan { ssid, secret: password },
                ),
            }
        },
        Request::JoinWithPassword { ssid, password } => ask(
            Action::SetAirportNetwork { ssid: ssid.clone(), password: Some(password.clone()) },
            Pending::JoinAccepted { ssid, password },
        ),
        Request::JoinSaved(ssid) => ask(
            Action::DirectedScan { ssid: ssid.clone() },
            Pending::SavedScan { ssid },
        ),
        Request::Disconnect => ask(Action::Disassociate, Pending::Disconnected),
        Request::Share { ssid, security } => {
            if matches!(security, ShareSecurity::Nopass) {
                say(share_event(ssid, security, None))
            } else {
                ask(
                    Action::ReadCached { ssid: ssid.clone() },
                    Pending::ShareCache { ssid, security },
                )
            }
        },
        Request::Forget(ssid) => ask(
            Action::ForgetCached { ssid: ssid.clone() },
            Pending::ForgetCache { ssid },
        ),
        Request::Diagnose => ask(Action::ReadState, Pending::DiagnoseState),
    }
}

fn on_network(state: &Result<InterfaceState, String>, ssid: &str) -> (r: bool)
    ensures
        r == is_on(*state, ssid@),
{
    match state {
        Ok(s) => match &s.ssid {
            Some(name) => text::same_text(name.as_str(), ssid),
            None => false,
        },
        Err(_) => false,
    }
}

/// The step after a check of a join.
pub fn verify_join(
    ssid: String,
    kind: JoinKind,
    attempts: u8,
    state: Result<InterfaceState, String>,
) -> (r: Step)
    ensures
        r@ == verified(ssid@, kind@, attempts, state),
{
    if on_network(&state, ssid.as_str()) {
        return conclude(connected(ssid.as_str()), false);
    }
    if attempts > 1 {
        let r = Step {
            events: Vec::new(),
            verify: Some(Verification { ssid, kind, attempts_remaining: attempts - 1 }),
            next: None,
        };
        assert(r@.events =~= seq![]);
        return r;
    }
    match kind {
        JoinKind::Password => conclude(
            Event::Notice(
                text::cat3(
                    "join to ",
                    ssid.as_str(),
                    " sent — association not yet confirmed, it may still complete",
                ),
            ),
            false,
        ),
        JoinKind::Saved { fail_detail } => conclude(
            Event::JoinSavedFailed {
                ssid,
                reason: JoinFailReason::AssociationFailed,
                detail: fail_detail,
            },
            false,
        ),
    }
}

fn saved_failed(ssid: String, reason: JoinFailReason, detail: String) -> (r: Step)
    ensures
        r@ == concludes(join_failed(ssid@, reason, detail@), false),
{
    conclude(Event::JoinSavedFailed { ssid, reason, detail }, false)
}

/// The step after the directed scan for a saved network.
fn join_saved(ssid: String, result: Result<Vec<ScannedNetwork>, String>) -> (r: Step)
    ensures
        r@ == resumed(
            PendingView::SavedScan { ssid: ssid@ },
            Reply::Networks(result),
            LocationAuth::Unknown,
        ),
{
    match result {
        Err(e) => {
            let detail = text::cat2("directed scan failed: ", e.as_str());
            saved_failed(ssid, JoinFailReason::NotInRange, detail)
        },
        Ok(networks) => {
            if networks.len() == 0 {
                saved_failed(
                    ssid,
                    JoinFailReason::NotInRange,
                    "network not visible in scan".to_owned(),
                )
            } else if matches!(networks[0].security, Security::Open) {
                ask(
                    Action::AssociateOpen { ssid: ssid.clone() },
                    Pending::SavedAssociate {
                        ssid,
                        fail_detail: "open associate did not take effect".to_owned(),
                    },
                )
            } else {
                ask(Action::ReadCached { ssid: ssid.clone() }, Pending::SavedCache { ssid })
            }
        },
    }
}

/// The step after the lookup of the cached password of a saved network.
fn join_with_cached(ssid: String, read: Result<Vec<u8>, KeychainError>) -> (r: Step)
    ensures
        r@ == resumed(
            PendingView::SavedCache { ssid: ssid@ },
            Reply::Secret(read),
            LocationAuth::Unknown,
        ),
{
    match keychain::cached_password(read, ssid.as_str()) {
        Ok(Some(password)) => ask(
            Action::AssociatePsk { ssid: ssid.clone(), password },
            Pending::SavedAssociate {
                ssid,
                fail_detail: "cached password did not associate".to_owned(),
            },
        ),
        Ok(None) => ask(
            Action::SetAirportNetwork { ssid: ssid.clone(), password: None },
            Pending::SavedAutoJoin { ssid },
        ),
        Err(detail) => ask(
            Action::ForgetCached { ssid: ssid.clone() },
            Pending::SavedPoisoned { ssid, detail },
        ),
    }
}

/// The last step but one of most requests: the state, and perhaps the
/// preferred networks after it.
fn emit_state(result: Result<InterfaceState, String>, preferred: bool) -> (r: Step)
    ensures
        r@ == resumed(
            PendingView::Refresh { preferred },
            Reply::State(result),
            LocationAuth::Unknown,
        ),
{
    let event = match result {
        Ok(s) => Event::State(s),
        Err(e) => Event::Error(text::cat2("state refresh failed: ", e.as_str())),
    };
    if preferred {
        say_and_ask(event, Action::ListPreferred, Pending::Preferred)
    } else {
        say(event)
    }
}

fn emit_preferred(result: Result<Vec<String>, String>) -> (r: Step)
    ensures
        r@ == resumed(PendingView::Preferred, Reply::Names(result), LocationAuth::Unknown),
{
    match result {
        Ok(v) => say(Event::PreferredResult(v)),
        Err(e) => say(Event::Error(text::cat2("preferred list failed: ", e.as_str()))),
    }
}

fn finish() -> (r: Step)
    ensures
        r@ == says(seq![]),
{
    let r = Step { events: Vec::new(), verify: None, next: None };
    assert(r@.events =~= seq![]);
    r
}

/// The events that report a scan.
pub fn emit_scan(result: Result<Vec<ScannedNetwork>, String>, auth: LocationAuth) -> (r: Vec<Event>)
    ensures
        event::event_views(r@) == scan_report(result, auth),
{
    let mut events: Vec<Event> = Vec::new();
    match scan_outcome(result) {
        Ok(networks) => {
            let diagnostic = scan::redaction_diagnostic(networks.as_slice(), auth);
            events.push(Event::ScanResult(networks));
            if let Some(d) = diagnostic {
                events.push(Event::Error(d));
            }
        },
        Err(e) => {
            events.push(Event::ScanFailed(e));
        },
    }
    assert(event::event_views(events@) =~= scan_report(result, auth));
    events
}

/// The outcome of a physical scan: its networks, strongest first, or what
/// went wrong.
pub fn scan_outcome(result: Result<Vec<ScannedNetwork>, String>) -> (r: Result<
    Vec<ScannedNetwork>,
    String,
>)
    ensures
        match result {
            Ok(networks) => r matches Ok(sorted) && sorted@ == signal::strongest_first(networks@),
            Err(e) => r matches Err(m) && m@ == "scan failed: "@ + e@,
        },
{
    match result {
        Ok(networks) => Ok(signal::sort_strongest_first(networks)),
        Err(e) => Err(text::cat2("scan failed: ", e.as_str())),
    }
}

/// The step after a reply.
pub fn resume(pending: Pending, reply: Reply, auth: LocationAuth) -> (r: Step)
    ensures
        r@ == resumed(pending@, reply, auth),
{
    match (pending, reply) {
        (Pending::Power { on }, Reply::Done(result)) => match result {
            Ok(_) => conclude(power_notice(on), false),
            Err(e) => ask(
                Action::NetworksetupPower { on },
                Pending::PowerFallback { on, corewlan_error: e },
            ),
        },
        (Pending::PowerFallback { on, corewlan_error }, Reply::Done(result)) => match result {
            Ok(_) => conclude(power_notice(on), false),
            Err(e) => conclude(
                Event::Error(
                    text::cat4(
                        "power toggle failed: CoreWLAN=",
                        corewlan_error.as_str(),
                        "; networksetup=",
                        e.as_str(),
                    ),
                ),
                false,
            ),
        },
        (Pending::HiddenScan { ssid, secret }, Reply::Networks(result)) => match result {
            Ok(_) => match secret {
                Some(p) => ask(
                    Action::AssociatePsk { ssid: ssid.clone(), password: p },
                    Pending::Association { ssid },
                ),
                None => ask(
                    Action::AssociateOpen { ssid: ssid.clone() },
                    Pending::Association { ssid },
                ),
            },
            Err(e) => conclude(Event::Error(text::cat2("connect failed: ", e.as_str())), true),
        },
        (Pending::Association { ssid }, Reply::Done(result)) => match result {
            Ok(_) => conclude(connected(ssid.as_str()), true),
            Err(e) => conclude(Event::Error(text::cat2("connect failed: ", e.as_str())), true),
        },
        (Pending::JoinAccepted { ssid, password }, Reply::Done(result)) => match result {
            Ok(_) => ask(
                Action::CachePassword { ssid: ssid.clone(), password },
                Pending::JoinCached { ssid },
            ),
            Err(e) => conclude(Event::Error(text::cat2("join failed: ", e.as_str())), false),
        },
        (Pending::JoinCached { ssid }, Reply::Done(_)) => ask(
            Action::ReadState,
            Pending::Verify { ssid, kind: JoinKind::Password, attempts: worker::VERIFY_ATTEMPTS },
        ),
        (Pending::Verify { ssid, kind, attempts }, Reply::State(result)) => verify_join(
            ssid,
            kind,
            attempts,
            result,
        ),
        (Pending::SavedScan { ssid }, Reply::Networks(result)) => join_saved(ssid, result),
        (Pending::SavedAssociate { ssid, fail_detail }, Reply::Done(result)) => match result {
            Ok(_) => ask(
                Action::ReadState,
                Pending::Verify {
                    ssid,
                    kind: JoinKind::Saved { fail_detail },
                    attempts: worker::VERIFY_ATTEMPTS,
                },
            ),
            Err(_) => saved_failed(ssid, JoinFailReason::AssociationFailed, fail_detail),
        },
        (Pending::SavedCache { ssid }, Reply::Secret(result)) => join_with_cached(ssid, result),
        (Pending::SavedAutoJoin { ssid }, Reply::Done(result)) => {
            let fail_detail = "no saved credential in macwifi cache".to_owned();
            match result {
                Ok(_) => ask(
                    Action::ReadState,
                    Pending::Verify {
                        ssid,
                        kind: JoinKind::Saved { fail_detail },
                        attempts: worker::VERIFY_ATTEMPTS,
                    },
                ),
                Err(_) => saved_failed(ssid, JoinFailReason::NoCachedCredential, fail_detail),
            }
        },
        (Pending::SavedPoisoned { ssid, detail }, Reply::Done(_)) => saved_failed(
            ssid,
            JoinFailReason::KeychainDenied,
            detail,
        ),
        (Pending::Disconnected, Reply::Done(_)) => conclude(
            Event::Notice("disconnected".to_owned()),
            false,
        ),
        (Pending::ShareCache { ssid, security }, Reply::Secret(result)) => match result {
            Ok(bytes) => say(share_event(ssid, security, Some(text::lossy(&bytes)))),
            Err(_) => ask(
                Action::ReadSystemPassword { ssid: ssid.clone() },
                Pending::ShareSystem { ssid, security },
            ),
        },
        (Pending::ShareSystem { ssid, security }, Reply::Secret(result)) => match
        keychain::wifi_password(result, ssid.as_str()) {
            Ok(password) => ask(
                Action::CachePassword { ssid: ssid.clone(), password: password.clone() },
                Pending::ShareStore { ssid, security, password },
            ),
            Err(e) => say_two(
                Event::Error(text::cat3("keychain: ", e.as_str(), " — sharing SSID only")),
                share_event(ssid, security, None),
            ),
        },
        (Pending::ShareStore { ssid, security, password }, Reply::Done(_)) => say(
            share_event(ssid, security, Some(password)),
        ),
        (Pending::ForgetCache { ssid }, Reply::Done(_)) => ask(
            Action::RemovePreferred { ssid: ssid.clone() },
            Pending::ForgetRemoved { ssid },
        ),
        (Pending::ForgetRemoved { ssid }, Reply::Done(result)) => {
            let event = match result {
                Ok(_) => Event::Notice(text::cat2("forgot ", ssid.as_str())),
                Err(e) => Event::Error(text::cat2("forget failed: ", e.as_str())),
            };
            say_and_ask(event, Action::ListPreferred, Pending::Preferred)
        },
        (Pending::Refresh { preferred }, Reply::State(result)) => emit_state(result, preferred),
        (Pending::Preferred, Reply::Names(result)) => emit_preferred(result),
        (Pending::DirectScan, Reply::Networks(result)) => Step {
            events: emit_scan(result, auth),
            verify: None,
            next: None,
        },
        (Pending::DiagnoseState, Reply::State(result)) => {
            let state = match result {
                Ok(s) => Some((s.name, s.ssid)),
                Err(_) => None,
            };
            ask(Action::FullScan, Pending::DiagnoseScan { state })
        },
        (Pending::DiagnoseScan { state }, Reply::Networks(result)) => {
            let (scan_count, scan_blank) = match result {
                Ok(n) => (n.len(), scan::blank_ssids(n.as_slice())),
                Err(_) => (0, 0),
            };
            ask(Action::Identify, Pending::DiagnoseIdentity { state, scan_count, scan_blank })
        },
        (
            Pending::DiagnoseIdentity { state, scan_count, scan_blank },
            Reply::Identity { pid, parent_pid, location_auth_raw, interface },
        ) => {
            let (name, current_ssid) = match state {
                Some(s) => s,
                None => (interface, None),
            };
            say(
                Event::DaemonDiagnose(
                    DaemonDiagnose {
                        pid,
                        parent_pid,
                        location_auth_raw,
                        interface: name,
                        current_ssid,
                        scan_count,
                        scan_blank,
                    },
                ),
            )
        },
        _ => finish(),
    }
}

// ---------------------------------------------------------------------------
// What the log says of joins.
// ---------------------------------------------------------------------------

/// The name of a reason.
pub open spec fn reason_name(reason: JoinFailReason) -> Seq<char> {
    match reason {
        JoinFailReason::NotInRange => "NotInRange"@,
        JoinFailReason::AssociationFailed => "AssociationFailed"@,
        JoinFailReason::NoCachedCredential => "NoCachedCredential"@,
        JoinFailReason::KeychainDenied => "KeychainDenied"@,
    }
}

fn name_of(reason: JoinFailReason) -> (r: &'static str)
    ensures
        r@ == reason_name(reason),
{
    match reason {
        JoinFailReason::NotInRange => "NotInRange",
        JoinFailReason::AssociationFailed => "AssociationFailed",
        JoinFailReason::NoCachedCredential => "NoCachedCredential",
        JoinFailReason::KeychainDenied => "KeychainDenied",
    }
}

/// An error, followed by what lies beneath it.
pub open spec fn with_cause(error: Seq<char>, cause: Option<Seq<char>>) -> Seq<char> {
    match cause {
        Some(cause) => error + ": "@ + cause,
        None => error,
    }
}

/// The line that records the reply to an action of a join.
pub open spec fn reply_line(pending: PendingView, reply: Reply, cause: Option<Seq<char>>) -> Option<
    Seq<char>,
> {
    match (pending, reply) {
        (PendingView::JoinAccepted { ssid, password }, Reply::Done(Err(e))) => Some(
            "join to "@ + ssid + " failed: "@ + with_cause(e@, cause),
        ),
        (PendingView::JoinCached { ssid }, Reply::Done(Ok(_))) => Some(
            "cached password for "@ + ssid,
        ),
        (PendingView::JoinCached { ssid }, Reply::Done(Err(e))) => Some(
            "cache_password("@ + ssid + ") failed: "@ + e@,
        ),
        (PendingView::Verify { ssid, kind, attempts }, Reply::State(state)) => match kind {
            JoinKindView::Saved { fail_detail } => if is_on(state, ssid) {
                Some("reconnected to "@ + ssid)
            } else {
                None
            },
            JoinKindView::Password => if !is_on(state, ssid) && attempts <= 1 {
                Some("join to "@ + ssid + ": networksetup ok but association unconfirmed"@)
            } else {
                None
            },
        },
        _ => None,
    }
}

/// The line that records a failed reconnect among the events of a step.
pub open spec fn failure_line(events: Seq<EventView>) -> Option<Seq<char>> {
    if events.len() == 0 {
        None
    } else {
        match events[0] {
            EventView::JoinSavedFailed { ssid, reason, detail } => Some(
                "JoinSaved("@ + ssid + ") failed: "@ + reason_name(reason) + " — "@ + detail,
            ),
            _ => None,
        }
    }
}

/// The line that records what a reply led to.
pub open spec fn logged(
    pending: PendingView,
    reply: Reply,
    cause: Option<Seq<char>>,
    auth: LocationAuth,
) -> Option<Seq<char>> {
    match reply_line(pending, reply, cause) {
        Some(line) => Some(line),
        None => failure_line(resumed(pending, reply, auth).events),
    }
}

fn log_reply(pending: &Pending, reply: &Reply, cause: Option<&str>) -> (r: Option<String>)
    ensures
        text::opt_text(r) == reply_line(pending@, *reply, text::opt_str(cause)),
{
    match (pending, reply) {
        (Pending::JoinAccepted { ssid, .. }, Reply::Done(Err(e))) => {
            let error = match cause {
                Some(cause) => text::cat3(e.as_str(), ": ", cause),
                None => e.clone(),
            };
            Some(text::cat4("join to ", ssid.as_str(), " failed: ", error.as_str()))
        },
        (Pending::JoinCached { ssid }, Reply::Done(Ok(_))) => Some(
            text::cat2("cached password for ", ssid.as_str()),
        ),
        (Pending::JoinCached { ssid }, Reply::Done(Err(e))) => Some(
            text::cat4("cache_password(", ssid.as_str(), ") failed: ", e.as_str()),
        ),
        (Pending::Verify { ssid, kind, attempts }, Reply::State(state)) => {
            let on = on_network(state, ssid.as_str());
            match kind {
                JoinKind::Saved { .. } => {
                    if on {
                        Some(text::cat2("reconnected to ", ssid.as_str()))
                    } else {
                        None
                    }
                },
                JoinKind::Password => {
                    if !on && *attempts <= 1 {
                        Some(
                            text::cat3(
                                "join to ",
                                ssid.as_str(),
                                ": networksetup ok but association unconfirmed",
                            ),
                        )
                    } else {
                        None
                    }
                },
            }
        },
        _ => None,
    }
}

fn log_failure(events: &Vec<Event>) -> (r: Option<String>)
    ensures
        text::opt_text(r) == failure_line(event::event_views(events@)),
{
    if events.len() == 0 {
        return None;
    }
    match &events[0] {
        Event::JoinSavedFailed { ssid, reason, detail } => {
            let mut line = text::cat3("JoinSaved(", ssid.as_str(), ") failed: ");
            line.append(name_of(*reason));
            line.append(" — ");
            line.append(detail.as_str());
            Some(line)
        },
        _ => None,
    }
}

/// The step that follows the reply to an action, as [`resume`] gives it, and
/// the line that the log says of it, if any. `cause` is what lies beneath the
/// error of the reply.
pub fn resume_logged(
    pending: Pending,
    reply: Reply,
    cause: Option<&str>,
    auth: LocationAuth,
) -> (r: (Step, Option<String>))
    ensures
        r.0@ == resumed(pending@, reply, auth),
        text::opt_text(r.1) == logged(pending@, reply, text::opt_str(cause), auth),
{
    let line = log_reply(&pending, &reply, cause);
    let step = resume(pending, reply, auth);
    match line {
        Some(line) => (step, Some(line)),
        None => {
            let failure = log_failure(&step.events);
            (step, failure)
        },
    }
}

/// No line of the log depends on a password: not on one that was typed, nor on
/// one that was read from the keychain.
pub proof fn no_password_reaches_the_log(
    ssid: Seq<char>,
    password: Seq<char>,
    other: Seq<char>,
    pending: PendingView,
    bytes: Vec<u8>,
    reply: Reply,
    cause: Option<Seq<char>>,
    auth: LocationAuth,
)
    ensures
        logged(PendingView::JoinAccepted { ssid, password }, reply, cause, auth) == logged(
            PendingView::JoinAccepted { ssid, password: other },
            reply,
            cause,
            auth,
        ),
        logged(PendingView::HiddenScan { ssid, secret: Some(password) }, reply, cause, auth)
            is None,
        forall|security: ShareSecurity|
            #[trigger] logged(
                PendingView::ShareStore { ssid, security, password },
                reply,
                cause,
                auth,
            ) is None,
        logged(pending, Reply::Secret(Ok(bytes)), cause, auth) is None,
{
}

// ---------------------------------------------------------------------------
// Commands in, worker events out.
// ---------------------------------------------------------------------------

/// How a command of the daemon begins.
#[derive(Debug)]
pub enum Start {
    /// A request of its own, whose events answer `origin`.
    Steps { origin: Option<Origin>, step: Step },
    /// A scan for the daemon, to be reported as finished.
    Scan { operation_id: u64 },
}

/// Whom a command answers, and its first step; none where it is a scan for the
/// daemon.
pub open spec fn begun(command: CommandView) -> Option<(Option<Origin>, StepView)> {
    match command {
        CommandView::Request { origin, request } => Some((origin, dispatched(request))),
        CommandView::Scan { .. } => None,
        CommandView::VerifyJoin { origin, ssid, kind, attempts_remaining } => Some(
            (
                origin,
                asks(
                    ActionView::ReadState,
                    PendingView::Verify { ssid, kind, attempts: attempts_remaining },
                ),
            ),
        ),
    }
}

/// Begins a command.
pub fn start(command: WorkerCommand) -> (r: Start)
    ensures
        match r {
            Start::Steps { origin, step } => begun(command@) == Some((origin, step@)),
            Start::Scan { operation_id } => command@ == (CommandView::Scan { operation_id }),
        },
        match command {
            WorkerCommand::Request { origin, request } => r matches Start::Steps {
                origin: o,
                step,
            } && o == origin && step@ == dispatched(request@),
            WorkerCommand::Scan { operation_id } => r == (Start::Scan { operation_id }),
            WorkerCommand::VerifyJoin { origin, ssid, kind, attempts_remaining } => r matches
                Start::Steps { origin: o, step } && o == origin && step@ == asks(
                ActionView::ReadState,
                PendingView::Verify { ssid: ssid@, kind: kind@, attempts: attempts_remaining },
            ),
        },
{
    match command {
        WorkerCommand::Request { origin, request } => Start::Steps {
            origin,
            step: dispatch(request),
        },
        WorkerCommand::Scan { operation_id } => Start::Scan { operation_id },
        WorkerCommand::VerifyJoin { origin, ssid, kind, attempts_remaining } => Start::Steps {
            origin,
            step: ask(
                Action::ReadState,
                Pending::Verify { ssid, kind, attempts: attempts_remaining },
            ),
        },
    }
}

/// The report is the event of a step, addressed to `origin`.
pub open spec fn emits(report: WorkerEvent, origin: Option<Origin>, event: EventView) -> bool {
    report matches WorkerEvent::Emit { origin: o, event: e } && o == origin && e@ == event
}

/// The report asks for another check of a join.
pub open spec fn schedules(
    report: WorkerEvent,
    origin: Option<Origin>,
    check: VerificationView,
) -> bool {
    report matches WorkerEvent::ScheduleVerify { origin: o, ssid, kind, attempts_remaining }
        && o == origin && ssid@ == check.ssid && kind@ == check.kind && attempts_remaining
        == check.attempts_remaining
}

/// What a step reports, in order, and what it goes on with.
pub fn reports(origin: Option<Origin>, step: Step) -> (r: (
    Vec<WorkerEvent>,
    Option<(Action, Pending)>,
))
    ensures
        r.0@.len() == step@.events.len() + (if step.verify is Some {
            1int
        } else {
            0int
        }),
        forall|i: int|
            0 <= i < step@.events.len() ==> emits(#[trigger] r.0@[i], origin, step@.events[i]),
        step@.verify matches Some(check) ==> schedules(r.0@.last(), origin, check),
        r.1 == step.next,
{
    let Step { events, verify, next } = step;
    let ghost views = event::event_views(events@);
    let mut out: Vec<WorkerEvent> = Vec::new();
    let mut i: usize = 0;
    while i < events.len()
        invariant
            i <= events@.len(),
            out@.len() == i,
            views == event::event_views(events@),
            forall|k: int| 0 <= k < i ==> emits(#[trigger] out@[k], origin, views[k]),
        decreases events@.len() - i,
    {
        out.push(WorkerEvent::Emit { origin, event: events[i].clone() });
        i += 1;
    }
    if let Some(check) = verify {
        out.push(
            WorkerEvent::ScheduleVerify {
                origin,
                ssid: check.ssid,
                kind: check.kind,
                attempts_remaining: check.attempts_remaining,
            },
        );
    }
    (out, next)
}

/// What a scan gives: its networks, strongest first, or what went wrong.
pub open spec fn scan_result(result: Result<Vec<ScannedNetwork>, String>) -> Result<
    Seq<ScannedNetwork>,
    Seq<char>,
> {
    match result {
        Ok(networks) => Ok(signal::strongest_first(networks@)),
        Err(e) => Err("scan failed: "@ + e@),
    }
}

/// The report of a finished scan: its networks, strongest first, or what went
/// wrong, and where the time went.
pub fn run_scan(
    operation_id: u64,
    result: Result<Vec<ScannedNetwork>, String>,
    timings: ScanTimings,
) -> (r: WorkerEvent)
    ensures
        r matches WorkerEvent::ScanFinished { result: outcome, .. } && match outcome {
            Ok(sorted) => scan_result(result) == Ok::<_, Seq<char>>(sorted@),
            Err(e) => scan_result(result) == Err::<Seq<ScannedNetwork>, _>(e@),
        },
        r matches WorkerEvent::ScanFinished { operation_id: id, result: outcome, timings: t }
            && id == operation_id && t == timings && match result {
            Ok(networks) => outcome matches Ok(sorted) && sorted@ == signal::strongest_first(
                networks@,
            ),
            Err(e) => outcome matches Err(m) && m@ == "scan failed: "@ + e@,
        },
{
    WorkerEvent::ScanFinished { operation_id, result: scan_outcome(result), timings }
}

/// What the worker reports where the system offers no Wi-Fi client.
pub fn client_unavailable(error: &str) -> (r: WorkerEvent)
    ensures
        emits(r, None, EventView::Error("CoreWLAN init failed: "@ + error@)),
{
    WorkerEvent::Emit {
        origin: None,
        event: Event::Error(text::cat2("CoreWLAN init failed: ", error)),
    }
}

/// What the worker reports where the machine has no Wi-Fi interface.
pub fn interface_unavailable(error: &str) -> (r: WorkerEvent)
    ensures
        emits(r, None, EventView::Error("no Wi-Fi interface: "@ + error@)),
{
    WorkerEvent::Emit {
        origin: None,
        event: Event::Error(text::cat2("no Wi-Fi interface: ", error)),
    }
}

// ---------------------------------------------------------------------------
// Laws.
// ---------------------------------------------------------------------------

/// How many actions may still follow.
pub open spec fn actions_left(pending: PendingView) -> nat {
    match pending {
        PendingView::Preferred => 0,
        PendingView::DirectScan => 0,
        PendingView::ShareStore { .. } => 0,
        PendingView::DiagnoseIdentity { .. } => 0,
        PendingView::Refresh { .. } => 1,
        PendingView::ForgetRemoved { .. } => 1,
        PendingView::ShareSystem { .. } => 1,
        PendingView::DiagnoseScan { .. } => 1,
        PendingView::ForgetCache { .. } => 2,
        PendingView::ShareCache { .. } => 2,
        PendingView::DiagnoseState => 2,
        PendingView::Disconnected => 2,
        PendingView::Association { .. } => 2,
        PendingView::PowerFallback { .. } => 2,
        PendingView::SavedPoisoned { .. } => 2,
        PendingView::Verify { .. } => 2,
        PendingView::Power { .. } => 3,
        PendingView::HiddenScan { .. } => 3,
        PendingView::JoinCached { .. } => 3,
        PendingView::SavedAssociate { .. } => 3,
        PendingView::SavedAutoJoin { .. } => 3,
        PendingView::JoinAccepted { .. } => 4,
        PendingView::SavedCache { .. } => 4,
        PendingView::SavedScan { .. } => 5,
    }
}

/// Whatever the replies are, a request comes to an end: each step leaves fewer
/// actions to be done.
pub proof fn every_request_ends(pending: PendingView, reply: Reply, auth: LocationAuth)
    ensures
        resumed(pending, reply, auth).next matches Some(next) ==> actions_left(next.1)
            < actions_left(pending),
{
}

/// A join is checked again only after a check that did not confirm it, and
/// with one check fewer to go, so there are never more checks than were
/// granted.
pub proof fn checks_of_a_join_run_out(pending: PendingView, reply: Reply, auth: LocationAuth)
    ensures
        resumed(pending, reply, auth).verify matches Some(check) ==> {
            &&& pending matches PendingView::Verify { ssid, kind, attempts }
            &&& check.ssid == ssid
            &&& check.kind == kind
            &&& 0 < check.attempts_remaining
            &&& check.attempts_remaining + 1 == attempts
            &&& !is_on(reply->State_0, ssid)
        },
        forall|request: RequestView| dispatched(request).verify is None,
{
}

/// A state of a silent reconnect.
pub open spec fn reconnecting(pending: PendingView) -> bool {
    match pending {
        PendingView::SavedScan { .. } => true,
        PendingView::SavedAssociate { .. } => true,
        PendingView::SavedCache { .. } => true,
        PendingView::SavedAutoJoin { .. } => true,
        PendingView::SavedPoisoned { .. } => true,
        PendingView::Verify { kind, .. } => kind is Saved,
        PendingView::Refresh { preferred } => !preferred,
        _ => false,
    }
}

/// The reply is a scan whose first network is open.
pub open spec fn shows_open_network(reply: Reply) -> bool {
    match reply {
        Reply::Networks(Ok(networks)) => networks@.len() > 0 && networks@[0].security
            == Security::Open,
        _ => false,
    }
}

/// A reconnect to a saved network stays silent: it never reads the system's
/// own password item, which would ask the user, it hands no password to the
/// system, and it associates without a password only where the scan has shown
/// an open network.
pub proof fn a_reconnect_is_silent(
    ssid: Seq<char>,
    pending: PendingView,
    reply: Reply,
    auth: LocationAuth,
)
    requires
        reconnecting(pending),
    ensures
        dispatched(RequestView::JoinSaved(ssid)).next matches Some(first) && reconnecting(first.1)
            && first.0 == (ActionView::DirectedScan { ssid }),
        resumed(pending, reply, auth).next matches Some(next) ==> {
            &&& reconnecting(next.1)
            &&& next.0 !is ReadSystemPassword
            &&& next.0 matches ActionView::SetAirportNetwork { password, .. } ==> password is None
            &&& next.0 is AssociateOpen ==> pending is SavedScan && shows_open_network(reply)
        },
{
}

/// Where no password is cached for a saved network, the system gets to join it
/// by itself, and only where it cannot is the user told that a password is
/// missing.
pub proof fn the_system_joins_before_the_user_is_asked(
    ssid: Seq<char>,
    read: Result<Vec<u8>, KeychainError>,
    pending: PendingView,
    reply: Reply,
    auth: LocationAuth,
    k: int,
    detail: Seq<char>,
)
    ensures
        keychain::cached_outcome(read, ssid) == Ok::<_, Seq<char>>(None::<Seq<char>>) ==> resumed(
            PendingView::SavedCache { ssid },
            Reply::Secret(read),
            auth,
        ) == asks(
            ActionView::SetAirportNetwork { ssid, password: None },
            PendingView::SavedAutoJoin { ssid },
        ),
        0 <= k < resumed(pending, reply, auth).events.len() && resumed(
            pending,
            reply,
            auth,
        ).events[k] == join_failed(ssid, JoinFailReason::NoCachedCredential, detail) ==> pending
            == (PendingView::SavedAutoJoin { ssid }) && (reply matches Reply::Done(Err(_))),
{
}

/// The reply shows that `password` is the one of `ssid`.
pub open spec fn gained(
    pending: PendingView,
    reply: Reply,
    ssid: Seq<char>,
    password: Seq<char>,
) -> bool {
    match (pending, reply) {
        (PendingView::JoinAccepted { ssid: s, password: p }, Reply::Done(Ok(_))) => s == ssid && p
            == password,
        (PendingView::ShareSystem { ssid: s, .. }, Reply::Secret(Ok(bytes))) => s == ssid
            && text::lossy_text(bytes@) == password,
        _ => false,
    }
}

/// A password is cached exactly where the system has just accepted it for a
/// join, or has just handed it out for sharing.
pub proof fn only_accepted_passwords_are_cached(
    pending: PendingView,
    reply: Reply,
    auth: LocationAuth,
    ssid: Seq<char>,
    password: Seq<char>,
)
    ensures
        (resumed(pending, reply, auth).next matches Some(next) && next.0
            == (ActionView::CachePassword { ssid, password })) <==> gained(
            pending,
            reply,
            ssid,
            password,
        ),
        forall|request: RequestView|
            (#[trigger] dispatched(request)).next matches Some(first) ==> first.0 !is CachePassword,
{
}

/// A network is forgotten only after its cached password has been dropped, so
/// that it cannot come back from the cache.
pub proof fn forgetting_drops_the_cached_password_first(
    ssid: Seq<char>,
    pending: PendingView,
    reply: Reply,
    auth: LocationAuth,
)
    ensures
        dispatched(RequestView::Forget(ssid)) == asks(
            ActionView::ForgetCached { ssid },
            PendingView::ForgetCache { ssid },
        ),
        (resumed(pending, reply, auth).next matches Some(next) && next.0
            == (ActionView::RemovePreferred { ssid })) ==> pending == (PendingView::ForgetCache {
            ssid,
        }),
        forall|request: RequestView|
            (#[trigger] dispatched(request)).next matches Some(first) ==> first.0 !is RemovePreferred,
{
}

/// A network that needs no password is shared without a look at any keychain.
pub proof fn open_networks_are_shared_without_a_lookup(ssid: Seq<char>)
    ensures
        dispatched(RequestView::Share { ssid, security: ShareSecurity::Nopass }) == says(
            seq![share_ready(ssid, ShareSecurity::Nopass, None)],
        ),
{
}

/// A password that is cached is shared without a look at the system's item,
/// and one that had to be looked up there is cached for the next time.
pub proof fn sharing_asks_the_user_once(
    ssid: Seq<char>,
    security: ShareSecurity,
    bytes: Vec<u8>,
    auth: LocationAuth,
)
    ensures
        resumed(PendingView::ShareCache { ssid, security }, Reply::Secret(Ok(bytes)), auth)
            == says(seq![share_ready(ssid, security, Some(text::lossy_text(bytes@)))]),
        resumed(PendingView::ShareSystem { ssid, security }, Reply::Secret(Ok(bytes)), auth).next
            matches Some(next) && next.0 == (ActionView::CachePassword {
            ssid,
            password: text::lossy_text(bytes@),
        }),
{
}

/// The state of the interface names the network `ssid`.
pub open spec fn shows(state: Result<InterfaceState, String>, ssid: Seq<char>) -> bool {
    state matches Ok(s) && text::opt_text(s.ssid) == Some(ssid)
}

/// How a join comes out, given a step that asks for the state, and the states
/// that are read one after the other, each by a command of its own: the first
/// event that is reported, or none as long as checks are still due.
pub open spec fn come_out(
    step: StepView,
    states: Seq<Result<InterfaceState, String>>,
    auth: LocationAuth,
) -> Option<EventView>
    decreases states.len(),
{
    if states.len() == 0 || step.next is None {
        None
    } else {
        let after = resumed((step.next->0).1, Reply::State(states[0]), auth);
        match after.verify {
            Some(check) => match begun(
                CommandView::VerifyJoin {
                    origin: None,
                    ssid: check.ssid,
                    kind: check.kind,
                    attempts_remaining: check.attempts_remaining,
                },
            ) {
                Some(next) => come_out(next.1, states.skip(1), auth),
                None => None,
            },
            None => if after.events.len() > 0 {
                Some(after.events[0])
            } else {
                None
            },
        }
    }
}

/// The first state that names the network is the one at `k`.
pub open spec fn first_shown(
    states: Seq<Result<InterfaceState, String>>,
    ssid: Seq<char>,
    k: int,
) -> bool {
    &&& 0 <= k < states.len()
    &&& shows(states[k], ssid)
    &&& forall|i: int| 0 <= i < k ==> !shows(#[trigger] states[i], ssid)
}

/// None of the first `n` states names the network.
pub open spec fn never_shown(
    states: Seq<Result<InterfaceState, String>>,
    ssid: Seq<char>,
    n: int,
) -> bool {
    forall|i: int| 0 <= i < n && i < states.len() ==> !shows(#[trigger] states[i], ssid)
}

/// What is reported where no check has shown the network.
pub open spec fn unconfirmed(ssid: Seq<char>, kind: JoinKindView) -> EventView {
    match kind {
        JoinKindView::Password => EventView::Notice(
            "join to "@ + ssid + " sent — association not yet confirmed, it may still complete"@,
        ),
        JoinKindView::Saved { fail_detail } => EventView::JoinSavedFailed {
            ssid,
            reason: JoinFailReason::AssociationFailed,
            detail: fail_detail,
        },
    }
}

proof fn lemma_come_out(
    ssid: Seq<char>,
    kind: JoinKindView,
    attempts: u8,
    states: Seq<Result<InterfaceState, String>>,
    k: int,
    auth: LocationAuth,
)
    requires
        attempts >= 1,
    ensures
        ({
            let step = StepView {
                events: seq![],
                verify: None,
                next: Some(
                    (ActionView::ReadState, PendingView::Verify { ssid, kind, attempts }),
                ),
            };
            &&& first_shown(states, ssid, k) && k < attempts ==> come_out(step, states, auth)
                == Some(EventView::Notice("connected to "@ + ssid))
            &&& never_shown(states, ssid, attempts as int) && states.len() >= attempts ==> come_out(
                step,
                states,
                auth,
            ) == Some(unconfirmed(ssid, kind))
            &&& never_shown(states, ssid, attempts as int) && states.len() < attempts ==> come_out(
                step,
                states,
                auth,
            ) is None
        }),
    decreases states.len(),
{
    if states.len() > 0 && attempts > 1 && !shows(states[0], ssid) {
        let rest = states.skip(1);
        lemma_come_out(ssid, kind, (attempts - 1) as u8, rest, k - 1, auth);
        if first_shown(states, ssid, k) {
            assert(rest[k - 1] == states[k]);
            assert forall|i: int| 0 <= i < k - 1 implies !shows(#[trigger] rest[i], ssid) by {
                assert(rest[i] == states[i + 1]);
            }
        }
        if never_shown(states, ssid, attempts as int) {
            assert forall|i: int| 0 <= i < attempts - 1 && i < rest.len() implies !shows(
                #[trigger] rest[i],
                ssid,
            ) by {
                assert(rest[i] == states[i + 1]);
            }
        }
    }
}

/// A join whose association was accepted is judged by the states that are read
/// afterwards, and by twenty of them: the first that shows the network makes
/// it a success, and only where none of the twenty does is it given up. This
/// holds of a reconnect with a cached password or to an open network, of one
/// that is left to the system, and of a join with a password that was typed;
/// the last one is then not reported as failed, for it may still complete.
pub proof fn a_join_is_given_up_only_after_twenty_checks(
    ssid: Seq<char>,
    fail_detail: Seq<char>,
    cached: Result<(), String>,
    states: Seq<Result<InterfaceState, String>>,
    k: int,
    auth: LocationAuth,
)
    ensures
        ({
            let done = Reply::Done(Ok(()));
            let own = resumed(PendingView::SavedAssociate { ssid, fail_detail }, done, auth);
            let system = resumed(PendingView::SavedAutoJoin { ssid }, done, auth);
            let typed = resumed(PendingView::JoinCached { ssid }, Reply::Done(cached), auth);
            let connected = Some(EventView::Notice("connected to "@ + ssid));
            &&& own.events.len() == 0 && system.events.len() == 0 && typed.events.len() == 0
            &&& first_shown(states, ssid, k) && k < 20 ==> {
                &&& come_out(own, states, auth) == connected
                &&& come_out(system, states, auth) == connected
                &&& come_out(typed, states, auth) == connected
            }
            &&& never_shown(states, ssid, 20) && states.len() >= 20 ==> {
                &&& come_out(own, states, auth) == Some(
                    EventView::JoinSavedFailed {
                        ssid,
                        reason: JoinFailReason::AssociationFailed,
                        detail: fail_detail,
                    },
                )
                &&& come_out(system, states, auth) == Some(
                    EventView::JoinSavedFailed {
                        ssid,
                        reason: JoinFailReason::AssociationFailed,
                        detail: "no saved credential in macwifi cache"@,
                    },
                )
                &&& come_out(typed, states, auth) matches Some(EventView::Notice(text))
                &&& text == "join to "@ + ssid
                    + " sent — association not yet confirmed, it may still complete"@
            }
            &&& never_shown(states, ssid, 20) && states.len() < 20 ==> {
                &&& come_out(own, states, auth) is None
                &&& come_out(system, states, auth) is None
                &&& come_out(typed, states, auth) is None
            }
        }),
{
    lemma_come_out(ssid, JoinKindView::Saved { fail_detail }, 20, states, k, auth);
    lemma_come_out(
        ssid,
        JoinKindView::Saved { fail_detail: "no saved credential in macwifi cache"@ },
        20,
        states,
        k,
        auth,
    );
    lemma_come_out(ssid, JoinKindView::Password, 20, states, k, auth);
    let done = Reply::Done(Ok(()));
    let own = resumed(PendingView::SavedAssociate { ssid, fail_detail }, done, auth);
    assert(own == StepView {
        events: seq![],
        verify: None,
        next: Some(
            (
                ActionView::ReadState,
                PendingView::Verify {
                    ssid,
                    kind: JoinKindView::Saved { fail_detail },
                    attempts: 20,
                },
            ),
        ),
    });
}

/// A command answers the request that it was given for.
pub proof fn a_command_keeps_its_origin(origin: Option<Origin>, request: RequestView, id: u64)
    ensures
        begun(CommandView::Request { origin, request }) matches Some(first) && first.0 == origin
            && first.1 == dispatched(request),
        forall|ssid: Seq<char>, kind: JoinKindView, n: u8|
            (#[trigger] begun(
                CommandView::VerifyJoin { origin, ssid, kind, attempts_remaining: n },
            )) matches Some(first) && first.0 == origin && first.1.next == Some(
                (ActionView::ReadState, PendingView::Verify { ssid, kind, attempts: n }),
            ),
        begun(CommandView::Scan { operation_id: id }) is None,
{
}

/// How a reconnect to a saved network goes: a network that does not answer is
/// out of range; an open one is joined without a password; any other with the
/// password that is cached for it, and with no other. A cached password that
/// cannot be read is dropped, and the user is asked for it again.
pub proof fn a_saved_network_is_joined_with_its_cached_password(
    ssid: Seq<char>,
    networks: Vec<ScannedNetwork>,
    bytes: Vec<u8>,
    error: String,
    denied: KeychainError,
    dropped: Result<(), String>,
    auth: LocationAuth,
)
    requires
        denied.code != -25300,
    ensures
        ({
            let scanned = PendingView::SavedScan { ssid };
            let answer = |result: Result<Vec<ScannedNetwork>, String>|
                resumed(scanned, Reply::Networks(result), auth);
            let found = answer(Ok(networks));
            let secret = |read: Result<Vec<u8>, KeychainError>|
                resumed(PendingView::SavedCache { ssid }, Reply::Secret(read), auth);
            &&& dispatched(RequestView::JoinSaved(ssid)).next == Some(
                (ActionView::DirectedScan { ssid }, scanned),
            )
            &&& answer(Err(error)).events == seq![
                EventView::JoinSavedFailed {
                    ssid,
                    reason: JoinFailReason::NotInRange,
                    detail: "directed scan failed: "@ + error@,
                },
            ]
            &&& networks@.len() == 0 ==> found.events == seq![
                EventView::JoinSavedFailed {
                    ssid,
                    reason: JoinFailReason::NotInRange,
                    detail: "network not visible in scan"@,
                },
            ]
            &&& networks@.len() > 0 && networks@[0].security is Open ==> found.next == Some(
                (
                    ActionView::AssociateOpen { ssid },
                    PendingView::SavedAssociate {
                        ssid,
                        fail_detail: "open associate did not take effect"@,
                    },
                ),
            )
            &&& networks@.len() > 0 && !(networks@[0].security is Open) ==> found.next == Some(
                (ActionView::ReadCached { ssid }, PendingView::SavedCache { ssid }),
            )
            &&& networks@.len() > 0 ==> found.events.len() == 0
            &&& secret(Ok(bytes)).next == Some(
                (
                    ActionView::AssociatePsk { ssid, password: text::lossy_text(bytes@) },
                    PendingView::SavedAssociate {
                        ssid,
                        fail_detail: "cached password did not associate"@,
                    },
                ),
            )
            &&& secret(Ok(bytes)).events.len() == 0
            &&& secret(Err(denied)).next matches Some(next) && next.0 == (
            ActionView::ForgetCached { ssid }) && resumed(
                next.1,
                Reply::Done(dropped),
                auth,
            ).events == seq![
                EventView::JoinSavedFailed {
                    ssid,
                    reason: JoinFailReason::KeychainDenied,
                    detail: "cached password lookup for "@ + ssid + ": "@ + denied.message@,
                },
            ]
            &&& secret(Err(denied)).events.len() == 0
        }),
{
}

/// A reconnect whose association is refused has failed at once, with the words
/// that were chosen for it.
pub proof fn a_refused_association_ends_a_reconnect(
    ssid: Seq<char>,
    fail_detail: Seq<char>,
    error: String,
    auth: LocationAuth,
)
    ensures
        resumed(
            PendingView::SavedAssociate { ssid, fail_detail },
            Reply::Done(Err(error)),
            auth,
        ).events == seq![
            EventView::JoinSavedFailed {
                ssid,
                reason: JoinFailReason::AssociationFailed,
                detail: fail_detail,
            },
        ],
        resumed(PendingView::SavedAutoJoin { ssid }, Reply::Done(Err(error)), auth).events == seq![
            EventView::JoinSavedFailed {
                ssid,
                reason: JoinFailReason::NoCachedCredential,
                detail: "no saved credential in macwifi cache"@,
            },
        ],
{
}

/// A join with a password hands exactly this password to the system, caches it
/// once the system has accepted it, and only then looks at the state. Where
/// the system refuses it, nothing is cached and the user is told why.
pub proof fn a_typed_password_is_the_one_that_joins(
    ssid: Seq<char>,
    password: Seq<char>,
    error: String,
    stored: Result<(), String>,
    auth: LocationAuth,
)
    ensures
        ({
            let accepted = PendingView::JoinAccepted { ssid, password };
            let good = resumed(accepted, Reply::Done(Ok(())), auth);
            let bad = resumed(accepted, Reply::Done(Err(error)), auth);
            &&& dispatched(RequestView::JoinWithPassword { ssid, password }).next == Some(
                (ActionView::SetAirportNetwork { ssid, password: Some(password) }, accepted),
            )
            &&& dispatched(RequestView::JoinWithPassword { ssid, password }).events.len() == 0
            &&& good.events.len() == 0
            &&& good.next matches Some(next) && next.0 == (ActionView::CachePassword {
                ssid,
                password,
            }) && resumed(next.1, Reply::Done(stored), auth).next == Some(
                (
                    ActionView::ReadState,
                    PendingView::Verify { ssid, kind: JoinKindView::Password, attempts: 20 },
                ),
            )
            &&& bad.events == seq![EventView::Error("join failed: "@ + error@)]
            &&& bad.next matches Some(next) && next.0 is ReadState
        }),
{
}

/// An association hands on exactly the credentials that were given: none, a
/// password, or a user name and a password. A hidden network is looked for
/// first, under its name, and then joined with the password that was given, or
/// without one where none was. Success and failure are told, and afterwards
/// the state and the known networks are read again.
pub proof fn an_association_hands_on_its_credentials(
    ssid: Seq<char>,
    username: Seq<char>,
    password: Seq<char>,
    secret: Option<Seq<char>>,
    networks: Vec<ScannedNetwork>,
    error: String,
    auth: LocationAuth,
)
    ensures
        ({
            let first = |kind: AssociateKindView|
                dispatched(RequestView::Associate { ssid, kind }).next;
            let joining = PendingView::Association { ssid };
            let looked = PendingView::HiddenScan { ssid, secret };
            let found = resumed(looked, Reply::Networks(Ok(networks)), auth);
            let good = resumed(joining, Reply::Done(Ok(())), auth);
            let bad = resumed(joining, Reply::Done(Err(error)), auth);
            &&& first(AssociateKindView::Open) == Some(
                (ActionView::AssociateOpen { ssid }, joining),
            )
            &&& first(AssociateKindView::Psk(password)) == Some(
                (ActionView::AssociatePsk { ssid, password }, joining),
            )
            &&& first(AssociateKindView::Peap { username, password }) == Some(
                (ActionView::AssociatePeap { ssid, username, password }, joining),
            )
            &&& first(AssociateKindView::Hidden(secret)) == Some(
                (ActionView::DirectedScan { ssid }, looked),
            )
            &&& secret matches Some(p) ==> found.next == Some(
                (ActionView::AssociatePsk { ssid, password: p }, joining),
            )
            &&& secret is None ==> found.next == Some(
                (ActionView::AssociateOpen { ssid }, joining),
            )
            &&& found.events.len() == 0
            &&& resumed(looked, Reply::Networks(Err(error)), auth).events == seq![
                EventView::Error("connect failed: "@ + error@),
            ]
            &&& good.events == seq![EventView::Notice("connected to "@ + ssid)]
            &&& bad.events == seq![EventView::Error("connect failed: "@ + error@)]
            &&& good.next == Some(
                (ActionView::ReadState, PendingView::Refresh { preferred: true }),
            )
            &&& bad.next == good.next
        }),
{
}

/// The radio is switched to the state that was asked for, first by the
/// framework and, where that fails, by the system's program. Success is told
/// by the new state; failure by both reasons.
pub proof fn the_radio_is_switched_as_asked(
    on: bool,
    first: String,
    second: String,
    auth: LocationAuth,
)
    ensures
        ({
            let tried = PendingView::Power { on };
            let told = seq![
                EventView::Notice(
                    if on {
                        "Wi-Fi on"@
                    } else {
                        "Wi-Fi off"@
                    },
                ),
            ];
            &&& dispatched(RequestView::SetPower(on)).next == Some(
                (ActionView::SetPower { on }, tried),
            )
            &&& resumed(tried, Reply::Done(Ok(())), auth).events == told
            &&& resumed(tried, Reply::Done(Err(first)), auth).events.len() == 0
            &&& resumed(tried, Reply::Done(Err(first)), auth).next matches Some(next) && next.0 == (
            ActionView::NetworksetupPower { on }) && resumed(
                next.1,
                Reply::Done(Ok(())),
                auth,
            ).events == told && resumed(next.1, Reply::Done(Err(second)), auth).events == seq![
                EventView::Error(
                    "power toggle failed: CoreWLAN="@ + first@ + "; networksetup="@ + second@,
                ),
            ]
        }),
{
    reveal_strlit("Wi-Fi ");
    reveal_strlit("on");
    reveal_strlit("off");
    reveal_strlit("Wi-Fi on");
    reveal_strlit("Wi-Fi off");
    assert("Wi-Fi "@ + "on"@ =~= "Wi-Fi on"@);
    assert("Wi-Fi "@ + "off"@ =~= "Wi-Fi off"@);
}

/// To disconnect leaves the network, whatever the reply, and says so.
pub proof fn a_disconnect_is_told(result: Result<(), String>, auth: LocationAuth)
    ensures
        dispatched(RequestView::Disconnect).next matches Some(next) && next.0 is Disassociate
            && resumed(next.1, Reply::Done(result), auth).events == seq![
            EventView::Notice("disconnected"@),
        ],
{
}

/// A network is forgotten in three steps: its cached password, its place among
/// the known networks, and the list that is shown. Whatever became of the
/// password, the network itself is removed, and the outcome of that is told.
pub proof fn a_network_is_forgotten_by_its_name(
    ssid: Seq<char>,
    dropped: Result<(), String>,
    error: String,
    auth: LocationAuth,
)
    ensures
        ({
            let removed = PendingView::ForgetRemoved { ssid };
            let good = resumed(removed, Reply::Done(Ok(())), auth);
            let bad = resumed(removed, Reply::Done(Err(error)), auth);
            &&& dispatched(RequestView::Forget(ssid)).next matches Some(next) && next.0 == (
            ActionView::ForgetCached { ssid }) && resumed(next.1, Reply::Done(dropped), auth).next
                == Some((ActionView::RemovePreferred { ssid }, removed))
            &&& good.events == seq![EventView::Notice("forgot "@ + ssid)]
            &&& bad.events == seq![EventView::Error("forget failed: "@ + error@)]
            &&& good.next == Some((ActionView::ListPreferred, PendingView::Preferred))
            &&& bad.next == good.next
        }),
{
}

/// How a network is shared: one that needs a password is looked up among the
/// cached ones first and then among the system's own. What is found goes into
/// the code, and the code says whether it carries a password. Where none is
/// found the network is shared without one, and the user is told.
pub proof fn a_shared_code_carries_the_password_that_was_found(
    ssid: Seq<char>,
    security: ShareSecurity,
    bytes: Vec<u8>,
    missing: KeychainError,
    stored: Result<(), String>,
    auth: LocationAuth,
)
    requires
        !(security is Nopass),
    ensures
        ({
            let password = text::lossy_text(bytes@);
            let code = |uri: Seq<char>, has_password: bool|
                EventView::ShareReady { schema_version: 1, ssid, uri, has_password };
            let full = code(worker::uri_of(ssid, security, Some(password)), true);
            let bare = code(worker::uri_of(ssid, security, None), false);
            let cache = PendingView::ShareCache { ssid, security };
            let system = PendingView::ShareSystem { ssid, security };
            &&& dispatched(RequestView::Share { ssid, security }).next == Some(
                (ActionView::ReadCached { ssid }, cache),
            )
            &&& dispatched(RequestView::Share { ssid, security }).events.len() == 0
            &&& resumed(cache, Reply::Secret(Ok(bytes)), auth).events == seq![full]
            &&& resumed(cache, Reply::Secret(Err(missing)), auth).next == Some(
                (ActionView::ReadSystemPassword { ssid }, system),
            )
            &&& resumed(cache, Reply::Secret(Err(missing)), auth).events.len() == 0
            &&& resumed(system, Reply::Secret(Ok(bytes)), auth).events.len() == 0
            &&& resumed(system, Reply::Secret(Ok(bytes)), auth).next matches Some(next) && next.0
                == (ActionView::CachePassword { ssid, password }) && resumed(
                next.1,
                Reply::Done(stored),
                auth,
            ).events == seq![full]
            &&& resumed(system, Reply::Secret(Err(missing)), auth).events == seq![
                EventView::Error(
                    "keychain: system keychain lookup for "@ + ssid + " — sharing SSID only"@,
                ),
                bare,
            ]
            &&& dispatched(
                RequestView::Share { ssid, security: ShareSecurity::Nopass },
            ).events == seq![code(worker::uri_of(ssid, ShareSecurity::Nopass, None), false)]
            &&& dispatched(
                RequestView::Share { ssid, security: ShareSecurity::Nopass },
            ).next is None
        }),
{
    reveal_strlit("keychain: ");
    reveal_strlit("system keychain lookup for ");
    reveal_strlit("keychain: system keychain lookup for ");
    assert("keychain: "@ + ("system keychain lookup for "@ + ssid)
        =~= "keychain: system keychain lookup for "@ + ssid);
}

/// What is read is reported as it was read: the state, the known networks, and
/// the networks of a scan, strongest first; and what could not be read is
/// reported as an error of that reading.
pub proof fn what_is_read_is_reported(
    state: InterfaceState,
    names: Vec<String>,
    networks: Vec<ScannedNetwork>,
    error: String,
    preferred: bool,
    auth: LocationAuth,
)
    ensures
        ({
            let refresh = PendingView::Refresh { preferred };
            let read = resumed(refresh, Reply::State(Ok(state)), auth);
            let failed = resumed(refresh, Reply::State(Err(error)), auth);
            let listed = |r: Result<Vec<String>, String>|
                resumed(PendingView::Preferred, Reply::Names(r), auth);
            let scanned = |r: Result<Vec<ScannedNetwork>, String>|
                resumed(PendingView::DirectScan, Reply::Networks(r), auth);
            &&& dispatched(RequestView::RefreshState).next == Some(
                (ActionView::ReadState, PendingView::Refresh { preferred: false }),
            )
            &&& dispatched(RequestView::RefreshPreferred).next == Some(
                (ActionView::ListPreferred, PendingView::Preferred),
            )
            &&& dispatched(RequestView::Scan).events == seq![EventView::ScanStarted]
            &&& dispatched(RequestView::Scan).next == Some(
                (ActionView::FullScan, PendingView::DirectScan),
            )
            &&& read.events == seq![EventView::State(state)]
            &&& failed.events == seq![EventView::Error("state refresh failed: "@ + error@)]
            &&& preferred ==> read.next == Some(
                (ActionView::ListPreferred, PendingView::Preferred),
            ) && failed.next == read.next
            &&& !preferred ==> read.next is None && failed.next is None
            &&& listed(Ok(names)).events == seq![
                EventView::PreferredResult(text::texts(names@)),
            ]
            &&& listed(Err(error)).events == seq![
                EventView::Error("preferred list failed: "@ + error@),
            ]
            &&& scanned(Ok(networks)).events[0] matches EventView::ScanResult(sorted)
            &&& signal::descending(sorted)
            &&& sorted.to_multiset() == networks@.to_multiset()
            &&& scanned(Ok(networks)).events.len() <= 2
            &&& scanned(Ok(networks)).events.len() == 2 ==> scanned(Ok(networks)).events[1] is Error
            &&& scanned(Err(error)).events == seq![EventView::ScanFailed("scan failed: "@ + error@)]
        }),
{
    signal::strongest_first_is_a_stable_sort(networks@, 0);
}

/// The scan of the daemon is reported strongest first, with every network that
/// was found and no other.
pub proof fn a_finished_scan_is_sorted(networks: Vec<ScannedNetwork>, error: String)
    ensures
        scan_result(Ok(networks)) matches Ok(sorted) && (forall|a: int, b: int|
            0 <= a < b < sorted.len() ==> (#[trigger] sorted[a]).rssi >= (#[trigger] sorted[b]).rssi)
            && sorted.to_multiset() == networks@.to_multiset(),
        scan_result(Err(error)) == Err::<Seq<ScannedNetwork>, _>("scan failed: "@ + error@),
{
    signal::strongest_first_is_a_stable_sort(networks@, 0);
    let sorted = signal::strongest_first(networks@);
    assert forall|a: int, b: int| 0 <= a < b < sorted.len() implies (#[trigger] sorted[a]).rssi >= (
    #[trigger] sorted[b]).rssi by {
        assert(signal::HasSignal::signal(&sorted[a]) >= signal::HasSignal::signal(&sorted[b]));
    }
}

/// What the daemon says of itself is put together out of the state, a scan of
/// its own, and the identity of its process: the name and the network are
/// those of the state, and the counts those of the scan.
pub proof fn a_diagnosis_counts_the_scan(
    state: InterfaceState,
    networks: Vec<ScannedNetwork>,
    pid: i32,
    parent_pid: i32,
    location_auth_raw: i32,
    interface: String,
    error: String,
    auth: LocationAuth,
)
    requires
        networks@.len() <= usize::MAX,
    ensures
        ({
            let identity = Reply::Identity { pid, parent_pid, location_auth_raw, interface };
            let told = |read: Result<InterfaceState, String>, scan: Result<
                Vec<ScannedNetwork>,
                String,
            >|
                {
                    let known = resumed(PendingView::DiagnoseState, Reply::State(read), auth);
                    let counted = resumed((known.next->0).1, Reply::Networks(scan), auth);
                    resumed((counted.next->0).1, identity, auth).events
                };
            &&& dispatched(RequestView::Diagnose).next == Some(
                (ActionView::ReadState, PendingView::DiagnoseState),
            )
            &&& told(Ok(state), Ok(networks)) == seq![
                EventView::DaemonDiagnose {
                    pid,
                    parent_pid,
                    location_auth_raw,
                    interface: state.name@,
                    current_ssid: text::opt_text(state.ssid),
                    scan_count: networks@.len() as usize,
                    scan_blank: scan::blank_count(networks@) as usize,
                },
            ]
            &&& told(Err(error), Err(error)) == seq![
                EventView::DaemonDiagnose {
                    pid,
                    parent_pid,
                    location_auth_raw,
                    interface: interface@,
                    current_ssid: None,
                    scan_count: 0,
                    scan_blank: 0,
                },
            ]
        }),
{
}

/// A reply that does not fit what was waited for ends the request without a
/// word.
pub proof fn a_reply_of_another_kind_says_nothing(
    pending: PendingView,
    result: Result<(), String>,
    auth: LocationAuth,
)
    requires
        pending is SavedScan || pending is SavedCache || pending is Verify || pending is Preferred
            || pending is DirectScan || pending is Refresh,
    ensures
        resumed(pending, Reply::Done(result), auth).events.len() == 0,
        resumed(pending, Reply::Done(result), auth).next is None,
        resumed(pending, Reply::Done(result), auth).verify is None,
{
}

/// The log tells the joins apart: what is said of one names its network.
pub proof fn the_log_names_the_outcome_of_a_join(
    ssid: Seq<char>,
    fail_detail: Seq<char>,
    attempts: u8,
    state: Result<InterfaceState, String>,
    auth: LocationAuth,
    cause: Option<Seq<char>>,
)
    ensures
        ({
            let saved = PendingView::Verify {
                ssid,
                kind: JoinKindView::Saved { fail_detail },
                attempts,
            };
            let typed = PendingView::Verify { ssid, kind: JoinKindView::Password, attempts };
            let said = |pending: PendingView| logged(pending, Reply::State(state), cause, auth);
            &&& shows(state, ssid) ==> said(saved) == Some("reconnected to "@ + ssid) && said(typed)
                is None
            &&& !shows(state, ssid) && attempts > 1 ==> said(saved) is None && said(typed) is None
            &&& !shows(state, ssid) && attempts <= 1 ==> said(saved) == Some(
                "JoinSaved("@ + ssid + ") failed: "@ + "AssociationFailed"@ + " — "@ + fail_detail,
            ) && said(typed) == Some(
                "join to "@ + ssid + ": networksetup ok but association unconfirmed"@,
            )
        }),
{
}

/// The log tells of a join that was refused, with the reason and what lies
/// beneath it, and of the password that was cached, or that could not be.
pub proof fn the_log_tells_what_became_of_a_password(
    ssid: Seq<char>,
    password: Seq<char>,
    error: String,
    cause: Seq<char>,
    auth: LocationAuth,
)
    ensures
        ({
            let joining = PendingView::JoinAccepted { ssid, password };
            let caching = PendingView::JoinCached { ssid };
            let refused = Reply::Done(Err(error));
            let done = Reply::Done(Ok(()));
            &&& logged(joining, refused, None, auth) == Some(
                "join to "@ + ssid + " failed: "@ + error@,
            )
            &&& logged(joining, refused, Some(cause), auth) == Some(
                "join to "@ + ssid + " failed: "@ + (error@ + ": "@ + cause),
            )
            &&& logged(joining, done, None, auth) is None
            &&& logged(caching, done, None, auth) == Some("cached password for "@ + ssid)
            &&& logged(caching, refused, None, auth) == Some(
                "cache_password("@ + ssid + ") failed: "@ + error@,
            )
        }),
{
}

/// Every failed reconnect is logged, with its network, its reason and its
/// detail, as the user is told of it.
pub proof fn every_failed_reconnect_is_logged(
    pending: PendingView,
    reply: Reply,
    cause: Option<Seq<char>>,
    auth: LocationAuth,
)
    requires
        resumed(pending, reply, auth).events.len() > 0,
    ensures
        resumed(pending, reply, auth).events[0] matches EventView::JoinSavedFailed {
            ssid,
            reason,
            detail,
        } ==> logged(pending, reply, cause, auth) == Some(
            "JoinSaved("@ + ssid + ") failed: "@ + reason_name(reason) + " — "@ + detail,
        ),
        reason_name(JoinFailReason::NotInRange) == "NotInRange"@,
        reason_name(JoinFailReason::AssociationFailed) == "AssociationFailed"@,
        reason_name(JoinFailReason::NoCachedCredential) == "NoCachedCredential"@,
        reason_name(JoinFailReason::KeychainDenied) == "KeychainDenied"@,
{
}

/// However a request ends, the state of the interface is read once more before
/// its end wherever the request may have changed it.
pub proof fn the_state_is_read_after_every_change(
    pending: PendingView,
    result: Result<(), String>,
    auth: LocationAuth,
)
    requires
        pending is Association || pending is PowerFallback || pending is Disconnected || pending
            is SavedPoisoned,
    ensures
        resumed(pending, Reply::Done(result), auth).events.len() == 1,
        resumed(pending, Reply::Done(result), auth).next matches Some(next) && next.0 is ReadState
            && next.1 is Refresh,
{
}

/// A report of the worker keeps the event and the client of the step that it
/// comes from, and a check that it asks for keeps the network, the kind of the
/// join and the count of checks that are left.
pub proof fn a_report_keeps_its_step(
    o: Option<Origin>,
    e: Event,
    origin: Option<Origin>,
    event: EventView,
    ssid: String,
    kind: JoinKind,
    attempts_remaining: u8,
    check: VerificationView,
)
    ensures
        emits(WorkerEvent::Emit { origin: o, event: e }, origin, event) <==> o == origin && e@
            == event,
        schedules(
            WorkerEvent::ScheduleVerify { origin: o, ssid, kind, attempts_remaining },
            origin,
            check,
        ) <==> o == origin && ssid@ == check.ssid && kind@ == check.kind && attempts_remaining
            == check.attempts_remaining,
{
}

/// The known networks are read again exactly after an association that was
/// asked for by name, whether it has worked or not, since it may have added
/// one; after anything else the state alone is read.
pub proof fn known_networks_are_read_after_an_association(
    pending: PendingView,
    reply: Reply,
    auth: LocationAuth,
)
    ensures
        resumed(pending, reply, auth).next matches Some(next) ==> (
        next.1 matches PendingView::Refresh { preferred } ==> next.0 is ReadState && (preferred
            <==> pending is Association || pending is HiddenScan)),
{
}

} // verus!
