//! The state of the terminal interface, and what each command does to it.

use vstd::prelude::*;

use crate::corewlan::{self, InterfaceState, ScannedNetwork, Security};
use crate::event::{Event, JoinFailReason, SharePayload};
use crate::input::{Input, InputView, KeyPress};
use crate::location::LocationAuth;
use crate::notification::{self, Notification, NotificationView};
use crate::signal::{self, HasSignal};
use crate::text;
use crate::theme::{self, Theme};
use crate::time::Instant;
use crate::worker::{
    Associate, AssociateKind, AssociateKindView, Request, RequestView, ShareSecurity, WifiHandle,
    WifiView,
};

verus! {

/// The table that the keys act on.
#[derive(Clone, Copy, Debug, PartialEq, Eq, Structural)]
pub enum Focus {
    Preferred,
    Available,
}

/// What lies over the tables.
#[derive(Debug)]
pub enum Overlay {
    /// Nothing does.
    Closed,
    Password(PasswordPrompt),
    EnterpriseUser(EnterprisePrompt),
    EnterprisePass(EnterprisePrompt),
    HiddenSsid(HiddenPrompt),
    HiddenPass(HiddenPrompt),
    Info,
    Share(SharePayload),
}

#[derive(Debug)]
pub struct PasswordPrompt {
    pub ssid: String,
    pub input: Input,
}

#[derive(Debug)]
pub struct EnterprisePrompt {
    pub ssid: String,
    pub username: String,
    pub input: Input,
}

#[derive(Debug)]
pub struct HiddenPrompt {
    pub ssid: String,
    pub input: Input,
}

#[derive(Debug)]
pub struct App {
    pub running: bool,
    pub focus: Focus,
    pub state: Option<InterfaceState>,
    pub networks: Vec<ScannedNetwork>,
    /// The known networks, strongest first.
    pub preferred: Vec<String>,
    pub scanning: bool,
    pub show_all: bool,
    pub show_all_preferred: bool,
    /// The selected row of each table.
    pub available_state: Option<usize>,
    pub preferred_state: Option<usize>,
    pub notifications: Vec<Notification>,
    pub overlay: Overlay,
    pub wifi: WifiHandle,
    pub theme: Theme,
    pub theme_index: usize,
}

// ---------------------------------------------------------------------------
// Views.
// ---------------------------------------------------------------------------

#[verifier::ext_equal]
pub enum OverlayView {
    Closed,
    Password { ssid: Seq<char>, input: InputView },
    EnterpriseUser { ssid: Seq<char>, username: Seq<char>, input: InputView },
    EnterprisePass { ssid: Seq<char>, username: Seq<char>, input: InputView },
    HiddenSsid { ssid: Seq<char>, input: InputView },
    HiddenPass { ssid: Seq<char>, input: InputView },
    Info,
    Share { schema_version: u8, ssid: Seq<char>, uri: Seq<char>, has_password: bool },
}

impl View for Overlay {
    type V = OverlayView;

    open spec fn view(&self) -> OverlayView {
        match *self {
            Overlay::Closed => OverlayView::Closed,
            Overlay::Password(p) => OverlayView::Password { ssid: p.ssid@, input: p.input@ },
            Overlay::EnterpriseUser(p) => OverlayView::EnterpriseUser {
                ssid: p.ssid@,
                username: p.username@,
                input: p.input@,
            },
            Overlay::EnterprisePass(p) => OverlayView::EnterprisePass {
                ssid: p.ssid@,
                username: p.username@,
                input: p.input@,
            },
            Overlay::HiddenSsid(p) => OverlayView::HiddenSsid { ssid: p.ssid@, input: p.input@ },
            Overlay::HiddenPass(p) => OverlayView::HiddenPass { ssid: p.ssid@, input: p.input@ },
            Overlay::Info => OverlayView::Info,
            Overlay::Share(p) => OverlayView::Share {
                schema_version: p.schema_version,
                ssid: p.ssid@,
                uri: p.uri@,
                has_password: p.has_password,
            },
        }
    }
}

impl OverlayView {
    /// The cursor of a prompt stands within its text.
    pub open spec fn valid(self) -> bool {
        match self {
            OverlayView::Password { input, .. } => input.valid(),
            OverlayView::EnterpriseUser { input, .. } => input.valid(),
            OverlayView::EnterprisePass { input, .. } => input.valid(),
            OverlayView::HiddenSsid { input, .. } => input.valid(),
            OverlayView::HiddenPass { input, .. } => input.valid(),
            _ => true,
        }
    }

    /// The overlay after a key for its prompt.
    pub open spec fn typed(self, key: KeyPress) -> OverlayView {
        match self {
            OverlayView::Password { ssid, input } => OverlayView::Password {
                ssid,
                input: input.after(key),
            },
            OverlayView::EnterpriseUser { ssid, username, input } => OverlayView::EnterpriseUser {
                ssid,
                username,
                input: input.after(key),
            },
            OverlayView::EnterprisePass { ssid, username, input } => OverlayView::EnterprisePass {
                ssid,
                username,
                input: input.after(key),
            },
            OverlayView::HiddenSsid { ssid, input } => OverlayView::HiddenSsid {
                ssid,
                input: input.after(key),
            },
            OverlayView::HiddenPass { ssid, input } => OverlayView::HiddenPass {
                ssid,
                input: input.after(key),
            },
            other => other,
        }
    }
}

/// The interface as a mathematical value.
#[verifier::ext_equal]
pub struct AppView {
    pub running: bool,
    pub focus: Focus,
    pub state: Option<InterfaceState>,
    pub networks: Seq<ScannedNetwork>,
    pub preferred: Seq<String>,
    pub scanning: bool,
    pub show_all: bool,
    pub show_all_preferred: bool,
    pub available_state: Option<usize>,
    pub preferred_state: Option<usize>,
    pub notifications: Seq<NotificationView>,
    pub overlay: OverlayView,
    pub wifi: WifiView,
    pub theme_index: usize,
}

impl View for App {
    type V = AppView;

    open spec fn view(&self) -> AppView {
        AppView {
            running: self.running,
            focus: self.focus,
            state: self.state,
            networks: self.networks@,
            preferred: self.preferred@,
            scanning: self.scanning,
            show_all: self.show_all,
            show_all_preferred: self.show_all_preferred,
            available_state: self.available_state,
            preferred_state: self.preferred_state,
            notifications: notification::notification_views(self.notifications@),
            overlay: self.overlay@,
            wifi: self.wifi@,
            theme_index: self.theme_index,
        }
    }
}

// ---------------------------------------------------------------------------
// Which networks are shown, and in which order.
// ---------------------------------------------------------------------------

/// A known network and how strong it is now.
#[derive(Debug)]
pub struct Known {
    pub ssid: String,
    pub strength: i128,
}

/// Weaker than any network that is in range.
pub const OUT_OF_RANGE: i128 = -0x1_0000_0000_0000_0000;

/// How strong the network of a name is now.
pub open spec fn strength_of(networks: Seq<ScannedNetwork>, ssid: Seq<char>) -> i128 {
    match corewlan::first_named(networks, ssid) {
        Some(n) => n.rssi as i128,
        None => OUT_OF_RANGE,
    }
}

impl HasSignal for Known {
    open spec fn signal(&self) -> int {
        self.strength as int
    }

    fn read_signal(&self) -> (r: i128) {
        self.strength
    }
}

/// Names with their strengths.
pub open spec fn tagged(networks: Seq<ScannedNetwork>, names: Seq<String>) -> Seq<Known> {
    Seq::new(
        names.len(),
        |i: int| Known { ssid: names[i], strength: strength_of(networks, names[i]@) },
    )
}

/// The names of tagged entries.
pub open spec fn untagged(known: Seq<Known>) -> Seq<String> {
    Seq::new(known.len(), |i: int| known[i].ssid)
}

/// Known networks, strongest first; those out of range come last, and equals
/// keep their order.
pub open spec fn ranked(networks: Seq<ScannedNetwork>, names: Seq<String>) -> Seq<String> {
    untagged(signal::strongest_first(tagged(networks, names)))
}

/// The network of this name is in range.
pub open spec fn in_range(networks: Seq<ScannedNetwork>, ssid: Seq<char>) -> bool {
    corewlan::first_named(networks, ssid) is Some
}

/// The names that are in range, or those that are not, in order.
pub open spec fn names_in_range(
    networks: Seq<ScannedNetwork>,
    names: Seq<String>,
    wanted: bool,
) -> Seq<String>
    decreases names.len(),
{
    if names.len() == 0 {
        names
    } else {
        let before = names_in_range(networks, names.drop_last(), wanted);
        if in_range(networks, names.last()@) == wanted {
            before.push(names.last())
        } else {
            before
        }
    }
}

/// A name is one of the known ones.
pub open spec fn is_known(names: Seq<String>, ssid: Seq<char>) -> bool {
    exists|i: int| 0 <= i < names.len() && (#[trigger] names[i])@ == ssid
}

/// A network belongs into the table of new networks: it is not known, and it
/// has a name and some strength, unless everything is to be shown.
pub open spec fn listed(n: ScannedNetwork, names: Seq<String>, show_all: bool) -> bool {
    &&& !(n.ssid matches Some(s) && is_known(names, s@))
    &&& show_all || (!n.is_blank() && n.rssi > -85)
}

/// The networks of the table of new networks, in the order of the scan.
pub open spec fn new_networks(
    networks: Seq<ScannedNetwork>,
    names: Seq<String>,
    show_all: bool,
) -> Seq<ScannedNetwork>
    decreases networks.len(),
{
    if networks.len() == 0 {
        networks
    } else {
        let before = new_networks(networks.drop_last(), names, show_all);
        if listed(networks.last(), names, show_all) {
            before.push(networks.last())
        } else {
            before
        }
    }
}

/// A selection, brought into a list of `len` rows: kept where it fits, and
/// otherwise the first row, if there is one.
pub open spec fn clamped(selected: Option<usize>, len: nat) -> Option<usize> {
    if len == 0 {
        None
    } else {
        match selected {
            Some(i) => if i < len {
                Some(i)
            } else {
                Some(0)
            },
            None => Some(0),
        }
    }
}

/// A selection, moved within a list of `len` rows that is closed to a ring.
pub open spec fn moved(selected: Option<usize>, delta: int, len: nat) -> Option<usize> {
    if len == 0 {
        None
    } else {
        let from = match selected {
            Some(i) => i as int,
            None => 0,
        };
        Some(((from + delta) % len as int) as usize)
    }
}

fn clamp_selection(selected: Option<usize>, len: usize) -> (r: Option<usize>)
    ensures
        r == clamped(selected, len as nat),
{
    if len == 0 {
        None
    } else {
        match selected {
            Some(i) => if i < len {
                Some(i)
            } else {
                Some(0)
            },
            None => Some(0),
        }
    }
}

/// The place `delta` steps from `from` on a ring of `len` places.
fn ring(from: usize, delta: isize, len: usize) -> (r: usize)
    requires
        len > 0,
    ensures
        r == (from + delta) % (len as int),
        r < len,
{
    let sum: i128 = from as i128 + delta as i128;
    if sum >= 0 {
        let s: u128 = sum as u128;
        (s % (len as u128)) as usize
    } else {
        // The distance below zero, less one.
        let below: u128 = (-(sum + 1)) as u128;
        let back: u128 = below % (len as u128);
        proof {
            let q = (below / len as u128) as int;
            let t = back as int;
            let l = len as int;
            vstd::arithmetic::div_mod::lemma_fundamental_div_mod(below as int, l);
            assert(sum as int == (-(q + 1)) * l + (l - 1 - t)) by (nonlinear_arith)
                requires
                    below as int == l * q + t,
                    sum as int == -(below as int) - 1,
            ;
            vstd::arithmetic::div_mod::lemma_fundamental_div_mod_converse(
                sum as int,
                l,
                -(q + 1),
                l - 1 - t,
            );
        }
        (len as u128 - 1 - back) as usize
    }
}

fn move_in_ring(selected: Option<usize>, delta: isize, len: usize) -> (r: Option<usize>)
    ensures
        r == moved(selected, delta as int, len as nat),
{
    if len == 0 {
        None
    } else {
        let from: usize = match selected {
            Some(i) => i,
            None => 0,
        };
        Some(ring(from, delta, len))
    }
}

// ---------------------------------------------------------------------------
// What each command does.
// ---------------------------------------------------------------------------

pub open spec fn on_off(b: bool) -> Seq<char> {
    if b {
        "on"@
    } else {
        "off"@
    }
}

/// The notifications after a tick: those without ticks left are gone, and the
/// others have one less.
pub open spec fn faded(notifications: Seq<NotificationView>) -> Seq<NotificationView>
    decreases notifications.len(),
{
    if notifications.len() == 0 {
        notifications
    } else {
        let before = faded(notifications.drop_last());
        let last = notifications.last();
        if last.ttl == 0 {
            before
        } else {
            before.push(NotificationView { ttl: (last.ttl - 1) as u8, ..last })
        }
    }
}

/// The share type of a network's security. An enterprise network has none, for
/// it has no password that could be handed on; one that is out of range counts
/// as the common case.
pub open spec fn share_type(found: Option<ScannedNetwork>) -> Option<ShareSecurity> {
    match found {
        Some(n) => match n.security {
            Security::Open => Some(ShareSecurity::Nopass),
            Security::Wep => Some(ShareSecurity::Wep),
            Security::WpaEnterprise => None,
            Security::Wpa2Enterprise => None,
            Security::Wpa3Enterprise => None,
            _ => Some(ShareSecurity::Wpa),
        },
        None => Some(ShareSecurity::Wpa),
    }
}

impl AppView {
    /// The rows of the table of new networks.
    pub open spec fn available(self) -> Seq<ScannedNetwork> {
        signal::strongest_first(new_networks(self.networks, self.preferred, self.show_all))
    }

    /// The rows of the table of known networks.
    pub open spec fn known(self) -> Seq<String> {
        let near = names_in_range(self.networks, self.preferred, true);
        if self.show_all_preferred {
            near + names_in_range(self.networks, self.preferred, false)
        } else {
            near
        }
    }

    pub open spec fn told(self, text: Seq<char>) -> AppView {
        AppView { notifications: self.notifications.push(notification::info_view(text)), ..self }
    }

    pub open spec fn warned(self, text: Seq<char>) -> AppView {
        AppView { notifications: self.notifications.push(notification::error_view(text)), ..self }
    }

    pub open spec fn asked(self, request: RequestView, now: Instant) -> AppView {
        AppView { wifi: self.wifi.sent(request, now), ..self }
    }

    pub open spec fn covered(self, overlay: OverlayView) -> AppView {
        AppView { overlay, ..self }
    }

    pub open spec fn quitting(self) -> AppView {
        AppView { running: false, ..self }
    }

    pub open spec fn ticked(self) -> AppView {
        AppView { notifications: faded(self.notifications), ..self }
    }

    /// The theme `delta` places further, on the ring of themes.
    pub open spec fn themed(self, delta: int) -> AppView {
        let k = (self.theme_index + delta) % theme::THEME_COUNT as int;
        AppView { theme_index: k as usize, ..self }.told("theme: "@ + theme::name_at(k))
    }

    pub open spec fn all_shown(self) -> AppView {
        let show_all = !self.show_all;
        AppView {
            show_all,
            available_state: if self.networks.len() > 0 {
                Some(0)
            } else {
                self.available_state
            },
            ..self
        }.told("show all: "@ + on_off(show_all))
    }

    pub open spec fn all_known_shown(self) -> AppView {
        let show_all_preferred = !self.show_all_preferred;
        let next = AppView { show_all_preferred, ..self };
        AppView {
            preferred_state: clamped(self.preferred_state, next.known().len()),
            ..next
        }.told("show unavailable known: "@ + on_off(show_all_preferred))
    }

    /// The interface after new scan results: the known networks are ordered
    /// anew, and both selections stay within their tables.
    pub open spec fn scanned(self, networks: Seq<ScannedNetwork>) -> AppView {
        let next = AppView {
            networks,
            scanning: false,
            preferred: ranked(networks, self.preferred),
            ..self
        };
        AppView {
            available_state: clamped(self.available_state, next.available().len()),
            preferred_state: clamped(self.preferred_state, next.known().len()),
            ..next
        }
    }

    /// The interface after a new list of known networks.
    pub open spec fn preferring(self, names: Seq<String>) -> AppView {
        let next = AppView { preferred: ranked(self.networks, names), ..self };
        AppView { preferred_state: clamped(self.preferred_state, next.known().len()), ..next }
    }

    /// The interface after an event of the daemon.
    pub open spec fn informed(self, ev: Event) -> AppView {
        match ev {
            Event::State(s) => AppView { state: Some(s), ..self },
            Event::ScanStarted => AppView { scanning: true, ..self },
            Event::ScanResult(n) => self.scanned(n@),
            Event::ScanFailed(e) => AppView { scanning: false, ..self }.warned(e@),
            Event::PreferredResult(v) => self.preferring(v@),
            Event::Notice(t) => self.told(t@),
            Event::Error(t) => self.warned(t@),
            Event::ShareReady(p) => self.covered(
                OverlayView::Share {
                    schema_version: p.schema_version,
                    ssid: p.ssid@,
                    uri: p.uri@,
                    has_password: p.has_password,
                },
            ),
            Event::JoinSavedFailed { ssid, reason, detail } => if reason
                == JoinFailReason::NotInRange {
                self.warned("connect to "@ + ssid@ + " failed: "@ + detail@)
            } else {
                self.told(ssid@ + ": enter password to connect ("@ + detail@ + ")"@).covered(
                    OverlayView::Password { ssid: ssid@, input: InputView::empty() },
                )
            },
            Event::DaemonDiagnose(_) => self,
        }
    }

    /// The row that is selected among the new networks.
    pub open spec fn picked_network(self) -> Option<ScannedNetwork> {
        match self.available_state {
            Some(i) => if i < self.available().len() {
                Some(self.available()[i as int])
            } else {
                None
            },
            None => None,
        }
    }

    /// The row that is selected among the known networks.
    pub open spec fn picked_known(self) -> Option<String> {
        match self.preferred_state {
            Some(i) => if i < self.known().len() {
                Some(self.known()[i as int])
            } else {
                None
            },
            None => None,
        }
    }

    pub open spec fn shifted(self, delta: int) -> AppView {
        match self.focus {
            Focus::Available => AppView {
                available_state: moved(self.available_state, delta, self.available().len()),
                ..self
            },
            Focus::Preferred => AppView {
                preferred_state: moved(self.preferred_state, delta, self.known().len()),
                ..self
            },
        }
    }

    pub open spec fn refocused(self) -> AppView {
        AppView {
            focus: match self.focus {
                Focus::Available => Focus::Preferred,
                Focus::Preferred => Focus::Available,
            },
            ..self
        }
    }

    /// The interface after the selected new network is to be joined: an open
    /// one is joined at once, any other after a prompt.
    pub open spec fn connecting(self, auth: LocationAuth, now: Instant) -> AppView {
        match self.picked_network() {
            None => self,
            Some(n) => match n.ssid {
                None => self.warned(
                    if auth == LocationAuth::Authorized {
                        "hidden network — use the hidden-SSID join (h) to connect by name"@
                    } else {
                        "network names hidden — grant Location permission to macwifi.app"@
                    },
                ),
                Some(ssid) => match n.security {
                    Security::Open => self.asked(
                        RequestView::Associate { ssid: ssid@, kind: AssociateKindView::Open },
                        now,
                    ),
                    Security::WpaEnterprise => self.covered(enterprise_prompt(ssid@)),
                    Security::Wpa2Enterprise => self.covered(enterprise_prompt(ssid@)),
                    Security::Wpa3Enterprise => self.covered(enterprise_prompt(ssid@)),
                    _ => self.covered(
                        OverlayView::Password { ssid: ssid@, input: InputView::empty() },
                    ),
                },
            },
        }
    }

    pub open spec fn reconnecting(self, now: Instant) -> AppView {
        match self.picked_known() {
            Some(ssid) => self.asked(RequestView::JoinSaved(ssid@), now),
            None => self,
        }
    }

    pub open spec fn sharing(self, now: Instant) -> AppView {
        match self.picked_known() {
            Some(ssid) => match share_type(corewlan::first_named(self.networks, ssid@)) {
                Some(security) => self.asked(RequestView::Share { ssid: ssid@, security }, now),
                None => self.warned("can't share enterprise networks — no shareable password"@),
            },
            None => self,
        }
    }

    /// The interface after the prompt has been submitted: it closes, gives way
    /// to the next one, or leads to a request.
    pub open spec fn submitted(self, now: Instant) -> AppView {
        let closed = self.covered(OverlayView::Closed);
        match self.overlay {
            OverlayView::Password { ssid, input } => closed.asked(
                RequestView::JoinWithPassword { ssid, password: input.text },
                now,
            ),
            OverlayView::EnterpriseUser { ssid, input, .. } => self.covered(
                OverlayView::EnterprisePass {
                    ssid,
                    username: input.text,
                    input: InputView::empty(),
                },
            ),
            OverlayView::EnterprisePass { ssid, username, input } => closed.asked(
                RequestView::Associate {
                    ssid,
                    kind: AssociateKindView::Peap { username, password: input.text },
                },
                now,
            ),
            OverlayView::HiddenSsid { input, .. } => if input.text.len() == 0 {
                closed
            } else {
                self.covered(
                    OverlayView::HiddenPass { ssid: input.text, input: InputView::empty() },
                )
            },
            OverlayView::HiddenPass { ssid, input } => if input.text.len() == 0 {
                closed.asked(
                    RequestView::Associate { ssid, kind: AssociateKindView::Hidden(None) },
                    now,
                )
            } else {
                closed.asked(RequestView::JoinWithPassword { ssid, password: input.text }, now)
            },
            _ => closed,
        }
    }
}

pub open spec fn enterprise_prompt(ssid: Seq<char>) -> OverlayView {
    OverlayView::EnterpriseUser { ssid, username: seq![], input: InputView::empty() }
}

fn is_in_range(networks: &Vec<ScannedNetwork>, ssid: &str) -> (r: bool)
    ensures
        r == in_range(networks@, ssid@),
{
    corewlan::find_named(networks, ssid).is_some()
}

fn holds_name(names: &Vec<String>, ssid: &str) -> (r: bool)
    ensures
        r == is_known(names@, ssid@),
{
    let mut i: usize = 0;
    while i < names.len()
        invariant
            i <= names@.len(),
            forall|k: int| 0 <= k < i ==> (#[trigger] names@[k])@ != ssid@,
        decreases names@.len() - i,
    {
        if text::same_text(names[i].as_str(), ssid) {
            assert(names@[i as int]@ == ssid@);
            return true;
        }
        i += 1;
    }
    false
}

/// The names that are in range, or those that are not.
fn pick_names(networks: &Vec<ScannedNetwork>, names: &Vec<String>, wanted: bool) -> (r: Vec<String>)
    ensures
        r@ == names_in_range(networks@, names@, wanted),
{
    let mut out: Vec<String> = Vec::new();
    let mut i: usize = 0;
    assert(names@.take(0) =~= Seq::<String>::empty());
    while i < names.len()
        invariant
            i <= names@.len(),
            out@ == names_in_range(networks@, names@.take(i as int), wanted),
        decreases names@.len() - i,
    {
        assert(names@.take(i + 1).drop_last() =~= names@.take(i as int));
        if is_in_range(networks, names[i].as_str()) == wanted {
            out.push(names[i].clone());
        }
        i += 1;
    }
    assert(names@.take(names@.len() as int) =~= names@);
    out
}

fn is_listed(n: &ScannedNetwork, names: &Vec<String>, show_all: bool) -> (r: bool)
    ensures
        r == listed(*n, names@, show_all),
{
    let known = match &n.ssid {
        Some(s) => holds_name(names, s.as_str()),
        None => false,
    };
    if known {
        return false;
    }
    show_all || (!n.blank() && n.rssi > -85)
}

/// Entries of a list of references.
pub open spec fn derefs(s: Seq<&ScannedNetwork>) -> Seq<ScannedNetwork> {
    Seq::new(s.len(), |i: int| *s[i])
}

proof fn lemma_placed_derefs(s: Seq<&ScannedNetwork>, x: &ScannedNetwork)
    ensures
        derefs(signal::placed(s, x)) == signal::placed(derefs(s), *x),
    decreases s.len(),
{
    if s.len() == 0 || s.last().rssi >= x.rssi {
        assert(derefs(s.push(x)) =~= derefs(s).push(*x));
    } else {
        lemma_placed_derefs(s.drop_last(), x);
        assert(derefs(s).drop_last() =~= derefs(s.drop_last()));
        assert(derefs(signal::placed(s.drop_last(), x).push(s.last())) =~= derefs(
            signal::placed(s.drop_last(), x),
        ).push(*s.last()));
    }
}

proof fn lemma_sorted_derefs(s: Seq<&ScannedNetwork>)
    ensures
        derefs(signal::strongest_first(s)) == signal::strongest_first(derefs(s)),
    decreases s.len(),
{
    if s.len() == 0 {
        assert(derefs(s) =~= Seq::<ScannedNetwork>::empty());
    } else {
        lemma_sorted_derefs(s.drop_last());
        assert(derefs(s).drop_last() =~= derefs(s.drop_last()));
        lemma_placed_derefs(signal::strongest_first(s.drop_last()), s.last());
    }
}

/// Orders known networks, strongest first.
fn rank(networks: &Vec<ScannedNetwork>, names: Vec<String>) -> (r: Vec<String>)
    ensures
        r@ == ranked(networks@, names@),
{
    let mut tags: Vec<Known> = Vec::new();
    let mut i: usize = 0;
    while i < names.len()
        invariant
            i <= names@.len(),
            tags@.len() == i,
            forall|k: int|
                0 <= k < i ==> (#[trigger] tags@[k]) == (Known {
                    ssid: names@[k],
                    strength: strength_of(networks@, names@[k]@),
                }),
        decreases names@.len() - i,
    {
        let strength: i128 = match corewlan::find_named(networks, names[i].as_str()) {
            Some(n) => n.rssi as i128,
            None => OUT_OF_RANGE,
        };
        tags.push(Known { ssid: names[i].clone(), strength });
        i += 1;
    }
    assert(tags@ =~= tagged(networks@, names@));
    let sorted = signal::sort_strongest_first(tags);
    let mut out: Vec<String> = Vec::new();
    let mut j: usize = 0;
    while j < sorted.len()
        invariant
            j <= sorted@.len(),
            out@.len() == j,
            forall|k: int| 0 <= k < j ==> (#[trigger] out@[k]) == sorted@[k].ssid,
        decreases sorted@.len() - j,
    {
        out.push(sorted[j].ssid.clone());
        j += 1;
    }
    assert(out@ =~= untagged(sorted@));
    out
}

fn on_off_word(b: bool) -> (r: &'static str)
    ensures
        r@ == on_off(b),
{
    if b {
        "on"
    } else {
        "off"
    }
}

impl App {
    /// The theme is the one at its place, and the cursor of a prompt stands
    /// within its text.
    pub open spec fn valid(&self) -> bool {
        &&& self.theme_index < theme::THEME_COUNT
        &&& theme::is_theme(self.theme, self.theme_index as int)
        &&& self.overlay@.valid()
    }

    /// The interface at its start: it scans, and its first rows are selected.
    pub fn new(wifi: WifiHandle, theme_name: Option<&str>) -> (r: Self)
        ensures
            r.valid(),
            r@ == (AppView {
                running: true,
                focus: Focus::Available,
                state: None,
                networks: seq![],
                preferred: seq![],
                scanning: true,
                show_all: false,
                show_all_preferred: false,
                available_state: Some(0),
                preferred_state: Some(0),
                notifications: seq![],
                overlay: OverlayView::Closed,
                wifi: wifi@,
                theme_index: (match theme_name {
                    Some(name) => match theme::found_from(0, name@) {
                        Some(k) => k,
                        None => 0,
                    },
                    None => 0,
                }) as usize,
            }),
    {
        let theme = match theme_name {
            Some(name) => match theme::by_name(name) {
                Some(t) => t,
                None => theme::theme_at(theme::DEFAULT),
            },
            None => theme::theme_at(theme::DEFAULT),
        };
        let theme_index: usize = theme::index_of(theme.name);
        proof {
            let k = match theme_name {
                Some(name) => match theme::found_from(0, name@) {
                    Some(k) => k,
                    None => 0,
                },
                None => 0,
            };
            assert(theme::is_theme(theme, k));
            theme::every_theme_is_found_by_its_name(k);
        }
        let r = App {
            running: true,
            focus: Focus::Available,
            state: None,
            networks: Vec::new(),
            preferred: Vec::new(),
            scanning: true,
            show_all: false,
            show_all_preferred: false,
            available_state: Some(0),
            preferred_state: Some(0),
            notifications: Vec::new(),
            overlay: Overlay::Closed,
            wifi,
            theme,
            theme_index,
        };
        assert(r@.notifications =~= seq![]);
        r
    }

    fn tell(&mut self, message: String)
        requires
            old(self).valid(),
        ensures
            final(self).valid(),
            final(self)@ == old(self)@.told(message@),
    {
        self.notifications.push(Notification::info(message));
        assert(self@.notifications =~= old(self)@.notifications.push(
            notification::info_view(message@),
        ));
    }

    fn warn(&mut self, message: String)
        requires
            old(self).valid(),
        ensures
            final(self).valid(),
            final(self)@ == old(self)@.warned(message@),
    {
        self.notifications.push(Notification::error(message));
        assert(self@.notifications =~= old(self)@.notifications.push(
            notification::error_view(message@),
        ));
    }

    pub fn quit(&mut self)
        requires
            old(self).valid(),
        ensures
            final(self).valid(),
            final(self)@ == old(self)@.quitting(),
    {
        self.running = false;
    }

    /// A tick of the clock: notifications fade.
    pub fn tick(&mut self)
        requires
            old(self).valid(),
        ensures
            final(self).valid(),
            final(self)@ == old(self)@.ticked(),
    {
        let ghost all = self@.notifications;
        let mut kept: Vec<Notification> = Vec::new();
        let mut i: usize = 0;
        assert(all.take(0) =~= Seq::<NotificationView>::empty());
        assert(notification::notification_views(kept@) =~= faded(all.take(0)));
        while i < self.notifications.len()
            invariant
                i <= self.notifications@.len(),
                all == notification::notification_views(self.notifications@),
                notification::notification_views(kept@) == faded(all.take(i as int)),
            decreases self.notifications@.len() - i,
        {
            let n = &self.notifications[i];
            assert(all.take(i + 1).drop_last() =~= all.take(i as int));
            assert(all.take(i + 1).last() == n@);
            let ghost before = kept@;
            if n.ttl > 0 {
                let aged = Notification { text: n.text.clone(), kind: n.kind, ttl: n.ttl - 1 };
                kept.push(aged);
                assert(notification::notification_views(kept@)
                    =~= notification::notification_views(before).push(aged@));
            }
            i += 1;
        }
        assert(all.take(all.len() as int) =~= all);
        self.notifications = kept;
    }

    /// Goes `delta` themes further. The name that is returned is to be saved.
    pub fn cycle_theme(&mut self, delta: isize) -> (name: &'static str)
        requires
            old(self).valid(),
        ensures
            final(self).valid(),
            final(self)@ == old(self)@.themed(delta as int),
            name@ == theme::name_at((old(self).theme_index + delta) % theme::THEME_COUNT as int),
    {
        self.theme_index = ring(self.theme_index, delta, theme::THEME_COUNT);
        self.theme = theme::theme_at(self.theme_index);
        let name = self.theme.name;
        self.tell(text::cat2("theme: ", name));
        name
    }

    pub fn toggle_show_all(&mut self)
        requires
            old(self).valid(),
        ensures
            final(self).valid(),
            final(self)@ == old(self)@.all_shown(),
    {
        self.show_all = !self.show_all;
        if self.networks.len() > 0 {
            self.available_state = Some(0);
        }
        let word = on_off_word(self.show_all);
        self.tell(text::cat2("show all: ", word));
    }

    pub fn toggle_show_all_preferred(&mut self)
        requires
            old(self).valid(),
        ensures
            final(self).valid(),
            final(self)@ == old(self)@.all_known_shown(),
    {
        self.show_all_preferred = !self.show_all_preferred;
        let len: usize = self.visible_preferred().len();
        self.preferred_state = clamp_selection(self.preferred_state, len);
        let word = on_off_word(self.show_all_preferred);
        self.tell(text::cat2("show unavailable known: ", word));
    }

    fn sort_preferred_by_signal(&mut self)
        requires
            old(self).valid(),
        ensures
            final(self).valid(),
            final(self)@ == (AppView {
                preferred: ranked(old(self)@.networks, old(self)@.preferred),
                ..old(self)@
            }),
    {
        let mut names: Vec<String> = Vec::new();
        std::mem::swap(&mut names, &mut self.preferred);
        self.preferred = rank(&self.networks, names);
    }

    /// The rows of the table of known networks.
    pub fn visible_preferred(&self) -> (r: Vec<String>)
        ensures
            r@ == self@.known(),
    {
        let mut out = pick_names(&self.networks, &self.preferred, true);
        if self.show_all_preferred {
            let mut far = pick_names(&self.networks, &self.preferred, false);
            out.append(&mut far);
        }
        out
    }

    /// The rows of the table of new networks.
    pub fn visible_networks(&self) -> (r: Vec<&ScannedNetwork>)
        ensures
            derefs(r@) == self@.available(),
    {
        let mut out: Vec<&ScannedNetwork> = Vec::new();
        let mut i: usize = 0;
        let ghost all = self.networks@;
        let ghost names = self.preferred@;
        assert(all.take(0) =~= Seq::<ScannedNetwork>::empty());
        assert(derefs(out@) =~= new_networks(all.take(0), names, self.show_all));
        while i < self.networks.len()
            invariant
                i <= self.networks@.len(),
                all == self.networks@,
                names == self.preferred@,
                derefs(out@) == new_networks(all.take(i as int), names, self.show_all),
            decreases self.networks@.len() - i,
        {
            let n = &self.networks[i];
            assert(all.take(i + 1).drop_last() =~= all.take(i as int));
            assert(all.take(i + 1).last() == *n);
            let ghost before = out@;
            if is_listed(n, &self.preferred, self.show_all) {
                out.push(n);
                assert(derefs(out@) =~= derefs(before).push(*n));
            }
            i += 1;
        }
        assert(all.take(all.len() as int) =~= all);
        proof {
            lemma_sorted_derefs(out@);
        }
        signal::sort_strongest_first(out)
    }

    /// Takes an event of the daemon.
    pub fn handle_event(&mut self, ev: Event)
        requires
            old(self).valid(),
        ensures
            final(self).valid(),
            final(self)@ == old(self)@.informed(ev),
    {
        match ev {
            Event::State(s) => {
                self.state = Some(s);
            },
            Event::ScanStarted => {
                self.scanning = true;
            },
            Event::ScanResult(n) => {
                self.networks = n;
                self.scanning = false;
                self.sort_preferred_by_signal();
                let shown = self.visible_networks();
                let len: usize = shown.len();
                assert(derefs(shown@).len() == len);
                let known_len: usize = self.visible_preferred().len();
                self.available_state = clamp_selection(self.available_state, len);
                self.preferred_state = clamp_selection(self.preferred_state, known_len);
            },
            Event::ScanFailed(e) => {
                self.scanning = false;
                self.warn(e);
            },
            Event::PreferredResult(v) => {
                self.preferred = v;
                self.sort_preferred_by_signal();
                let len: usize = self.visible_preferred().len();
                self.preferred_state = clamp_selection(self.preferred_state, len);
            },
            Event::Notice(t) => {
                self.tell(t);
            },
            Event::Error(t) => {
                self.warn(t);
            },
            Event::ShareReady(p) => {
                self.overlay = Overlay::Share(p);
            },
            Event::JoinSavedFailed { ssid, reason, detail } => {
                if matches!(reason, JoinFailReason::NotInRange) {
                    self.warn(
                        text::cat4("connect to ", ssid.as_str(), " failed: ", detail.as_str()),
                    );
                } else {
                    self.tell(
                        text::cat4(
                            ssid.as_str(),
                            ": enter password to connect (",
                            detail.as_str(),
                            ")",
                        ),
                    );
                    self.overlay = Overlay::Password(
                        PasswordPrompt { ssid, input: Input::default() },
                    );
                }
            },
            Event::DaemonDiagnose(_) => {},
        }
    }

    pub fn selected_network(&self) -> (r: Option<&ScannedNetwork>)
        ensures
            match r {
                Some(n) => self@.picked_network() == Some(*n),
                None => self@.picked_network() is None,
            },
    {
        let i: usize = match self.available_state {
            Some(i) => i,
            None => {
                return None;
            },
        };
        let rows = self.visible_networks();
        assert(derefs(rows@).len() == rows@.len());
        if i < rows.len() {
            assert(derefs(rows@)[i as int] == *rows@[i as int]);
            Some(rows[i])
        } else {
            None
        }
    }

    pub fn selected_preferred(&self) -> (r: Option<String>)
        ensures
            r == self@.picked_known(),
    {
        let i: usize = match self.preferred_state {
            Some(i) => i,
            None => {
                return None;
            },
        };
        let rows = self.visible_preferred();
        if i < rows.len() {
            Some(rows[i].clone())
        } else {
            None
        }
    }

    /// Moves the selection of the table in focus; behind the last row comes
    /// the first.
    pub fn move_selection(&mut self, delta: isize)
        requires
            old(self).valid(),
        ensures
            final(self).valid(),
            final(self)@ == old(self)@.shifted(delta as int),
    {
        match self.focus {
            Focus::Available => {
                let rows = self.visible_networks();
                let len: usize = rows.len();
                assert(derefs(rows@).len() == len);
                self.available_state = move_in_ring(self.available_state, delta, len);
            },
            Focus::Preferred => {
                let len: usize = self.visible_preferred().len();
                self.preferred_state = move_in_ring(self.preferred_state, delta, len);
            },
        }
    }

    pub fn toggle_focus(&mut self)
        requires
            old(self).valid(),
        ensures
            final(self).valid(),
            final(self)@ == old(self)@.refocused(),
    {
        self.focus = match self.focus {
            Focus::Available => Focus::Preferred,
            Focus::Preferred => Focus::Available,
        };
    }

    /// Joins the selected new network, or asks for what that needs.
    pub fn connect_selected_available(&mut self, auth: LocationAuth, now: Instant)
        requires
            old(self).valid(),
        ensures
            final(self).valid(),
            final(self)@ == old(self)@.connecting(auth, now),
    {
        let (name, security) = match self.selected_network() {
            Some(n) => (n.ssid.clone(), n.security),
            None => {
                return;
            },
        };
        let ssid = match name {
            Some(ssid) => ssid,
            None => {
                let message = if auth.is_authorized() {
                    "hidden network — use the hidden-SSID join (h) to connect by name"
                } else {
                    "network names hidden — grant Location permission to macwifi.app"
                };
                self.warn(message.to_owned());
                return;
            },
        };
        match security {
            Security::Open => {
                self.wifi.send(
                    Request::Associate(Associate { ssid, kind: AssociateKind::Open }),
                    now,
                );
            },
            Security::WpaEnterprise | Security::Wpa2Enterprise | Security::Wpa3Enterprise => {
                self.overlay = Overlay::EnterpriseUser(
                    EnterprisePrompt {
                        ssid,
                        username: String::new(),
                        input: Input::default(),
                    },
                );
                assert(self@.overlay =~= enterprise_prompt(ssid@));
            },
            _ => {
                self.overlay = Overlay::Password(PasswordPrompt { ssid, input: Input::default() });
            },
        }
    }

    /// Joins the selected known network with what is saved for it.
    pub fn connect_selected_preferred(&mut self, now: Instant)
        requires
            old(self).valid(),
        ensures
            final(self).valid(),
            final(self)@ == old(self)@.reconnecting(now),
    {
        if let Some(ssid) = self.selected_preferred() {
            self.wifi.send(Request::JoinSaved(ssid), now);
        }
    }

    /// Asks for the name of a hidden network.
    pub fn start_hidden(&mut self)
        requires
            old(self).valid(),
        ensures
            final(self).valid(),
            final(self)@ == old(self)@.covered(
                OverlayView::HiddenSsid { ssid: seq![], input: InputView::empty() },
            ),
    {
        self.overlay = Overlay::HiddenSsid(
            HiddenPrompt { ssid: String::new(), input: Input::default() },
        );
        assert(self@.overlay =~= OverlayView::HiddenSsid {
            ssid: seq![],
            input: InputView::empty(),
        });
    }

    pub fn show_info(&mut self)
        requires
            old(self).valid(),
        ensures
            final(self).valid(),
            final(self)@ == old(self)@.covered(OverlayView::Info),
    {
        self.overlay = Overlay::Info;
    }

    /// Asks for what is needed to share the selected known network.
    pub fn share_selected_preferred(&mut self, now: Instant)
        requires
            old(self).valid(),
        ensures
            final(self).valid(),
            final(self)@ == old(self)@.sharing(now),
    {
        if let Some(ssid) = self.selected_preferred() {
            match self.security_for(ssid.as_str()) {
                Some(security) => {
                    self.wifi.send(Request::Share { ssid, security }, now);
                },
                None => {
                    self.warn(
                        "can't share enterprise networks — no shareable password".to_owned(),
                    );
                },
            }
        }
    }

    /// The share type of the network of a name.
    pub fn security_for(&self, ssid: &str) -> (r: Option<ShareSecurity>)
        ensures
            r == share_type(corewlan::first_named(self.networks@, ssid@)),
    {
        match corewlan::find_named(&self.networks, ssid) {
            Some(n) => match n.security {
                Security::Open => Some(ShareSecurity::Nopass),
                Security::Wep => Some(ShareSecurity::Wep),
                Security::WpaEnterprise => None,
                Security::Wpa2Enterprise => None,
                Security::Wpa3Enterprise => None,
                _ => Some(ShareSecurity::Wpa),
            },
            None => Some(ShareSecurity::Wpa),
        }
    }

    /// Submits the prompt.
    pub fn submit_overlay(&mut self, now: Instant)
        requires
            old(self).valid(),
        ensures
            final(self).valid(),
            final(self)@ == old(self)@.submitted(now),
    {
        let mut overlay = Overlay::Closed;
        std::mem::swap(&mut overlay, &mut self.overlay);
        match overlay {
            Overlay::Password(p) => {
                self.wifi.send(
                    Request::JoinWithPassword { ssid: p.ssid, password: p.input.value },
                    now,
                );
            },
            Overlay::EnterpriseUser(p) => {
                self.overlay = Overlay::EnterprisePass(
                    EnterprisePrompt {
                        ssid: p.ssid,
                        username: p.input.value,
                        input: Input::default(),
                    },
                );
            },
            Overlay::EnterprisePass(p) => {
                self.wifi.send(
                    Request::Associate(
                        Associate {
                            ssid: p.ssid,
                            kind: AssociateKind::Peap {
                                username: p.username,
                                password: p.input.value,
                            },
                        },
                    ),
                    now,
                );
            },
            Overlay::HiddenSsid(p) => {
                if !p.input.value.as_str().is_empty() {
                    self.overlay = Overlay::HiddenPass(
                        HiddenPrompt { ssid: p.input.value, input: Input::default() },
                    );
                }
            },
            Overlay::HiddenPass(p) => {
                if p.input.value.as_str().is_empty() {
                    self.wifi.send(
                        Request::Associate(
                            Associate { ssid: p.ssid, kind: AssociateKind::Hidden(None) },
                        ),
                        now,
                    );
                } else {
                    self.wifi.send(
                        Request::JoinWithPassword { ssid: p.ssid, password: p.input.value },
                        now,
                    );
                }
            },
            _ => {},
        }
    }
}

// ---------------------------------------------------------------------------
// Laws.
// ---------------------------------------------------------------------------

/// The known networks are ordered by strength, those out of range last, and
/// none is lost or added.
pub proof fn known_networks_are_strongest_first(
    networks: Seq<ScannedNetwork>,
    names: Seq<String>,
    i: int,
    j: int,
)
    requires
        0 <= i < j < names.len(),
    ensures
        ranked(networks, names).len() == names.len(),
        strength_of(networks, ranked(networks, names)[i]@) >= strength_of(
            networks,
            ranked(networks, names)[j]@,
        ),
        ranked(networks, names).to_multiset() == names.to_multiset(),
{
    let tags = tagged(networks, names);
    let sorted = signal::strongest_first(tags);
    signal::strongest_first_is_a_stable_sort(tags, 0);
    lemma_tags_stay_true(networks, tags);
    assert(sorted[i].signal() >= sorted[j].signal());
    lemma_untagged_multiset(tags);
    assert(untagged(tags) =~= names);
}

/// Each entry of a sorted list carries the strength of its name.
proof fn lemma_tags_stay_true(networks: Seq<ScannedNetwork>, tags: Seq<Known>)
    requires
        forall|k: int|
            0 <= k < tags.len() ==> (#[trigger] tags[k]).strength == strength_of(
                networks,
                tags[k].ssid@,
            ),
    ensures
        signal::strongest_first(tags).len() == tags.len(),
        forall|k: int|
            0 <= k < tags.len() ==> (#[trigger] signal::strongest_first(tags)[k]).strength
                == strength_of(networks, signal::strongest_first(tags)[k].ssid@),
{
    broadcast use vstd::seq_lib::group_to_multiset_ensures;

    let sorted = signal::strongest_first(tags);
    signal::strongest_first_is_a_stable_sort(tags, 0);
    assert forall|k: int| 0 <= k < tags.len() implies (#[trigger] sorted[k]).strength
        == strength_of(networks, sorted[k].ssid@) by {
        assert(sorted.contains(sorted[k]));
        assert(sorted.to_multiset().count(sorted[k]) > 0);
        assert(tags.to_multiset().count(sorted[k]) > 0);
        assert(tags.contains(sorted[k]));
        let m = choose|m: int| 0 <= m < tags.len() && tags[m] == sorted[k];
        assert(tags[m].strength == strength_of(networks, tags[m].ssid@));
    }
}

proof fn lemma_untagged_placed(s: Seq<Known>, x: Known)
    ensures
        untagged(signal::placed(s, x)).to_multiset() == untagged(s).to_multiset().insert(x.ssid),
    decreases s.len(),
{
    broadcast use vstd::seq_lib::group_to_multiset_ensures;

    if s.len() == 0 || s.last().signal() >= x.signal() {
        assert(untagged(s.push(x)) =~= untagged(s).push(x.ssid));
    } else {
        let t = s.drop_last();
        lemma_untagged_placed(t, x);
        assert(untagged(signal::placed(t, x).push(s.last())) =~= untagged(
            signal::placed(t, x),
        ).push(s.last().ssid));
        assert(untagged(s) =~= untagged(t).push(s.last().ssid));
        assert(untagged(signal::placed(s, x)).to_multiset() =~= untagged(s).to_multiset().insert(
            x.ssid,
        ));
    }
}

proof fn lemma_untagged_multiset(s: Seq<Known>)
    ensures
        untagged(signal::strongest_first(s)).to_multiset() == untagged(s).to_multiset(),
    decreases s.len(),
{
    broadcast use vstd::seq_lib::group_to_multiset_ensures;

    if s.len() > 0 {
        lemma_untagged_multiset(s.drop_last());
        lemma_untagged_placed(signal::strongest_first(s.drop_last()), s.last());
        assert(untagged(s) =~= untagged(s.drop_last()).push(s.last().ssid));
    }
}

proof fn lemma_new_networks(
    networks: Seq<ScannedNetwork>,
    names: Seq<String>,
    show_all: bool,
    n: ScannedNetwork,
)
    ensures
        new_networks(networks, names, show_all).contains(n) <==> networks.contains(n) && listed(
            n,
            names,
            show_all,
        ),
    decreases networks.len(),
{
    if networks.len() > 0 {
        let init = networks.drop_last();
        let last = networks.last();
        lemma_new_networks(init, names, show_all, n);
        let before = new_networks(init, names, show_all);
        let all = new_networks(networks, names, show_all);
        if init.contains(n) {
            let k = choose|k: int| 0 <= k < init.len() && init[k] == n;
            assert(networks[k] == n);
        }
        if networks.contains(n) && n != last {
            let k = choose|k: int| 0 <= k < networks.len() && networks[k] == n;
            assert(init[k] == n);
        }
        assert(networks[networks.len() - 1] == last);
        if before.contains(n) {
            let k = choose|k: int| 0 <= k < before.len() && before[k] == n;
            assert(all[k] == n);
        }
        if listed(last, names, show_all) {
            assert(all == before.push(last));
            assert(all[before.len() as int] == last);
            if all.contains(n) && n != last {
                let k = choose|k: int| 0 <= k < all.len() && all[k] == n;
                assert(before[k] == n);
            }
        }
    }
}

/// The table of new networks holds exactly the scanned networks that are to be
/// listed: none that is known, and unless everything is shown, none that is
/// nameless or weak.
pub proof fn the_new_table_holds_what_is_listed(app: AppView, n: ScannedNetwork)
    ensures
        app.available().contains(n) <==> app.networks.contains(n) && listed(
            n,
            app.preferred,
            app.show_all,
        ),
{
    broadcast use vstd::seq_lib::group_to_multiset_ensures;

    let rows = new_networks(app.networks, app.preferred, app.show_all);
    lemma_new_networks(app.networks, app.preferred, app.show_all, n);
    signal::strongest_first_is_a_stable_sort(rows, 0);
    assert(app.available().to_multiset().count(n) == rows.to_multiset().count(n));
    assert(app.available().contains(n) <==> app.available().to_multiset().count(n) > 0);
    assert(rows.contains(n) <==> rows.to_multiset().count(n) > 0);
}

/// No network is in both tables.
pub proof fn no_network_is_in_both_tables(app: AppView, n: ScannedNetwork, ssid: Seq<char>)
    requires
        app.available().contains(n),
        n.is_named(ssid),
    ensures
        !is_known(app.preferred, ssid),
        !is_known(app.known(), ssid),
{
    the_new_table_holds_what_is_listed(app, n);
    assert forall|k: int| 0 <= k < app.known().len() implies (#[trigger] app.known()[k])@
        != ssid by {
        lemma_known_rows(app.networks, app.preferred, true);
        lemma_known_rows(app.networks, app.preferred, false);
        let near = names_in_range(app.networks, app.preferred, true);
        let far = names_in_range(app.networks, app.preferred, false);
        let row = app.known()[k];
        if k < near.len() {
            assert(near[k] == row);
            assert(app.preferred.contains(near[k]));
        } else {
            assert(far[k - near.len()] == row);
            assert(app.preferred.contains(far[k - near.len()]));
        }
        let m = choose|m: int| 0 <= m < app.preferred.len() && app.preferred[m] == row;
        assert(app.preferred[m]@ != ssid);
    }
}

proof fn lemma_known_rows(networks: Seq<ScannedNetwork>, names: Seq<String>, wanted: bool)
    ensures
        forall|k: int|
            0 <= k < names_in_range(networks, names, wanted).len() ==> {
                &&& names.contains(#[trigger] names_in_range(networks, names, wanted)[k])
                &&& in_range(networks, names_in_range(networks, names, wanted)[k]@) == wanted
            },
    decreases names.len(),
{
    if names.len() > 0 {
        let init = names.drop_last();
        lemma_known_rows(networks, init, wanted);
        let before = names_in_range(networks, init, wanted);
        let all = names_in_range(networks, names, wanted);
        assert(names[names.len() - 1] == names.last());
        assert forall|k: int| 0 <= k < all.len() implies {
            &&& names.contains(#[trigger] all[k])
            &&& in_range(networks, all[k]@) == wanted
        } by {
            if k < before.len() {
                assert(all[k] == before[k]);
                assert(init.contains(before[k]));
                let m = choose|m: int| 0 <= m < init.len() && init[m] == before[k];
                assert(names[m] == all[k]);
            } else {
                assert(all[k] == names.last());
            }
        }
    }
}

proof fn lemma_partition(networks: Seq<ScannedNetwork>, names: Seq<String>)
    ensures
        names_in_range(networks, names, true).to_multiset().add(
            names_in_range(networks, names, false).to_multiset(),
        ) == names.to_multiset(),
    decreases names.len(),
{
    broadcast use vstd::seq_lib::group_to_multiset_ensures;

    if names.len() == 0 {
        assert(names_in_range(networks, names, true).to_multiset().add(
            names_in_range(networks, names, false).to_multiset(),
        ) =~= names.to_multiset());
    } else {
        let init = names.drop_last();
        lemma_partition(networks, init);
        assert(names =~= init.push(names.last()));
        assert(names_in_range(networks, names, true).to_multiset().add(
            names_in_range(networks, names, false).to_multiset(),
        ) =~= names.to_multiset());
    }
}

/// The table of known networks shows those in range; with the toggle on it
/// shows every known network as often as it is known.
pub proof fn the_known_table_is_complete(app: AppView)
    ensures
        !app.show_all_preferred ==> forall|k: int|
            0 <= k < app.known().len() ==> in_range(app.networks, #[trigger] app.known()[k]@),
        app.show_all_preferred ==> app.known().to_multiset() == app.preferred.to_multiset(),
{
    lemma_known_rows(app.networks, app.preferred, true);
    if app.show_all_preferred {
        let near = names_in_range(app.networks, app.preferred, true);
        let far = names_in_range(app.networks, app.preferred, false);
        lemma_partition(app.networks, app.preferred);
        vstd::seq_lib::lemma_multiset_commutative(near, far);
    }
}

/// A selection fits a table: there is none where the table is empty, and
/// otherwise it is one of its rows.
pub open spec fn fits(selected: Option<usize>, len: nat) -> bool {
    match selected {
        Some(i) => i < len,
        None => len == 0,
    }
}

/// After new scan results both selections fit their tables.
pub proof fn scan_results_leave_both_selections_in_place(
    app: AppView,
    networks: Seq<ScannedNetwork>,
)
    ensures
        fits(app.scanned(networks).available_state, app.scanned(networks).available().len()),
        fits(app.scanned(networks).preferred_state, app.scanned(networks).known().len()),
{
}

/// After a new list of known networks its selection fits.
pub proof fn a_new_list_leaves_its_selection_in_place(app: AppView, names: Seq<String>)
    ensures
        fits(app.preferring(names).preferred_state, app.preferring(names).known().len()),
{
}

/// Moving never leaves the table, and moving back undoes moving on.
pub proof fn moving_back_undoes_moving(selected: Option<usize>, delta: int, len: nat)
    requires
        fits(selected, len),
        len <= usize::MAX,
    ensures
        fits(moved(selected, delta, len), len),
        moved(moved(selected, delta, len), -delta, len) == selected,
{
    if len > 0 {
        let i = selected->0 as int;
        let l = len as int;
        let there = (i + delta) % l;
        vstd::arithmetic::div_mod::lemma_mod_bound(i + delta, l);
        vstd::arithmetic::div_mod::lemma_sub_mod_noop(i + delta, delta, l);
        vstd::arithmetic::div_mod::lemma_mod_twice(i + delta, l);
        vstd::arithmetic::div_mod::lemma_sub_mod_noop(there, delta, l);
        assert((there - delta) % l == i % l);
        vstd::arithmetic::div_mod::lemma_small_mod(i as nat, len);
    }
}

/// Going to the next theme and back changes nothing but the notifications.
pub proof fn going_back_undoes_a_theme(app: AppView, delta: int)
    requires
        app.theme_index < theme::THEME_COUNT,
    ensures
        app.themed(delta).themed(-delta) == (AppView {
            notifications: app.themed(delta).themed(-delta).notifications,
            ..app
        }),
        app.themed(delta).theme_index < theme::THEME_COUNT,
{
    moving_back_undoes_moving(Some(app.theme_index), delta, theme::THEME_COUNT as nat);
}

/// A scan that is over, well or badly, leaves the interface not scanning.
pub proof fn every_end_of_a_scan_is_seen(app: AppView, ev: Event)
    requires
        ev is ScanResult || ev is ScanFailed,
    ensures
        !app.informed(ev).scanning,
{
}

/// The notifications after `k` ticks.
pub open spec fn faded_for(notifications: Seq<NotificationView>, k: nat) -> Seq<NotificationView>
    decreases k,
{
    if k == 0 {
        notifications
    } else {
        faded(faded_for(notifications, (k - 1) as nat))
    }
}

/// A notification is shown for exactly as many ticks as it was given.
pub proof fn a_notification_fades_after_its_ticks(n: NotificationView, k: nat)
    ensures
        k <= n.ttl ==> faded_for(seq![n], k) == seq![
            NotificationView { ttl: (n.ttl - k) as u8, ..n },
        ],
        k > n.ttl ==> faded_for(seq![n], k).len() == 0,
    decreases k,
{
    if k == 0 {
        assert(seq![n] =~= seq![NotificationView { ttl: (n.ttl - k) as u8, ..n }]);
    } else {
        a_notification_fades_after_its_ticks(n, (k - 1) as nat);
        let before = faded_for(seq![n], (k - 1) as nat);
        reveal_with_fuel(faded, 2);
        if k - 1 <= n.ttl {
            assert(before.drop_last() =~= Seq::<NotificationView>::empty());
            if k <= n.ttl {
                assert(faded(before) =~= seq![
                    NotificationView { ttl: (n.ttl - k) as u8, ..n },
                ]);
            }
        }
    }
}

/// A scanned network is among the new ones exactly where no known network has
/// its name and, unless everything is to be shown, it shows a name itself and
/// is stronger than -85 dBm.
pub proof fn a_network_is_new_where_its_name_is_not_known(app: AppView, n: ScannedNetwork)
    requires
        app.networks.contains(n),
    ensures
        app.available().contains(n) <==> {
            &&& n.ssid matches Some(s) ==> forall|i: int|
                0 <= i < app.preferred.len() ==> (#[trigger] app.preferred[i])@ != s@
            &&& app.show_all || n.rssi >= -84 && (n.ssid matches Some(s) && s@.len() > 0)
        },
{
    the_new_table_holds_what_is_listed(app, n);
}

/// The new networks are listed strongest first, each as often as it was
/// scanned.
pub proof fn new_networks_are_strongest_first(app: AppView, i: int, j: int)
    requires
        0 <= i < j < app.available().len(),
    ensures
        app.available()[i].rssi >= app.available()[j].rssi,
{
    let rows = new_networks(app.networks, app.preferred, app.show_all);
    signal::strongest_first_is_a_stable_sort(rows, 0);
    assert(app.available()[i].signal() >= app.available()[j].signal());
}

/// A known network is listed where a scanned network has its name, and
/// otherwise only where those out of range are to be shown; those come last.
pub proof fn a_known_network_is_listed_where_it_is_in_range(app: AppView, k: int)
    requires
        0 <= k < app.preferred.len(),
    ensures
        (exists|i: int|
            0 <= i < app.networks.len() && text::opt_text((#[trigger] app.networks[i]).ssid)
                == Some(app.preferred[k]@)) ==> app.known().contains(app.preferred[k]),
        app.show_all_preferred ==> app.known().contains(app.preferred[k]),
        !app.show_all_preferred && app.known().contains(app.preferred[k]) ==> exists|i: int|
            0 <= i < app.networks.len() && text::opt_text((#[trigger] app.networks[i]).ssid)
                == Some(app.preferred[k]@),
        forall|a: int, b: int|
            0 <= a < b < app.known().len() && in_range(
                app.networks,
                (#[trigger] app.known()[b])@,
            ) ==> in_range(app.networks, (#[trigger] app.known()[a])@),
{
    let name = app.preferred[k];
    let near = names_in_range(app.networks, app.preferred, true);
    let far = names_in_range(app.networks, app.preferred, false);
    lemma_known_rows(app.networks, app.preferred, true);
    lemma_known_rows(app.networks, app.preferred, false);
    lemma_row_is_kept(app.networks, app.preferred, k);
    corewlan::a_name_is_found_exactly_where_it_is_carried(app.networks, name@);
    if in_range(app.networks, name@) {
        assert(exists|i: int|
            0 <= i < app.networks.len() && (#[trigger] app.networks[i]).is_named(name@));
        let i = choose|i: int|
            0 <= i < app.networks.len() && (#[trigger] app.networks[i]).is_named(name@);
        assert(text::opt_text(app.networks[i].ssid) == Some(name@));
        let m = choose|m: int| 0 <= m < near.len() && near[m] == name;
        assert(app.known()[m] == name);
    } else {
        assert forall|i: int| 0 <= i < app.networks.len() implies text::opt_text(
            (#[trigger] app.networks[i]).ssid,
        ) != Some(name@) by {
            assert(!app.networks[i].is_named(name@));
        }
        let m = choose|m: int| 0 <= m < far.len() && far[m] == name;
        if app.show_all_preferred {
            assert(app.known()[near.len() + m] == name);
        } else if app.known().contains(name) {
            let q = choose|q: int| 0 <= q < near.len() && near[q] == name;
            assert(in_range(app.networks, near[q]@));
        }
    }
    assert forall|a: int, b: int|
        0 <= a < b < app.known().len() && in_range(
            app.networks,
            (#[trigger] app.known()[b])@,
        ) implies in_range(app.networks, (#[trigger] app.known()[a])@) by {
        if a >= near.len() {
            assert(app.known()[b] == far[b - near.len()]);
        } else {
            assert(app.known()[a] == near[a]);
        }
    }
}

proof fn lemma_row_is_kept(networks: Seq<ScannedNetwork>, names: Seq<String>, k: int)
    requires
        0 <= k < names.len(),
    ensures
        names_in_range(networks, names, in_range(networks, names[k]@)).contains(names[k]),
    decreases names.len(),
{
    let wanted = in_range(networks, names[k]@);
    let init = names.drop_last();
    let before = names_in_range(networks, init, wanted);
    let all = names_in_range(networks, names, wanted);
    if k == names.len() - 1 {
        assert(all[before.len() as int] == names[k]);
    } else {
        lemma_row_is_kept(networks, init, k);
        assert(init[k] == names[k]);
        let m = choose|m: int| 0 <= m < before.len() && before[m] == names[k];
        assert(all[m] == names[k]);
    }
}

/// How strong a known network is: as the first scanned network of its name,
/// or else weaker than any network that could be scanned.
pub proof fn a_known_network_is_as_strong_as_its_first_scan(
    networks: Seq<ScannedNetwork>,
    ssid: Seq<char>,
    i: int,
    rssi: isize,
)
    ensures
        0 <= i < networks.len() && text::opt_text(networks[i].ssid) == Some(ssid) && (forall|k: int|
            0 <= k < i ==> text::opt_text((#[trigger] networks[k]).ssid) != Some(ssid))
            ==> strength_of(networks, ssid) == networks[i].rssi,
        (forall|k: int|
            0 <= k < networks.len() ==> text::opt_text((#[trigger] networks[k]).ssid) != Some(
                ssid,
            )) ==> strength_of(networks, ssid) < rssi,
{
    if 0 <= i < networks.len() && text::opt_text(networks[i].ssid) == Some(ssid) && (forall|k: int|
        0 <= k < i ==> text::opt_text((#[trigger] networks[k]).ssid) != Some(ssid)) {
        corewlan::the_first_of_a_name_is_found(networks, ssid, i);
    }
    corewlan::a_name_is_found_exactly_where_it_is_carried(networks, ssid);
    if forall|k: int|
        0 <= k < networks.len() ==> text::opt_text((#[trigger] networks[k]).ssid) != Some(ssid) {
        assert forall|k: int| 0 <= k < networks.len() implies !(#[trigger] networks[k]).is_named(
            ssid,
        ) by {
            assert(text::opt_text(networks[k].ssid) != Some(ssid));
        }
        assert(corewlan::first_named(networks, ssid) is None);
        assert(rssi >= isize::MIN);
    }
}

/// A selection that fits its table stays, and any other becomes the first row.
pub proof fn a_selection_that_fits_is_kept(selected: Option<usize>, len: nat)
    ensures
        len > 0 && selected is Some && selected->0 < len ==> clamped(selected, len) == selected,
        len > 0 && !(selected is Some && selected->0 < len) ==> clamped(selected, len) == Some(
            0usize,
        ),
        len == 0 ==> clamped(selected, len) is None,
{
}

/// One step down goes to the next row and from the last row to the first; one
/// step up goes to the row before and from the first row to the last.
pub proof fn a_step_goes_to_the_neighbouring_row(i: usize, len: nat)
    requires
        i < len <= usize::MAX,
    ensures
        moved(Some(i), 1, len) == Some(
            (if i + 1 < len {
                i + 1
            } else {
                0
            }) as usize,
        ),
        moved(Some(i), -1, len) == Some(
            (if i > 0 {
                i - 1
            } else {
                len - 1
            }) as usize,
        ),
        moved(None, 1, len) == moved(Some(0), 1, len),
        moved(None, -1, len) == moved(Some(0), -1, len),
{
    let l = len as int;
    if i + 1 < len {
        vstd::arithmetic::div_mod::lemma_small_mod((i + 1) as nat, len);
    } else {
        vstd::arithmetic::div_mod::lemma_mod_self_0(l);
    }
    if i > 0 {
        vstd::arithmetic::div_mod::lemma_small_mod((i - 1) as nat, len);
    } else {
        vstd::arithmetic::div_mod::lemma_fundamental_div_mod_converse(-1, l, -1, l - 1);
    }
}

/// Moving acts on the table in focus alone, and nothing but its selection
/// changes.
pub proof fn moving_acts_on_the_table_in_focus(app: AppView, delta: int)
    ensures
        app.shifted(delta).preferred_state == app.preferred_state || app.focus is Preferred,
        app.shifted(delta).available_state == app.available_state || app.focus is Available,
        app.focus is Available ==> app.shifted(delta).available_state == moved(
            app.available_state,
            delta,
            app.available().len(),
        ),
        app.focus is Preferred ==> app.shifted(delta).preferred_state == moved(
            app.preferred_state,
            delta,
            app.known().len(),
        ),
        app.shifted(delta) == (AppView {
            preferred_state: app.shifted(delta).preferred_state,
            available_state: app.shifted(delta).available_state,
            ..app
        }),
{
}

/// Every notification fades by itself: those before and those behind it make
/// no difference, and none changes its place, its text or its kind.
pub proof fn notifications_fade_one_by_one(a: Seq<NotificationView>, b: Seq<NotificationView>)
    ensures
        faded(a + b) == faded(a) + faded(b),
    decreases b.len(),
{
    if b.len() == 0 {
        assert(a + b =~= a);
        assert(faded(a) + faded(b) =~= faded(a));
    } else {
        notifications_fade_one_by_one(a, b.drop_last());
        assert((a + b).drop_last() =~= a + b.drop_last());
        assert((a + b).last() == b.last());
        assert(faded(a + b) =~= faded(a) + faded(b));
    }
}

/// What the user is told is shown behind everything that is shown already,
/// word for word; an error is told as one, and stays longer.
pub proof fn what_is_told_is_shown(app: AppView, text: Seq<char>)
    ensures
        app.told(text).notifications.drop_last() == app.notifications,
        app.told(text).notifications.last().text == text,
        app.told(text).notifications.last().kind is Info,
        app.told(text).notifications.last().ttl == 30,
        app.warned(text).notifications.drop_last() == app.notifications,
        app.warned(text).notifications.last().text == text,
        app.warned(text).notifications.last().kind is Error,
        app.warned(text).notifications.last().ttl == 50,
        app.told(text) == (AppView { notifications: app.told(text).notifications, ..app }),
        app.warned(text) == (AppView { notifications: app.warned(text).notifications, ..app }),
{
    assert(app.told(text).notifications.drop_last() =~= app.notifications);
    assert(app.warned(text).notifications.drop_last() =~= app.notifications);
}

/// An event of the daemon is shown where it belongs: the state, the scan, the
/// known networks, the notifications, or the share code.
pub proof fn every_event_is_shown_in_its_place(app: AppView, ev: Event)
    ensures
        ev matches Event::State(s) ==> app.informed(ev) == (AppView { state: Some(s), ..app }),
        ev is ScanStarted ==> app.informed(ev) == (AppView { scanning: true, ..app }),
        ev matches Event::ScanResult(n) ==> {
            &&& app.informed(ev).networks == n@
            &&& !app.informed(ev).scanning
            &&& app.informed(ev).preferred.len() == app.preferred.len()
            &&& app.informed(ev).notifications == app.notifications
            &&& app.informed(ev).overlay == app.overlay
            &&& app.informed(ev).wifi == app.wifi
            &&& app.informed(ev).state == app.state
        },
        ev matches Event::ScanFailed(e) ==> {
            &&& app.informed(ev).networks == app.networks
            &&& app.informed(ev).notifications.last().text == e@
            &&& app.informed(ev).notifications.last().kind is Error
        },
        ev matches Event::PreferredResult(v) ==> {
            &&& app.informed(ev).preferred.len() == v@.len()
            &&& app.informed(ev).networks == app.networks
            &&& app.informed(ev).scanning == app.scanning
        },
        ev matches Event::Notice(t) ==> {
            &&& app.informed(ev).notifications.last().text == t@
            &&& app.informed(ev).notifications.last().kind is Info
            &&& app.informed(ev).overlay == app.overlay
        },
        ev matches Event::Error(t) ==> {
            &&& app.informed(ev).notifications.last().text == t@
            &&& app.informed(ev).notifications.last().kind is Error
            &&& app.informed(ev).overlay == app.overlay
        },
        ev matches Event::ShareReady(p) ==> {
            &&& app.informed(ev).overlay matches OverlayView::Share { ssid, uri, has_password, .. }
            &&& ssid == p.ssid@
            &&& uri == p.uri@
            &&& has_password == p.has_password
            &&& app.informed(ev).notifications == app.notifications
        },
        ev is DaemonDiagnose ==> app.informed(ev) == app,
        app.informed(ev).wifi == app.wifi,
        app.informed(ev).running == app.running,
        app.informed(ev).focus == app.focus,
        app.informed(ev).theme_index == app.theme_index,
{
    if let Event::ScanResult(n) = ev {
        signal::strongest_first_is_a_stable_sort(tagged(n@, app.preferred), 0);
    }
    if let Event::PreferredResult(v) = ev {
        signal::strongest_first_is_a_stable_sort(tagged(app.networks, v@), 0);
    }
}

/// After a failed reconnect the user is asked for the password of that
/// network, unless it was out of range: then no password would help, and the
/// failure is only told.
pub proof fn a_failed_reconnect_asks_for_the_password(
    app: AppView,
    ssid: String,
    reason: JoinFailReason,
    detail: String,
)
    ensures
        ({
            let out = app.informed(Event::JoinSavedFailed { ssid, reason, detail });
            &&& reason is NotInRange ==> out.overlay == app.overlay
                && out.notifications.last().kind is Error && out.notifications.last().text
                == "connect to "@ + ssid@ + " failed: "@ + detail@
            &&& !(reason is NotInRange) ==> out.overlay == (OverlayView::Password {
                ssid: ssid@,
                input: InputView { text: seq![], cursor: 0 },
            }) && out.notifications.last().kind is Info && out.notifications.last().text == ssid@
                + ": enter password to connect ("@ + detail@ + ")"@
            &&& out.notifications.len() == app.notifications.len() + 1
        }),
{
}

/// The toggles change what is shown, and twice the same toggle shows the same
/// as before.
pub proof fn toggling_twice_shows_the_same(app: AppView)
    ensures
        app.all_shown().show_all != app.show_all,
        app.all_shown().all_shown().show_all == app.show_all,
        app.all_shown().all_shown().available() == app.available(),
        app.all_shown().known() == app.known(),
        app.all_known_shown().show_all_preferred != app.show_all_preferred,
        app.all_known_shown().all_known_shown().known() == app.known(),
        app.all_known_shown().available() == app.available(),
        fits(app.all_known_shown().preferred_state, app.all_known_shown().known().len()),
        app.networks.len() > 0 ==> app.all_shown().available_state == Some(0usize),
        app.refocused().focus != app.focus,
        app.refocused().refocused() == app,
{
}

/// A theme is told by its name.
pub proof fn a_new_theme_is_told(app: AppView, delta: int)
    requires
        app.theme_index < theme::THEME_COUNT,
    ensures
        app.themed(delta).notifications.last().text == "theme: "@ + theme::name_at(
            app.themed(delta).theme_index as int,
        ),
        app.theme_index + delta == app.themed(delta).theme_index || !(0 <= app.theme_index + delta
            < theme::THEME_COUNT),
{
    let k = app.theme_index + delta;
    vstd::arithmetic::div_mod::lemma_mod_bound(k, theme::THEME_COUNT as int);
    if 0 <= k < theme::THEME_COUNT {
        vstd::arithmetic::div_mod::lemma_small_mod(k as nat, theme::THEME_COUNT as nat);
    }
}

/// The network that is acted on is the one in the selected row of those that
/// are shown, in either table.
pub proof fn the_selected_row_is_acted_on(app: AppView, i: usize)
    ensures
        app.available_state == Some(i) && i < app.available().len() ==> app.picked_network()
            == Some(app.available()[i as int]),
        app.available_state == Some(i) && i >= app.available().len() ==> app.picked_network()
            is None,
        app.available_state is None ==> app.picked_network() is None,
        app.preferred_state == Some(i) && i < app.known().len() ==> app.picked_known() == Some(
            app.known()[i as int],
        ),
        app.preferred_state == Some(i) && i >= app.known().len() ==> app.picked_known() is None,
        app.preferred_state is None ==> app.picked_known() is None,
{
}

} // verus!
