//! What each key does.

use vstd::prelude::*;

use crate::app::{self, App, AppView, Focus, Overlay, OverlayView};
use crate::corewlan::{self, Security};
use crate::input::{self, InputView, KeyCode, KeyPress};
use crate::location::LocationAuth;
use crate::text;
use crate::theme;
use crate::time::Instant;
use crate::worker::{self, AssociateKindView, Request, RequestView, ShareSecurity};

verus! {

/// The interface after a key, where nothing lies over the tables.
pub open spec fn global_key(
    app: AppView,
    key: KeyPress,
    auth: LocationAuth,
    now: Instant,
) -> AppView {
    match key.code {
        KeyCode::Tab => app.refocused(),
        KeyCode::BackTab => app.themed(-1),
        KeyCode::Down => app.shifted(1),
        KeyCode::Up => app.shifted(-1),
        KeyCode::Enter => match app.focus {
            Focus::Available => app.connecting(auth, now),
            Focus::Preferred => app.reconnecting(now),
        },
        KeyCode::Char(c) => if c == 'q' {
            if key.modifiers == input::NONE {
                app.quitting()
            } else {
                app
            }
        } else if c == 'c' {
            if key.modifiers == input::CONTROL {
                app.quitting()
            } else {
                app
            }
        } else if c == 'j' {
            app.shifted(1)
        } else if c == 'k' {
            app.shifted(-1)
        } else if c == 's' {
            if app.scanning {
                app
            } else {
                app.asked(RequestView::Scan, now)
            }
        } else if c == 'o' {
            app.asked(
                RequestView::SetPower(
                    match app.state {
                        Some(s) => !s.powered,
                        None => true,
                    },
                ),
                now,
            )
        } else if c == 'x' {
            app.asked(RequestView::Disconnect, now)
        } else if c == 'd' {
            match app.picked_known() {
                Some(ssid) => if app.focus == Focus::Preferred {
                    app.asked(RequestView::Forget(ssid@), now)
                } else {
                    app
                },
                None => app,
            }
        } else if c == 'p' {
            app.sharing(now)
        } else if c == 'h' {
            app.covered(
                OverlayView::HiddenSsid {
                    ssid: seq![],
                    input: crate::input::InputView::empty(),
                },
            )
        } else if c == 'i' {
            app.covered(OverlayView::Info)
        } else if c == 'a' {
            app.all_shown()
        } else if c == 'A' {
            app.all_known_shown()
        } else if c == 'T' {
            app.themed(1)
        } else {
            app
        },
        _ => app,
    }
}

/// The interface after a key, where something lies over the tables.
pub open spec fn overlay_key(app: AppView, key: KeyPress, now: Instant) -> AppView {
    if key.code == KeyCode::Esc || app.overlay is Info || app.overlay is Share {
        app.covered(OverlayView::Closed)
    } else if key.code == KeyCode::Enter {
        app.submitted(now)
    } else {
        app.covered(app.overlay.typed(key))
    }
}

/// The interface after a key.
pub open spec fn after_key(
    app: AppView,
    key: KeyPress,
    auth: LocationAuth,
    now: Instant,
) -> AppView {
    if app.overlay is Closed {
        global_key(app, key, auth, now)
    } else {
        overlay_key(app, key, now)
    }
}

/// How many themes a key goes further.
pub open spec fn theme_step(app: AppView, key: KeyPress) -> Option<int> {
    if !(app.overlay is Closed) {
        None
    } else if key.code == KeyCode::BackTab {
        Some(-1)
    } else if key.code == KeyCode::Char('T') {
        Some(1)
    } else {
        None
    }
}

/// The theme name that is to be saved after a key.
pub open spec fn saved_theme(app: AppView, key: KeyPress) -> Option<Seq<char>> {
    match theme_step(app, key) {
        Some(d) => Some(theme::name_at((app.theme_index + d) % theme::THEME_COUNT as int)),
        None => None,
    }
}

pub open spec fn opt_name(name: Option<&'static str>) -> Option<Seq<char>> {
    match name {
        Some(n) => Some(n@),
        None => None,
    }
}

/// Takes a key. The theme name that is returned, if any, is to be saved.
pub fn handle_key(app: &mut App, key: KeyPress, auth: LocationAuth, now: Instant) -> (r: Option<
    &'static str,
>)
    requires
        old(app).valid(),
    ensures
        final(app).valid(),
        final(app)@ == after_key(old(app)@, key, auth, now),
        opt_name(r) == saved_theme(old(app)@, key),
{
    if matches!(app.overlay, Overlay::Closed) {
        handle_global(app, key, auth, now)
    } else {
        handle_overlay(app, key, now);
        None
    }
}

fn handle_global(app: &mut App, key: KeyPress, auth: LocationAuth, now: Instant) -> (r: Option<
    &'static str,
>)
    requires
        old(app).valid(),
        old(app)@.overlay is Closed,
    ensures
        final(app).valid(),
        final(app)@ == global_key(old(app)@, key, auth, now),
        opt_name(r) == saved_theme(old(app)@, key),
{
    match key.code {
        KeyCode::Tab => {
            app.toggle_focus();
        },
        KeyCode::BackTab => {
            return Some(app.cycle_theme(-1));
        },
        KeyCode::Down => {
            app.move_selection(1);
        },
        KeyCode::Up => {
            app.move_selection(-1);
        },
        KeyCode::Enter => match app.focus {
            Focus::Available => {
                app.connect_selected_available(auth, now);
            },
            Focus::Preferred => {
                app.connect_selected_preferred(now);
            },
        },
        KeyCode::Char(c) => {
            return handle_char(app, c, key.modifiers, now);
        },
        _ => {},
    }
    None
}

fn handle_char(app: &mut App, c: char, modifiers: u8, now: Instant) -> (r: Option<&'static str>)
    requires
        old(app).valid(),
        old(app)@.overlay is Closed,
    ensures
        final(app).valid(),
        final(app)@ == global_key(
            old(app)@,
            KeyPress { code: KeyCode::Char(c), modifiers },
            LocationAuth::Unknown,
            now,
        ),
        opt_name(r) == saved_theme(old(app)@, KeyPress { code: KeyCode::Char(c), modifiers }),
{
    if c == 'q' {
        if modifiers == input::NONE {
            app.quit();
        }
    } else if c == 'c' {
        if modifiers == input::CONTROL {
            app.quit();
        }
    } else if c == 'j' {
        app.move_selection(1);
    } else if c == 'k' {
        app.move_selection(-1);
    } else if c == 's' {
        if !app.scanning {
            app.wifi.send(Request::Scan, now);
        }
    } else if c == 'o' {
        let target = match &app.state {
            Some(s) => !s.powered,
            None => true,
        };
        app.wifi.send(Request::SetPower(target), now);
    } else if c == 'x' {
        app.wifi.send(Request::Disconnect, now);
    } else if c == 'd' {
        if matches!(app.focus, Focus::Preferred) {
            if let Some(ssid) = app.selected_preferred() {
                app.wifi.send(Request::Forget(ssid), now);
            }
        }
    } else if c == 'p' {
        app.share_selected_preferred(now);
    } else if c == 'h' {
        app.start_hidden();
    } else if c == 'i' {
        app.show_info();
    } else if c == 'a' {
        app.toggle_show_all();
    } else if c == 'A' {
        app.toggle_show_all_preferred();
    } else if c == 'T' {
        return Some(app.cycle_theme(1));
    }
    None
}

fn handle_overlay(app: &mut App, key: KeyPress, now: Instant)
    requires
        old(app).valid(),
    ensures
        final(app).valid(),
        final(app)@ == overlay_key(old(app)@, key, now),
{
    if matches!(key.code, KeyCode::Esc) {
        app.overlay = Overlay::Closed;
        return;
    }
    if matches!(app.overlay, Overlay::Info) || matches!(app.overlay, Overlay::Share(_)) {
        app.overlay = Overlay::Closed;
        return;
    }
    if matches!(key.code, KeyCode::Enter) {
        app.submit_overlay(now);
        return;
    }
    match &mut app.overlay {
        Overlay::Password(p) => {
            p.input.handle_event(key);
        },
        Overlay::EnterpriseUser(p) => {
            p.input.handle_event(key);
        },
        Overlay::EnterprisePass(p) => {
            p.input.handle_event(key);
        },
        Overlay::HiddenSsid(p) => {
            p.input.handle_event(key);
        },
        Overlay::HiddenPass(p) => {
            p.input.handle_event(key);
        },
        _ => {},
    }
}

/// What happens in the terminal.
#[derive(Clone, Copy, Debug, PartialEq, Eq, Structural)]
pub enum UiEvent {
    Tick,
    Key(KeyPress),
    Resize(u16, u16),
}

/// Takes what happens in the terminal.
pub fn handle_ui(app: &mut App, ev: UiEvent, auth: LocationAuth, now: Instant) -> (r: Option<
    &'static str,
>)
    requires
        old(app).valid(),
    ensures
        final(app).valid(),
        match ev {
            UiEvent::Tick => final(app)@ == old(app)@.ticked() && r is None,
            UiEvent::Key(key) => final(app)@ == after_key(old(app)@, key, auth, now) && opt_name(r)
                == saved_theme(old(app)@, key),
            UiEvent::Resize(_, _) => final(app)@ == old(app)@ && r is None,
        },
{
    match ev {
        UiEvent::Tick => {
            app.tick();
            None
        },
        UiEvent::Key(key) => handle_key(app, key, auth, now),
        UiEvent::Resize(_, _) => None,
    }
}

// ---------------------------------------------------------------------------
// Laws.
// ---------------------------------------------------------------------------

/// While a scan runs, the scan key asks for nothing.
pub proof fn no_second_scan_is_asked_for(
    app: AppView,
    modifiers: u8,
    auth: LocationAuth,
    now: Instant,
)
    requires
        app.scanning,
        app.overlay is Closed,
    ensures
        after_key(app, KeyPress { code: KeyCode::Char('s'), modifiers }, auth, now) == app,
{
}

/// A prompt is always left without a request by the escape key, and nothing
/// else changes.
pub proof fn escape_only_closes(app: AppView, modifiers: u8, auth: LocationAuth, now: Instant)
    requires
        !(app.overlay is Closed),
    ensures
        after_key(app, KeyPress { code: KeyCode::Esc, modifiers }, auth, now) == app.covered(
            OverlayView::Closed,
        ),
{
}

/// While a prompt is open, no key but enter asks for anything, and none quits.
pub proof fn typing_asks_for_nothing(
    app: AppView,
    key: KeyPress,
    auth: LocationAuth,
    now: Instant,
)
    requires
        !(app.overlay is Closed),
    ensures
        after_key(app, key, auth, now).running == app.running,
        key.code != KeyCode::Enter ==> after_key(app, key, auth, now).wifi == app.wifi,
{
}

/// A prompt in which nothing has been typed yet.
pub open spec fn blank() -> InputView {
    InputView { text: seq![], cursor: 0 }
}

/// Enter on a new network that has a name sends a request exactly where the
/// network is open, and that is the open association of this name. Otherwise
/// it opens a prompt for this name: of the user name where the network is an
/// enterprise one, and of the password in any other case. Nothing else
/// changes.
pub proof fn enter_joins_open_networks_and_asks_for_the_rest(
    app: AppView,
    modifiers: u8,
    auth: LocationAuth,
    now: Instant,
    i: usize,
)
    requires
        app.overlay is Closed,
        app.focus is Available,
        app.available_state == Some(i),
        i < app.available().len(),
        app.available()[i as int].ssid is Some,
    ensures
        ({
            let n = app.available()[i as int];
            let ssid = n.ssid->0@;
            let out = after_key(app, KeyPress { code: KeyCode::Enter, modifiers }, auth, now);
            let enterprise = n.security is WpaEnterprise || n.security is Wpa2Enterprise
                || n.security is Wpa3Enterprise;
            &&& n.security is Open ==> out.overlay is Closed && out.wifi.waiting()
                == app.wifi.waiting().push(
                Some(RequestView::Associate { ssid, kind: AssociateKindView::Open }),
            )
            &&& !(n.security is Open) ==> out.wifi == app.wifi
            &&& enterprise ==> out.overlay == (OverlayView::EnterpriseUser {
                ssid,
                username: seq![],
                input: blank(),
            })
            &&& !enterprise && !(n.security is Open) ==> out.overlay == (OverlayView::Password {
                ssid,
                input: blank(),
            })
            &&& out == (AppView { overlay: out.overlay, wifi: out.wifi, ..app })
        }),
{
    let ssid = app.available()[i as int].ssid->0@;
    worker::sending_adds_one_request(
        app.wifi,
        RequestView::Associate { ssid, kind: AssociateKindView::Open },
        now,
    );
}

/// Enter on a new network without a name sends nothing and opens nothing; the
/// user is told how to go on, which depends on the Location grant alone.
pub proof fn enter_on_a_nameless_network_only_tells(
    app: AppView,
    modifiers: u8,
    auth: LocationAuth,
    now: Instant,
    i: usize,
)
    requires
        app.overlay is Closed,
        app.focus is Available,
        app.available_state == Some(i),
        i < app.available().len(),
        app.available()[i as int].ssid is None,
    ensures
        ({
            let out = after_key(app, KeyPress { code: KeyCode::Enter, modifiers }, auth, now);
            &&& out == (AppView { notifications: out.notifications, ..app })
            &&& out.notifications.len() == app.notifications.len() + 1
            &&& out.notifications.last().kind is Error
            &&& out.notifications.last().text == if auth is Authorized {
                "hidden network — use the hidden-SSID join (h) to connect by name"@
            } else {
                "network names hidden — grant Location permission to macwifi.app"@
            }
        }),
{
}

/// Where no row is selected, or the table is shorter, Enter and the other keys
/// for a row do nothing.
pub proof fn nothing_is_done_without_a_row(
    app: AppView,
    modifiers: u8,
    auth: LocationAuth,
    now: Instant,
)
    requires
        app.overlay is Closed,
    ensures
        app.focus is Available && (app.available_state is None || app.available_state->0
            >= app.available().len()) ==> after_key(
            app,
            KeyPress { code: KeyCode::Enter, modifiers },
            auth,
            now,
        ) == app,
        app.preferred_state is None || app.preferred_state->0 >= app.known().len() ==> {
            &&& app.focus is Preferred ==> after_key(
                app,
                KeyPress { code: KeyCode::Enter, modifiers },
                auth,
                now,
            ) == app
            &&& after_key(app, KeyPress { code: KeyCode::Char('d'), modifiers }, auth, now) == app
            &&& after_key(app, KeyPress { code: KeyCode::Char('p'), modifiers }, auth, now) == app
        },
{
}

/// A known network is reconnected by Enter and forgotten by `d`, under its own
/// name, and neither key does anything else; `d` acts only where the known
/// networks are in focus.
pub proof fn a_known_network_is_joined_or_forgotten_by_name(
    app: AppView,
    modifiers: u8,
    auth: LocationAuth,
    now: Instant,
    i: usize,
)
    requires
        app.overlay is Closed,
        app.preferred_state == Some(i),
        i < app.known().len(),
    ensures
        ({
            let ssid = app.known()[i as int]@;
            let entered = after_key(app, KeyPress { code: KeyCode::Enter, modifiers }, auth, now);
            let dropped = after_key(
                app,
                KeyPress { code: KeyCode::Char('d'), modifiers },
                auth,
                now,
            );
            &&& app.focus is Preferred ==> entered.wifi.waiting() == app.wifi.waiting().push(
                Some(RequestView::JoinSaved(ssid)),
            ) && entered == (AppView { wifi: entered.wifi, ..app })
            &&& app.focus is Preferred ==> dropped.wifi.waiting() == app.wifi.waiting().push(
                Some(RequestView::Forget(ssid)),
            ) && dropped == (AppView { wifi: dropped.wifi, ..app })
            &&& app.focus is Available ==> dropped == app
        }),
{
    let ssid = app.known()[i as int]@;
    worker::sending_adds_one_request(app.wifi, RequestView::JoinSaved(ssid), now);
    worker::sending_adds_one_request(app.wifi, RequestView::Forget(ssid), now);
}

/// What the share key asks for, given the security that the scan shows.
pub open spec fn is_enterprise(security: Security) -> bool {
    security is WpaEnterprise || security is Wpa2Enterprise || security is Wpa3Enterprise
}

/// A known network is shared as one without a password exactly where the scan
/// shows it as open, and as a WEP network exactly where it shows that. One
/// with any WPA security of the personal kind, or out of range, is shared with
/// its WPA password. An enterprise network is not shared at all, and the user
/// is told.
pub proof fn a_network_is_shared_by_the_security_of_its_scan(
    app: AppView,
    modifiers: u8,
    auth: LocationAuth,
    now: Instant,
    i: usize,
    j: int,
)
    requires
        app.overlay is Closed,
        app.preferred_state == Some(i),
        i < app.known().len(),
        0 <= j <= app.networks.len(),
        j < app.networks.len() ==> text::opt_text(app.networks[j].ssid) == Some(
            app.known()[i as int]@,
        ),
        forall|k: int|
            0 <= k < j ==> text::opt_text((#[trigger] app.networks[k]).ssid) != Some(
                app.known()[i as int]@,
            ),
    ensures
        ({
            let ssid = app.known()[i as int]@;
            let out = after_key(app, KeyPress { code: KeyCode::Char('p'), modifiers }, auth, now);
            let asked = |security: ShareSecurity|
                out.wifi.waiting() == app.wifi.waiting().push(
                    Some(RequestView::Share { ssid, security }),
                );
            &&& j == app.networks.len() ==> asked(ShareSecurity::Wpa)
            &&& j < app.networks.len() ==> {
                let security = app.networks[j].security;
                &&& asked(ShareSecurity::Nopass) <==> security is Open
                &&& asked(ShareSecurity::Wep) <==> security is Wep
                &&& security is WpaPersonal || security is Wpa2Personal || security is Wpa3Personal
                    || security is Unknown ==> asked(ShareSecurity::Wpa)
                &&& is_enterprise(security) ==> out.wifi == app.wifi
                    && out.notifications.last().kind is Error && out.notifications.len()
                    == app.notifications.len() + 1
                &&& !is_enterprise(security) ==> out.notifications == app.notifications
            }
            &&& out == (AppView { wifi: out.wifi, notifications: out.notifications, ..app })
        }),
{
    let ssid = app.known()[i as int]@;
    worker::sending_adds_one_request(
        app.wifi,
        RequestView::Share { ssid, security: ShareSecurity::Wpa },
        now,
    );
    worker::sending_adds_one_request(
        app.wifi,
        RequestView::Share { ssid, security: ShareSecurity::Wep },
        now,
    );
    worker::sending_adds_one_request(
        app.wifi,
        RequestView::Share { ssid, security: ShareSecurity::Nopass },
        now,
    );
    let old_len = app.wifi.waiting().len();
    let wpa = app.wifi.waiting().push(
        Some(RequestView::Share { ssid, security: ShareSecurity::Wpa }),
    );
    let wep = app.wifi.waiting().push(
        Some(RequestView::Share { ssid, security: ShareSecurity::Wep }),
    );
    let nopass = app.wifi.waiting().push(
        Some(RequestView::Share { ssid, security: ShareSecurity::Nopass }),
    );
    assert(wpa[old_len as int] != wep[old_len as int]);
    assert(wpa[old_len as int] != nopass[old_len as int]);
    assert(wep[old_len as int] != nopass[old_len as int]);
    assert(wpa.len() != old_len && wep.len() != old_len && nopass.len() != old_len);
    if j < app.networks.len() {
        corewlan::the_first_of_a_name_is_found(app.networks, ssid, j);
    } else {
        corewlan::a_name_is_found_exactly_where_it_is_carried(app.networks, ssid);
        assert forall|k: int| 0 <= k < app.networks.len() implies !(
        #[trigger] app.networks[k]).is_named(ssid) by {
            assert(text::opt_text(app.networks[k].ssid) != Some(ssid));
        }
    }
}

/// Enter in a prompt sends what was typed, word for word, to the network that
/// the prompt is for, and closes the prompt. The user name of an enterprise
/// network, and the name of a hidden one, lead to the prompt of its password
/// first; a blank name is given up, and a blank password of a hidden network
/// means that it has none.
pub proof fn enter_sends_what_was_typed(
    app: AppView,
    modifiers: u8,
    auth: LocationAuth,
    now: Instant,
)
    requires
        !(app.overlay is Closed),
    ensures
        ({
            let out = after_key(app, KeyPress { code: KeyCode::Enter, modifiers }, auth, now);
            let sends = |request: RequestView|
                out.wifi.waiting() == app.wifi.waiting().push(Some(request)) && out.overlay
                    is Closed;
            &&& app.overlay matches OverlayView::Password { ssid, input } ==> sends(
                RequestView::JoinWithPassword { ssid, password: input.text },
            )
            &&& app.overlay matches OverlayView::EnterpriseUser { ssid, username, input } ==> {
                &&& out.wifi == app.wifi
                &&& out.overlay == (OverlayView::EnterprisePass {
                    ssid,
                    username: input.text,
                    input: blank(),
                })
            }
            &&& app.overlay matches OverlayView::EnterprisePass { ssid, username, input } ==> sends(
                RequestView::Associate {
                    ssid,
                    kind: AssociateKindView::Peap { username, password: input.text },
                },
            )
            &&& app.overlay matches OverlayView::HiddenSsid { ssid, input } ==> {
                &&& out.wifi == app.wifi
                &&& input.text.len() == 0 ==> out.overlay is Closed
                &&& input.text.len() > 0 ==> out.overlay == (OverlayView::HiddenPass {
                    ssid: input.text,
                    input: blank(),
                })
            }
            &&& app.overlay matches OverlayView::HiddenPass { ssid, input } ==> {
                &&& input.text.len() > 0 ==> sends(
                    RequestView::JoinWithPassword { ssid, password: input.text },
                )
                &&& input.text.len() == 0 ==> sends(
                    RequestView::Associate { ssid, kind: AssociateKindView::Hidden(None) },
                )
            }
            &&& app.overlay is Info || app.overlay is Share ==> out.overlay is Closed && out.wifi
                == app.wifi
            &&& out == (AppView { wifi: out.wifi, overlay: out.overlay, ..app })
        }),
{
    match app.overlay {
        OverlayView::Password { ssid, input } => {
            worker::sending_adds_one_request(
                app.wifi,
                RequestView::JoinWithPassword { ssid, password: input.text },
                now,
            );
        },
        OverlayView::EnterprisePass { ssid, username, input } => {
            worker::sending_adds_one_request(
                app.wifi,
                RequestView::Associate {
                    ssid,
                    kind: AssociateKindView::Peap { username, password: input.text },
                },
                now,
            );
        },
        OverlayView::HiddenPass { ssid, input } => {
            worker::sending_adds_one_request(
                app.wifi,
                RequestView::JoinWithPassword { ssid, password: input.text },
                now,
            );
            worker::sending_adds_one_request(
                app.wifi,
                RequestView::Associate { ssid, kind: AssociateKindView::Hidden(None) },
                now,
            );
        },
        _ => {},
    }
}

/// A key other than enter and escape changes only the text of the prompt that
/// is open, and leaves the network that the prompt is for.
pub proof fn typing_changes_only_the_text(
    app: AppView,
    key: KeyPress,
    auth: LocationAuth,
    now: Instant,
)
    requires
        !(app.overlay is Closed),
        !(app.overlay is Info),
        !(app.overlay is Share),
        key.code != KeyCode::Enter,
        key.code != KeyCode::Esc,
    ensures
        ({
            let out = after_key(app, key, auth, now);
            &&& out == (AppView { overlay: out.overlay, ..app })
            &&& app.overlay matches OverlayView::Password { ssid, input } ==> out.overlay == (
            OverlayView::Password { ssid, input: input.after(key) })
            &&& app.overlay matches OverlayView::EnterpriseUser { ssid, username, input }
                ==> out.overlay == (OverlayView::EnterpriseUser {
                ssid,
                username,
                input: input.after(key),
            })
            &&& app.overlay matches OverlayView::EnterprisePass { ssid, username, input }
                ==> out.overlay == (OverlayView::EnterprisePass {
                ssid,
                username,
                input: input.after(key),
            })
            &&& app.overlay matches OverlayView::HiddenSsid { ssid, input } ==> out.overlay == (
            OverlayView::HiddenSsid { ssid, input: input.after(key) })
            &&& app.overlay matches OverlayView::HiddenPass { ssid, input } ==> out.overlay == (
            OverlayView::HiddenPass { ssid, input: input.after(key) })
        }),
{
}

/// The keys for the radio: `s` scans unless a scan runs, `o` switches the
/// radio to the other state, and on where its state is not known, and `x`
/// disconnects. Each sends this request and does nothing else.
pub proof fn the_keys_for_the_radio(
    app: AppView,
    modifiers: u8,
    auth: LocationAuth,
    now: Instant,
)
    requires
        app.overlay is Closed,
    ensures
        ({
            let scan = after_key(app, KeyPress { code: KeyCode::Char('s'), modifiers }, auth, now);
            let power = after_key(app, KeyPress { code: KeyCode::Char('o'), modifiers }, auth, now);
            let leave = after_key(app, KeyPress { code: KeyCode::Char('x'), modifiers }, auth, now);
            let on = app.state is None || !app.state->0.powered;
            &&& !app.scanning ==> scan.wifi.waiting() == app.wifi.waiting().push(
                Some(RequestView::Scan),
            )
            &&& scan == (AppView { wifi: scan.wifi, ..app })
            &&& power.wifi.waiting() == app.wifi.waiting().push(Some(RequestView::SetPower(on)))
            &&& power == (AppView { wifi: power.wifi, ..app })
            &&& leave.wifi.waiting() == app.wifi.waiting().push(Some(RequestView::Disconnect))
            &&& leave == (AppView { wifi: leave.wifi, ..app })
        }),
{
    let on = app.state is None || !app.state->0.powered;
    worker::sending_adds_one_request(app.wifi, RequestView::Scan, now);
    worker::sending_adds_one_request(app.wifi, RequestView::SetPower(on), now);
    worker::sending_adds_one_request(app.wifi, RequestView::Disconnect, now);
}

/// Over the tables, only enter and the keys `s`, `o`, `x`, `d` and `p` ever
/// send a request, and none sends more than one. Only `q` alone and `c` with
/// control quit. Only `h`, `i` and enter open anything.
pub proof fn no_other_key_sends_or_quits(
    app: AppView,
    key: KeyPress,
    auth: LocationAuth,
    now: Instant,
)
    requires
        app.overlay is Closed,
        app.running,
    ensures
        ({
            let out = after_key(app, key, auth, now);
            let sends = key.code is Enter || key.code == KeyCode::Char('s') || key.code
                == KeyCode::Char('o') || key.code == KeyCode::Char('x') || key.code
                == KeyCode::Char('d') || key.code == KeyCode::Char('p');
            let opens = key.code is Enter || key.code == KeyCode::Char('h') || key.code
                == KeyCode::Char('i');
            &&& !sends ==> out.wifi == app.wifi
            &&& out.wifi == app.wifi || out.wifi.waiting().len() == app.wifi.waiting().len() + 1
            &&& !opens ==> out.overlay is Closed
            &&& !out.running <==> (key.code == KeyCode::Char('q') && key.modifiers == 0)
                || (key.code == KeyCode::Char('c') && key.modifiers == 2)
            &&& key.code == KeyCode::Char('h') ==> out.overlay == (OverlayView::HiddenSsid {
                ssid: seq![],
                input: blank(),
            })
            &&& key.code == KeyCode::Char('i') ==> out.overlay is Info
            &&& out.networks == app.networks
            &&& out.preferred == app.preferred
            &&& out.state == app.state
            &&& out.scanning == app.scanning
        }),
{
    assert forall|request: RequestView|
        (#[trigger] app.wifi.sent(request, now)).waiting().len() == app.wifi.waiting().len()
            + 1 by {
        worker::sending_adds_one_request(app.wifi, request, now);
    }
}

/// The keys for the view: `j` and the arrow down go one row down, `k` and the
/// arrow up one row up, tab changes the table, `a` and `A` show all, and `T`
/// and the shifted tab change the theme, by one in either direction.
pub proof fn the_keys_for_the_view(app: AppView, modifiers: u8, auth: LocationAuth, now: Instant)
    requires
        app.overlay is Closed,
    ensures
        ({
            let after = |code: KeyCode| after_key(app, KeyPress { code, modifiers }, auth, now);
            &&& after(KeyCode::Char('j')) == after(KeyCode::Down)
            &&& after(KeyCode::Char('k')) == after(KeyCode::Up)
            &&& app.focus is Available ==> {
                &&& after(KeyCode::Down).available_state == app::moved(
                    app.available_state,
                    1,
                    app.available().len(),
                )
                &&& after(KeyCode::Up).available_state == app::moved(
                    app.available_state,
                    -1,
                    app.available().len(),
                )
            }
            &&& app.focus is Preferred ==> {
                &&& after(KeyCode::Down).preferred_state == app::moved(
                    app.preferred_state,
                    1,
                    app.known().len(),
                )
                &&& after(KeyCode::Up).preferred_state == app::moved(
                    app.preferred_state,
                    -1,
                    app.known().len(),
                )
            }
            &&& after(KeyCode::Tab) == (AppView { focus: after(KeyCode::Tab).focus, ..app })
            &&& after(KeyCode::Tab).focus != app.focus
            &&& after(KeyCode::Char('a')).show_all != app.show_all
            &&& after(KeyCode::Char('a')).show_all_preferred == app.show_all_preferred
            &&& after(KeyCode::Char('A')).show_all_preferred != app.show_all_preferred
            &&& after(KeyCode::Char('A')).show_all == app.show_all
            &&& after(KeyCode::Char('T')).theme_index == app.themed(1).theme_index
            &&& after(KeyCode::BackTab).theme_index == app.themed(-1).theme_index
        }),
{
}

/// A theme is to be saved exactly after a key that changed it, and it is the
/// one that is shown then.
pub proof fn the_theme_that_is_shown_is_saved(
    app: AppView,
    key: KeyPress,
    auth: LocationAuth,
    now: Instant,
)
    requires
        app.theme_index < theme::THEME_COUNT,
    ensures
        saved_theme(app, key) is Some <==> app.overlay is Closed && (key.code is BackTab || key.code
            == KeyCode::Char('T')),
        saved_theme(app, key) matches Some(name) ==> name == theme::name_at(
            after_key(app, key, auth, now).theme_index as int,
        ),
        saved_theme(app, key) is None ==> after_key(app, key, auth, now).theme_index
            == app.theme_index,
{
    vstd::arithmetic::div_mod::lemma_mod_bound(app.theme_index + 1, theme::THEME_COUNT as int);
    vstd::arithmetic::div_mod::lemma_mod_bound(app.theme_index - 1, theme::THEME_COUNT as int);
}

} // verus!
