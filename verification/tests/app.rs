use macwifi::app::{App, Focus, Overlay};
use macwifi::client::RemoteWifiHandle;
use macwifi::corewlan::{InterfaceState, ScannedNetwork, Security};
use macwifi::event::{Event, JoinFailReason, SharePayload};
use macwifi::handler::{handle_key, handle_ui, UiEvent};
use macwifi::input::{Input, KeyCode, KeyPress, ALT, CONTROL, NONE, SHIFT};
use macwifi::location::LocationAuth;
use macwifi::notification::{Kind, Notification};
use macwifi::theme::{all, by_name, index_of, rgb, theme_at, Color, NORD, THEME_COUNT};
use macwifi::time::Instant;
use macwifi::worker::{Associate, AssociateKind, Request, ShareSecurity, WifiHandle};

const NOW: Instant = Instant { nanos: 0 };
const AUTH: LocationAuth = LocationAuth::Authorized;

fn app() -> App {
    App::new(WifiHandle::Remote(RemoteWifiHandle::connect()), None)
}

fn network(ssid: Option<&str>, rssi: isize, security: Security) -> ScannedNetwork {
    ScannedNetwork {
        ssid: ssid.map(str::to_string),
        bssid: None,
        rssi,
        channel: None,
        security,
    }
}

/// The requests that the interface has sent.
fn sent(app: &App) -> Vec<&Request> {
    match &app.wifi {
        WifiHandle::Remote(h) => h.outbox.iter().map(|c| &c.request).collect(),
        WifiHandle::Local(_) => panic!("the handle changed its kind"),
    }
}

fn press(app: &mut App, code: KeyCode) -> Option<&'static str> {
    handle_key(
        app,
        KeyPress {
            code,
            modifiers: NONE,
        },
        AUTH,
        NOW,
    )
}

fn type_text(app: &mut App, text: &str) {
    for c in text.chars() {
        press(app, KeyCode::Char(c));
    }
}

fn rows(app: &App) -> Vec<Option<String>> {
    app.visible_networks()
        .iter()
        .map(|n| n.ssid.clone())
        .collect()
}

#[test]
fn both_tables_are_strongest_first() {
    let mut app = app();
    app.handle_event(Event::PreferredResult(vec![
        "gone".into(),
        "weak".into(),
        "strong".into(),
    ]));
    app.handle_event(Event::ScanResult(vec![
        network(Some("weak"), -80, Security::Wpa2Personal),
        network(Some("new weak"), -70, Security::Open),
        network(Some("strong"), -30, Security::Wpa2Personal),
        network(Some("new strong"), -20, Security::Open),
    ]));
    assert_eq!(app.visible_preferred(), vec!["strong", "weak"]);
    assert_eq!(
        rows(&app),
        vec![Some("new strong".into()), Some("new weak".into())]
    );
    press(&mut app, KeyCode::Char('A'));
    assert_eq!(app.visible_preferred(), vec!["strong", "weak", "gone"]);
    assert_eq!(
        app.notifications.last().unwrap().text,
        "show unavailable known: on"
    );
}

#[test]
fn weak_and_nameless_networks_need_the_toggle() {
    let mut app = app();
    app.handle_event(Event::ScanResult(vec![
        network(Some("far"), -85, Security::Open),
        network(Some("near"), -84, Security::Open),
        network(None, -20, Security::Open),
        network(Some(""), -20, Security::Open),
    ]));
    assert_eq!(rows(&app), vec![Some("near".into())]);
    app.available_state = None;
    press(&mut app, KeyCode::Char('a'));
    assert_eq!(rows(&app).len(), 4);
    assert_eq!(app.available_state, Some(0));
    assert_eq!(app.notifications[0].text, "show all: on");
    press(&mut app, KeyCode::Char('a'));
    assert_eq!(app.notifications[1].text, "show all: off");
}

#[test]
fn selections_stay_within_their_tables() {
    let mut app = app();
    let list = |n: usize| -> Vec<ScannedNetwork> {
        (0..n)
            .map(|i| network(Some(&format!("n{i}")), -50, Security::Open))
            .collect()
    };
    app.handle_event(Event::ScanResult(list(3)));
    assert_eq!(app.available_state, Some(0));
    press(&mut app, KeyCode::Up);
    assert_eq!(app.available_state, Some(2));
    press(&mut app, KeyCode::Char('j'));
    assert_eq!(app.available_state, Some(0));
    app.move_selection(-7);
    assert_eq!(app.available_state, Some(2));
    app.handle_event(Event::ScanResult(list(2)));
    assert_eq!(app.available_state, Some(0));
    app.handle_event(Event::ScanResult(list(0)));
    assert_eq!(app.available_state, None);
    press(&mut app, KeyCode::Down);
    assert_eq!(app.available_state, None);
    app.move_selection(isize::MIN);
    assert!(app.selected_network().is_none());

    press(&mut app, KeyCode::Tab);
    assert_eq!(app.focus, Focus::Preferred);
    app.handle_event(Event::PreferredResult(vec!["n0".into()]));
    assert_eq!(app.preferred_state, None);
    app.handle_event(Event::ScanResult(list(1)));
    assert_eq!(app.preferred_state, Some(0));
    assert_eq!(app.selected_preferred().as_deref(), Some("n0"));
}

#[test]
fn the_scan_key_is_ignored_while_scanning() {
    let mut app = app();
    assert!(app.scanning);
    press(&mut app, KeyCode::Char('s'));
    assert!(sent(&app).is_empty());
    app.handle_event(Event::ScanFailed("scan failed: radio off".into()));
    assert!(!app.scanning);
    assert_eq!(app.notifications[0].kind, Kind::Error);
    press(&mut app, KeyCode::Char('s'));
    assert!(matches!(sent(&app)[..], [Request::Scan]));
    app.handle_event(Event::ScanStarted);
    assert!(app.scanning);
}

#[test]
fn power_is_toggled_from_the_known_state() {
    let mut app = app();
    press(&mut app, KeyCode::Char('o'));
    app.handle_event(Event::State(InterfaceState {
        name: "en0".into(),
        powered: true,
        hw_address: None,
        ssid: None,
        bssid: None,
        rssi: 0,
        noise: 0,
        tx_rate_bits: 0,
        channel: None,
    }));
    press(&mut app, KeyCode::Char('o'));
    press(&mut app, KeyCode::Char('x'));
    assert!(matches!(
        sent(&app)[..],
        [
            Request::SetPower(true),
            Request::SetPower(false),
            Request::Disconnect
        ]
    ));
}

#[test]
fn only_the_plain_quit_keys_quit() {
    let quits = |code: KeyCode, modifiers: u8| {
        let mut app = app();
        handle_key(&mut app, KeyPress { code, modifiers }, AUTH, NOW);
        !app.running
    };
    assert!(quits(KeyCode::Char('q'), NONE));
    assert!(!quits(KeyCode::Char('q'), CONTROL));
    assert!(quits(KeyCode::Char('c'), CONTROL));
    assert!(!quits(KeyCode::Char('c'), NONE));
    assert!(!quits(KeyCode::Other, NONE));
}

#[test]
fn a_new_network_is_joined_by_its_kind() {
    let mut app = app();
    let scan = |app: &mut App, n: ScannedNetwork| app.handle_event(Event::ScanResult(vec![n]));
    scan(&mut app, network(Some("open"), -40, Security::Open));
    press(&mut app, KeyCode::Enter);
    assert!(matches!(
        sent(&app)[..],
        [Request::Associate(Associate {
            kind: AssociateKind::Open,
            ..
        })]
    ));

    scan(&mut app, network(Some("home"), -40, Security::Wpa3Personal));
    press(&mut app, KeyCode::Enter);
    type_text(&mut app, "qspxk");
    press(&mut app, KeyCode::Backspace);
    press(&mut app, KeyCode::Enter);
    assert!(matches!(app.overlay, Overlay::Closed));
    assert!(matches!(
        sent(&app)[1],
        Request::JoinWithPassword { ssid, password } if ssid == "home" && password == "qspx"
    ));

    scan(&mut app, network(Some("corp"), -40, Security::Wpa2Enterprise));
    press(&mut app, KeyCode::Enter);
    type_text(&mut app, "me");
    press(&mut app, KeyCode::Enter);
    assert!(matches!(&app.overlay, Overlay::EnterprisePass(p) if p.username == "me"));
    type_text(&mut app, "pw");
    press(&mut app, KeyCode::Enter);
    assert!(matches!(
        sent(&app)[2],
        Request::Associate(Associate { ssid, kind: AssociateKind::Peap { username, password } })
            if ssid == "corp" && username == "me" && password == "pw"
    ));
}

#[test]
fn a_nameless_network_is_explained() {
    let mut app = app();
    app.show_all = true;
    app.handle_event(Event::ScanResult(vec![network(None, -40, Security::Open)]));
    app.connect_selected_available(LocationAuth::Authorized, NOW);
    app.connect_selected_available(LocationAuth::Denied, NOW);
    assert_eq!(
        app.notifications[0].text,
        "hidden network — use the hidden-SSID join (h) to connect by name"
    );
    assert_eq!(
        app.notifications[1].text,
        "network names hidden — grant Location permission to macwifi.app"
    );
    assert!(sent(&app).is_empty());
}

#[test]
fn a_hidden_network_is_asked_for_by_name() {
    let mut app = app();
    press(&mut app, KeyCode::Char('h'));
    press(&mut app, KeyCode::Enter);
    assert!(matches!(app.overlay, Overlay::Closed));

    press(&mut app, KeyCode::Char('h'));
    type_text(&mut app, "Lair");
    press(&mut app, KeyCode::Enter);
    assert!(matches!(&app.overlay, Overlay::HiddenPass(p) if p.ssid == "Lair"));
    press(&mut app, KeyCode::Enter);
    assert!(matches!(
        sent(&app)[0],
        Request::Associate(Associate { ssid, kind: AssociateKind::Hidden(None) }) if ssid == "Lair"
    ));

    press(&mut app, KeyCode::Char('h'));
    type_text(&mut app, "Lair");
    press(&mut app, KeyCode::Enter);
    type_text(&mut app, "pw");
    press(&mut app, KeyCode::Enter);
    assert!(matches!(
        sent(&app)[1],
        Request::JoinWithPassword { ssid, password } if ssid == "Lair" && password == "pw"
    ));
}

fn known(app: &mut App, security: Security) {
    app.focus = Focus::Preferred;
    app.handle_event(Event::PreferredResult(vec!["home".into()]));
    app.handle_event(Event::ScanResult(vec![network(Some("home"), -40, security)]));
}

#[test]
fn a_known_network_is_joined_shared_and_forgotten() {
    let mut app = app();
    known(&mut app, Security::Open);
    press(&mut app, KeyCode::Enter);
    press(&mut app, KeyCode::Char('p'));
    press(&mut app, KeyCode::Char('d'));
    let requests = sent(&app);
    assert!(matches!(requests[0], Request::JoinSaved(s) if s == "home"));
    assert!(matches!(
        requests[1],
        Request::Share { ssid, security: ShareSecurity::Nopass } if ssid == "home"
    ));
    assert!(matches!(requests[2], Request::Forget(s) if s == "home"));

    // The key to forget acts on the table of known networks only.
    app.focus = Focus::Available;
    press(&mut app, KeyCode::Char('d'));
    assert_eq!(sent(&app).len(), 3);
}

#[test]
fn enterprise_networks_are_not_shared() {
    let mut app = app();
    known(&mut app, Security::Wpa3Enterprise);
    press(&mut app, KeyCode::Char('p'));
    assert!(sent(&app).is_empty());
    assert_eq!(
        app.notifications.last().unwrap().text,
        "can't share enterprise networks — no shareable password"
    );
    assert_eq!(app.security_for("home"), None);
    assert_eq!(app.security_for("elsewhere"), Some(ShareSecurity::Wpa));
    known(&mut app, Security::Wep);
    assert_eq!(app.security_for("home"), Some(ShareSecurity::Wep));
}

#[test]
fn a_failed_reconnect_asks_for_a_password_only_where_one_would_help() {
    let mut app = app();
    let fail = |app: &mut App, reason: JoinFailReason| {
        app.handle_event(Event::JoinSavedFailed {
            ssid: "home".into(),
            reason,
            detail: "why".into(),
        })
    };
    fail(&mut app, JoinFailReason::NotInRange);
    assert!(matches!(app.overlay, Overlay::Closed));
    assert_eq!(app.notifications[0].text, "connect to home failed: why");
    assert_eq!(app.notifications[0].kind, Kind::Error);
    for reason in [
        JoinFailReason::AssociationFailed,
        JoinFailReason::NoCachedCredential,
        JoinFailReason::KeychainDenied,
    ] {
        app.overlay = Overlay::Closed;
        fail(&mut app, reason);
        assert!(matches!(&app.overlay, Overlay::Password(p) if p.ssid == "home"));
        assert_eq!(
            app.notifications.last().unwrap().text,
            "home: enter password to connect (why)"
        );
    }
}

#[test]
fn any_key_dismisses_what_only_informs() {
    let mut app = app();
    press(&mut app, KeyCode::Char('i'));
    assert!(matches!(app.overlay, Overlay::Info));
    press(&mut app, KeyCode::Char('q'));
    assert!(app.running);
    assert!(matches!(app.overlay, Overlay::Closed));
    app.handle_event(Event::ShareReady(SharePayload {
        schema_version: 1,
        ssid: "home".into(),
        uri: "WIFI:T:nopass;S:home;;".into(),
        has_password: false,
    }));
    assert!(matches!(app.overlay, Overlay::Share(_)));
    press(&mut app, KeyCode::Enter);
    assert!(matches!(app.overlay, Overlay::Closed));
    app.start_hidden();
    type_text(&mut app, "abc");
    press(&mut app, KeyCode::Esc);
    assert!(matches!(app.overlay, Overlay::Closed));
    assert!(sent(&app).is_empty());
}

#[test]
fn themes_go_round_and_are_handed_out_to_be_saved() {
    let mut app = app();
    assert_eq!(app.theme.name, "default");
    assert_eq!(press(&mut app, KeyCode::BackTab), Some("dracula"));
    assert_eq!(app.theme_index, THEME_COUNT - 1);
    assert_eq!(press(&mut app, KeyCode::Char('T')), Some("default"));
    assert_eq!(app.notifications.last().unwrap().text, "theme: default");
    for _ in 0..THEME_COUNT {
        app.cycle_theme(1);
    }
    assert_eq!(app.theme_index, 0);
    assert_eq!(press(&mut app, KeyCode::Tab), None);
}

#[test]
fn a_theme_is_found_in_any_case() {
    assert_eq!(by_name("NoRd").unwrap().name, "nord");
    assert!(by_name("nordic").is_none());
    assert_eq!(index_of("nord"), NORD);
    assert_eq!(index_of("NORD"), 0);
    let named = App::new(
        WifiHandle::Remote(RemoteWifiHandle::connect()),
        Some("Gruvbox-Dark"),
    );
    assert_eq!(named.theme.name, "gruvbox-dark");
    let unknown = App::new(WifiHandle::Remote(RemoteWifiHandle::connect()), Some("x"));
    assert_eq!(unknown.theme.name, "default");
}

#[test]
fn the_list_of_themes_is_the_documented_one() {
    let names: Vec<&str> = all().iter().map(|t| t.name).collect();
    assert_eq!(
        names,
        vec![
            "default",
            "catppuccin-latte",
            "catppuccin-frappe",
            "catppuccin-macchiato",
            "catppuccin-mocha",
            "rose-pine",
            "rose-pine-moon",
            "rose-pine-dawn",
            "tokyo-night",
            "tokyo-night-storm",
            "gruvbox-dark",
            "gruvbox-light",
            "nord",
            "dracula"
        ]
    );
    assert_eq!(theme_at(NORD).err, Color::Rgb(0xbf, 0x61, 0x6a));
    assert_eq!(theme_at(0).border, Color::DarkGray);
    assert_eq!(rgb(0x010203), Color::Rgb(1, 2, 3));
}

#[test]
fn notifications_fade() {
    let mut app = app();
    app.handle_event(Event::Notice("hello".into()));
    for _ in 0..30 {
        handle_ui(&mut app, UiEvent::Tick, AUTH, NOW);
        assert_eq!(app.notifications.len(), 1);
    }
    assert_eq!(app.notifications[0].ttl, 0);
    handle_ui(&mut app, UiEvent::Tick, AUTH, NOW);
    assert!(app.notifications.is_empty());
    assert_eq!(Notification::error("x".into()).ttl, 50);
    assert_eq!(Notification::error("x".into()).color(), Color::Red);
    assert_eq!(Notification::info("x".into()).color(), Color::Green);
}

#[test]
fn a_resize_changes_nothing_and_a_key_goes_through() {
    let mut app = app();
    assert!(handle_ui(&mut app, UiEvent::Resize(80, 24), AUTH, NOW).is_none());
    let key = KeyPress {
        code: KeyCode::Char('T'),
        modifiers: SHIFT,
    };
    assert_eq!(
        handle_ui(&mut app, UiEvent::Key(key), AUTH, NOW),
        Some("catppuccin-latte")
    );
}

#[test]
fn the_line_editor_edits() {
    let mut input = Input::default();
    let mut key = |code: KeyCode, modifiers: u8| {
        input.handle_event(KeyPress { code, modifiers });
        (input.value.clone(), input.cursor)
    };
    key(KeyCode::Char('a'), NONE);
    key(KeyCode::Char('Ö'), SHIFT);
    assert_eq!(key(KeyCode::Char('c'), NONE), ("aÖc".into(), 3));
    assert_eq!(key(KeyCode::Left, NONE), ("aÖc".into(), 2));
    assert_eq!(key(KeyCode::Char('b'), NONE), ("aÖbc".into(), 3));
    assert_eq!(key(KeyCode::Backspace, NONE), ("aÖc".into(), 2));
    assert_eq!(key(KeyCode::Home, NONE), ("aÖc".into(), 0));
    assert_eq!(key(KeyCode::Delete, NONE), ("Öc".into(), 0));
    assert_eq!(key(KeyCode::End, NONE), ("Öc".into(), 2));
    assert_eq!(key(KeyCode::Right, NONE), ("Öc".into(), 2));
    assert_eq!(key(KeyCode::Char('x'), CONTROL), ("Öc".into(), 2));
    assert_eq!(key(KeyCode::Up, NONE), ("Öc".into(), 2));
    assert_eq!(key(KeyCode::Char('u'), CONTROL), (String::new(), 0));
    assert_eq!(key(KeyCode::Backspace, NONE), (String::new(), 0));
    for c in "two words".chars() {
        key(KeyCode::Char(c), NONE);
    }
    assert_eq!(key(KeyCode::Left, CONTROL), ("two words".into(), 4));
    assert_eq!(key(KeyCode::Char('f'), CONTROL), ("two words".into(), 5));
    assert_eq!(key(KeyCode::Char('k'), CONTROL), ("two w".into(), 5));
    assert_eq!(key(KeyCode::Char('h'), CONTROL), ("two ".into(), 4));
    assert_eq!(key(KeyCode::Char('a'), CONTROL), ("two ".into(), 0));
    assert_eq!(key(KeyCode::Char('e'), CONTROL), ("two ".into(), 4));
    assert_eq!(key(KeyCode::Char('b'), CONTROL), ("two ".into(), 3));
    assert_eq!(key(KeyCode::Backspace, ALT), (" ".into(), 0));
    assert_eq!(key(KeyCode::Backspace, SHIFT), (" ".into(), 0));
}
