use macwifi::app::{App, Focus, Overlay};
use macwifi::client::RemoteWifiHandle;
use macwifi::corewlan::{InterfaceState, ScannedNetwork, Security};
use macwifi::event::{Event, SharePayload};
use macwifi::notification::{Kind, Notification};
use macwifi::theme::{theme_at, Color, DEFAULT};
use macwifi::ui::{
    band, block, centered, draw_device, draw_help, draw_info, draw_known_networks,
    draw_new_networks, draw_notifications, draw_prompt, draw_share, highlight,
    notification_color, sec_label, share_box, signal_icon, signal_pct, InfoValue, Pane, Rect, Width,
};
use macwifi::worker::WifiHandle;

const AREA: Rect = Rect {
    x: 0,
    y: 0,
    width: 100,
    height: 40,
};

fn app() -> App {
    App::new(WifiHandle::Remote(RemoteWifiHandle::connect()), None)
}

fn network(ssid: Option<&str>, rssi: isize, security: Security) -> ScannedNetwork {
    ScannedNetwork {
        ssid: ssid.map(str::to_string),
        bssid: None,
        rssi,
        channel: None,
        security,
    }
}

fn state(ssid: Option<&str>) -> InterfaceState {
    InterfaceState {
        name: "en0".into(),
        powered: true,
        hw_address: Some("aa:bb".into()),
        ssid: ssid.map(str::to_string),
        bssid: None,
        rssi: -51,
        noise: -90,
        tx_rate_bits: 866.0f64.to_bits(),
        channel: Some(36),
    }
}

#[test]
fn signal_strength_becomes_percent_and_bars() {
    let pct: Vec<i64> = [0, -50, -51, -75, -99, -100, -101, isize::MIN]
        .iter()
        .map(|d| signal_pct(*d))
        .collect();
    assert_eq!(pct, vec![100, 100, 98, 50, 2, 0, 0, 0]);
    assert_ne!(signal_icon(75), signal_icon(74));
    assert_ne!(signal_icon(50), signal_icon(49));
    assert_ne!(signal_icon(25), signal_icon(24));
    assert_eq!(signal_icon(100), signal_icon(75));
    assert_eq!(signal_icon(-3), signal_icon(0));
}

#[test]
fn channels_have_bands() {
    assert_eq!(band(Some(1)), "2.4 GHz");
    assert_eq!(band(Some(14)), "2.4 GHz");
    assert_eq!(band(Some(15)), "5 GHz");
    assert_eq!(band(Some(0)), "5 GHz");
    assert_eq!(band(None), "-");
}

#[test]
fn securities_have_labels() {
    assert_eq!(sec_label(Security::Open), "open");
    assert_eq!(sec_label(Security::Wep), "WEP");
    assert_eq!(sec_label(Security::Wpa2Personal), "WPA2");
    assert_eq!(sec_label(Security::Wpa3Enterprise), "WPA3-E");
    assert_eq!(sec_label(Security::Unknown), "?");
}

#[test]
fn known_networks_show_what_is_known_of_them() {
    let mut app = app();
    app.show_all_preferred = true;
    app.handle_event(Event::State(state(Some("home"))));
    app.handle_event(Event::PreferredResult(vec!["away".into(), "home".into()]));
    app.handle_event(Event::ScanResult(vec![network(
        Some("home"),
        -60,
        Security::Wpa2Personal,
    )]));
    let rows = draw_known_networks(&app);
    assert_eq!(rows.len(), 2);
    assert_eq!(rows[0].cells[1..], ["home", "WPA2", "No", "Yes", "80%"]);
    assert!(!rows[0].cells[0].is_empty());
    assert!(!rows[0].dim);
    assert_eq!(rows[1].cells, vec!["", "away", "", "", "", ""]);
    assert!(rows[1].dim);
}

#[test]
fn new_networks_show_their_signal() {
    let mut app = app();
    app.show_all = true;
    app.handle_event(Event::ScanResult(vec![
        network(None, -97, Security::Open),
        network(Some("cafe"), -40, Security::Open),
    ]));
    let rows = draw_new_networks(&app);
    assert_eq!(rows[0].cells[..2], ["cafe", "open"]);
    assert_eq!(rows[0].cells[2], format!("100% {}", signal_icon(100)));
    assert_eq!(rows[1].cells[0], "<hidden>");
    assert_eq!(rows[1].cells[2], format!("  6% {}", signal_icon(6)));
}

#[test]
fn the_device_shows_its_state() {
    let mut app = app();
    assert_eq!(
        draw_device(&app).cells,
        vec!["-", "station", "-", "-", "Yes", "-", "-"]
    );
    app.handle_event(Event::ScanResult(vec![network(
        Some("home"),
        -60,
        Security::Wep,
    )]));
    app.handle_event(Event::State(state(Some("home"))));
    assert_eq!(
        draw_device(&app).cells,
        vec!["en0", "station", "On", "connected", "No", "5 GHz", "WEP"]
    );
    app.handle_event(Event::State(state(None)));
    assert_eq!(draw_device(&app).cells[3], "disconnected");
    assert_eq!(draw_device(&app).cells[6], "-");
}

#[test]
fn help_follows_the_focus() {
    let keys = |focus: Focus| -> Vec<String> {
        let (first, second) = draw_help(focus);
        first
            .iter()
            .chain(second.iter())
            .map(|e| format!("{}{}", e.key, e.label))
            .collect()
    };
    let preferred = keys(Focus::Preferred);
    let available = keys(Focus::Available);
    assert_eq!(preferred[3], "d Remove");
    assert_eq!(available[3], "h Connect Hidden");
    assert_eq!(preferred.len(), 13);
    assert_eq!(available.len(), 12);
    assert_eq!(preferred.last(), available.last());
}

#[test]
fn boxes_lie_in_the_middle() {
    assert_eq!(
        centered(AREA, 60, 5),
        Rect {
            x: 20,
            y: 17,
            width: 60,
            height: 5
        }
    );
    let small = Rect {
        x: 3,
        y: 4,
        width: 10,
        height: 2,
    };
    assert_eq!(centered(small, 60, 5), small);
}

#[test]
fn the_newest_notifications_are_shown() {
    assert!(draw_notifications(AREA, &Vec::new()).is_none());
    let mut list: Vec<Notification> = (0..6)
        .map(|i| Notification::info(format!("n{i}")))
        .collect();
    list.push(Notification::error("last".into()));
    let shown = draw_notifications(AREA, &list).unwrap();
    assert_eq!(shown.lines.len(), 5);
    assert_eq!(shown.lines[0], ("last".to_string(), Kind::Error));
    assert_eq!(shown.lines[4], ("n2".to_string(), Kind::Info));
    assert_eq!(
        shown.rect,
        Rect {
            x: 39,
            y: 31,
            width: 60,
            height: 7
        }
    );
}

#[test]
fn prompts_are_titled_and_masked() {
    let mut app = app();
    assert!(draw_prompt(AREA, &app.overlay).is_none());
    app.start_hidden();
    if let Overlay::HiddenSsid(p) = &mut app.overlay {
        p.input.value = "Läir".into();
        p.input.cursor = 4;
    }
    let b = draw_prompt(AREA, &app.overlay).unwrap();
    assert_eq!(b.title, " Hidden SSID ");
    assert_eq!(b.line, "> Läir");
    app.submit_overlay(macwifi::time::Instant { nanos: 0 });
    if let Overlay::HiddenPass(p) = &mut app.overlay {
        p.input.value = "geheim".into();
        p.input.cursor = 6;
    }
    let b = draw_prompt(AREA, &app.overlay).unwrap();
    assert_eq!(b.title, " Hidden password (blank = open) — Läir ");
    assert_eq!(b.line, "> ••••••");
    assert_eq!(b.rect.width, 60);
    assert_eq!(b.rect.height, 5);
}

#[test]
fn the_adapter_is_described() {
    assert!(draw_info(AREA, &None).lines.is_none());
    let b = draw_info(AREA, &Some(state(None)));
    let lines = b.lines.unwrap();
    let text = |i: usize| match &lines[i].1 {
        InfoValue::Text(s) => format!("{}{}", lines[i].0, s),
        InfoValue::Rate(bits) => format!("{}{}", lines[i].0, f64::from_bits(*bits)),
    };
    assert_eq!(text(0), "  interface  en0");
    assert_eq!(text(1), "  powered    ON");
    assert_eq!(text(2), "  hw addr    aa:bb");
    assert_eq!(text(3), "  SSID       —");
    assert_eq!(text(5), "  RSSI       -51 dBm");
    assert_eq!(text(7), "  tx rate    866");
    assert_eq!(text(8), "  channel    36");
    assert_eq!(lines.len(), 9);
}

fn payload(uri: &str, has_password: bool) -> SharePayload {
    SharePayload {
        schema_version: 1,
        ssid: "home".into(),
        uri: uri.into(),
        has_password,
    }
}

#[test]
fn a_share_code_is_drawn() {
    let b = draw_share(AREA, &payload("WIFI:T:nopass;S:home;;", false));
    assert!(!b.failed);
    assert_eq!(b.title, " Share — home ");
    assert_eq!(b.footer, "SSID-only QR (no password) · Esc close");
    // 22 bytes need a code of 25 modules, with four more on each side; two
    // rows of modules share a line.
    assert_eq!(b.lines.len(), 17);
    assert!(b.lines.iter().all(|l| l.chars().count() == 33));
    assert!(b
        .lines
        .iter()
        .all(|l| l.chars().all(|c| matches!(c, ' ' | '▀' | '▄' | '█'))));
    assert_eq!((b.rect.width, b.rect.height), (40, 21));
}

#[test]
fn a_code_that_does_not_fit_is_an_error() {
    let b = draw_share(AREA, &payload(&"x".repeat(3000), true));
    assert!(b.failed);
    assert_eq!(b.lines, vec!["QR error: data too long"]);
    assert_eq!(b.footer, "scan with phone camera to join · Esc close");
    assert_eq!((b.rect.width, b.rect.height), (40, 8));
}

#[test]
fn a_share_box_fits_the_terminal() {
    let drawing = Ok(vec!["#".repeat(90); 50].join("\n"));
    let b = share_box(AREA, &payload("u", true), drawing);
    assert_eq!(b.lines.len(), 50);
    assert_eq!((b.rect.width, b.rect.height), (94, 38));
}

#[test]
fn the_table_in_focus_stands_out() {
    let theme = theme_at(DEFAULT);
    let on = block(true, &theme);
    assert!(on.bold && on.thick);
    assert_eq!(on.border, Color::Cyan);
    let off = block(false, &theme);
    assert!(!off.bold && !off.thick);
    assert_eq!(off.border, Color::DarkGray);
    assert_eq!(highlight(true, &theme), Some((Color::Cyan, Color::Black)));
    assert_eq!(highlight(false, &theme), None);
    assert_eq!(notification_color(Kind::Error, &theme), Color::Red);
    assert_eq!(notification_color(Kind::Info, &theme), Color::Green);
}

#[test]
fn each_table_has_its_columns() {
    let names = |pane: Pane| -> Vec<&'static str> {
        pane.columns().iter().map(|c| c.name).collect()
    };
    assert_eq!(
        names(Pane::KnownNetworks),
        ["", "Name", "Security", "Hidden", "Auto Connect", "Signal"]
    );
    assert_eq!(names(Pane::NewNetworks), ["Name", "Security", "Signal"]);
    assert_eq!(names(Pane::Device).len(), 7);
    assert_eq!(Pane::KnownNetworks.columns()[1].width, Width::Rest);
    assert_eq!(Pane::NewNetworks.columns()[1].width, Width::Exactly(15));
    assert_eq!(Pane::Device.title(), " Device ");
    assert!(Pane::KnownNetworks.focused(Focus::Preferred));
    assert!(!Pane::NewNetworks.focused(Focus::Preferred));
    assert!(!Pane::Device.focused(Focus::Available));
}
