use macwifi::cli::{
    diagnose_lines, event_output, is_bundled, print_speedtest, print_terminal_event,
    render_speedtest_event, result_output, run_cli, run_diagnose, scan_lines, share_outcome,
    share_security, status_lines, Cmd, EventOutput, Line, Render, ReportLine, ResultOutput,
    ShareSecurityArg, SpeedtestOutput,
};
use macwifi::client::Terminal;
use macwifi::corewlan::{InterfaceState, ScannedNetwork, Security};
use macwifi::event::{DaemonDiagnose, Event, JoinFailReason, SharePayload};
use macwifi::speedtest::{parse_custom, LiveMetrics, SpeedtestEvent, SpeedtestProvider};
use macwifi::worker::{Associate, AssociateKind, Request, ShareSecurity};

#[test]
fn commands_ask_for_what_they_name() {
    assert!(matches!(
        run_cli(Cmd::Status),
        (Request::RefreshState, Terminal::State)
    ));
    assert!(matches!(
        run_cli(Cmd::Scan),
        (Request::Scan, Terminal::ScanResult)
    ));
    assert!(matches!(
        run_cli(Cmd::Power { on: true }),
        (Request::SetPower(true), Terminal::NoticeOrError)
    ));
    assert!(matches!(
        run_cli(Cmd::Disconnect),
        (Request::Disconnect, Terminal::NoticeOrError)
    ));
    assert!(matches!(
        run_cli(Cmd::Preferred),
        (Request::RefreshPreferred, Terminal::Preferred)
    ));
    assert!(matches!(
        run_cli(Cmd::Diagnose),
        (Request::Diagnose, Terminal::Diagnose)
    ));
    assert!(matches!(
        run_cli(Cmd::Forget { ssid: "x".into() }),
        (Request::Forget(s), Terminal::NoticeOrError) if s == "x"
    ));
    assert!(matches!(
        run_cli(Cmd::Share { ssid: "x".into(), security: ShareSecurityArg::Wep }),
        (Request::Share { ssid, security: ShareSecurity::Wep }, Terminal::ShareOrError)
            if ssid == "x"
    ));
}

#[test]
fn a_connect_depends_on_the_password() {
    let connect = |password: Option<&str>| {
        run_cli(Cmd::Connect {
            ssid: "home".into(),
            password: password.map(str::to_string),
        })
    };
    assert!(matches!(connect(None), (Request::JoinSaved(s), Terminal::Connect) if s == "home"));
    assert!(matches!(
        connect(Some("")),
        (
            Request::Associate(Associate { kind: AssociateKind::Open, .. }),
            Terminal::Connect
        )
    ));
    assert!(matches!(
        connect(Some("pw")),
        (Request::JoinWithPassword { ssid, password }, Terminal::Connect)
            if ssid == "home" && password == "pw"
    ));
    assert!(matches!(
        run_cli(Cmd::ConnectHidden { ssid: "lair".into(), password: Some("pw".into()) }),
        (
            Request::Associate(Associate { ssid, kind: AssociateKind::Hidden(Some(p)) }),
            Terminal::NoticeOrError
        ) if ssid == "lair" && p == "pw"
    ));
    assert!(matches!(
        run_cli(Cmd::ConnectPeap {
            ssid: "corp".into(),
            username: "me".into(),
            password: "pw".into()
        }),
        (
            Request::Associate(Associate { kind: AssociateKind::Peap { username, password }, .. }),
            Terminal::NoticeOrError
        ) if username == "me" && password == "pw"
    ));
}

#[test]
fn securities_on_the_command_line() {
    assert_eq!(share_security(ShareSecurityArg::Wpa), ShareSecurity::Wpa);
    assert_eq!(share_security(ShareSecurityArg::Wep), ShareSecurity::Wep);
    assert_eq!(share_security(ShareSecurityArg::Open), ShareSecurity::Nopass);
}

fn text(line: &Line) -> String {
    match line {
        Line::Stdout(s) => s.clone(),
        Line::Stderr(s) => format!("! {s}"),
        Line::Rate(bits) => format!("rate {}", f64::from_bits(*bits)),
    }
}

#[test]
fn the_status_is_listed() {
    let state = InterfaceState {
        name: "en0".into(),
        powered: true,
        hw_address: None,
        ssid: Some("home".into()),
        bssid: None,
        rssi: -50,
        noise: -91,
        tx_rate_bits: 173.5f64.to_bits(),
        channel: Some(6),
    };
    let lines: Vec<String> = status_lines(&state).iter().map(text).collect();
    assert_eq!(
        lines,
        [
            "interface : en0",
            "powered   : true",
            "hw addr   : -",
            "ssid      : home",
            "bssid     : -",
            "rssi      : -50 dBm",
            "noise     : -91 dBm",
            "rate 173.5",
            "channel   : 6"
        ]
    );
}

#[test]
fn a_scan_is_a_table_with_the_strongest_first() {
    let network = |ssid: Option<&str>, rssi: isize, channel: Option<u32>| ScannedNetwork {
        ssid: ssid.map(str::to_string),
        bssid: None,
        rssi,
        channel,
        security: Security::Wpa2Personal,
    };
    let lines = scan_lines(vec![
        network(None, -80, None),
        network(Some("café"), -40, Some(11)),
    ]);
    assert_eq!(
        lines,
        [
            format!("{:<32}  {:>5}  {:>4}  {:<10}  {}", "SSID", "RSSI", "CH", "SEC", "BSSID"),
            format!("{:<32}  {:>5}  {:>4}  {:<10}  {}", "café", -40, 11, "WPA2", "-"),
            format!("{:<32}  {:>5}  {:>4}  {:<10}  {}", "<hidden>", -80, "?", "WPA2", "-"),
        ]
    );
}

#[test]
fn the_last_event_is_printed() {
    assert!(print_terminal_event(&Vec::new()).is_none());
    assert!(print_terminal_event(&vec![Event::Notice("n".into()), Event::ScanStarted]).is_none());
    let printed = |e: Event| text(&print_terminal_event(&vec![Event::ScanStarted, e]).unwrap());
    assert_eq!(printed(Event::Notice("done".into())), "done");
    assert_eq!(printed(Event::Error("bad".into())), "! error: bad");
    assert_eq!(
        printed(Event::JoinSavedFailed {
            ssid: "home".into(),
            reason: JoinFailReason::KeychainDenied,
            detail: "locked".into(),
        }),
        "! error: connect to home failed: locked"
    );
}

#[test]
fn a_share_ends_with_its_payload() {
    let payload = || SharePayload {
        schema_version: 1,
        ssid: "home".into(),
        uri: "WIFI:T:nopass;S:home;;".into(),
        has_password: false,
    };
    let got = share_outcome(vec![Event::ScanStarted, Event::ShareReady(payload())]).unwrap();
    assert_eq!(got.uri, "WIFI:T:nopass;S:home;;");
    assert_eq!(
        share_outcome(vec![Event::Error("denied".into())]).unwrap_err(),
        "denied"
    );
    for evs in [
        Vec::new(),
        vec![Event::ShareReady(payload()), Event::ScanStarted],
    ] {
        assert_eq!(
            share_outcome(evs).unwrap_err(),
            "daemon returned no share payload"
        );
    }
}

#[test]
fn both_ends_are_diagnosed() {
    let d = DaemonDiagnose {
        pid: 12,
        parent_pid: 1,
        location_auth_raw: 3,
        interface: "en0".into(),
        current_ssid: None,
        scan_count: 7,
        scan_blank: 2,
    };
    assert_eq!(
        diagnose_lines(&d),
        [
            "daemon pid        : 12",
            "daemon parent pid : 1",
            "daemon location   : 3  (0=notDet 1=restr 2=denied 3=always 4=whenInUse)",
            "interface         : en0",
            "current SSID      : -",
            "scan              : 7 networks, 2 blank"
        ]
    );
    let exe = "/Applications/macwifi.app/Contents/MacOS/macwifi";
    let lines = run_diagnose(Some(exe), 99, 3, "/tmp/macwifi.sock");
    assert_eq!(lines.len(), 8);
    assert_eq!(lines[1], format!("executable        : {exe}"));
    assert_eq!(lines[2], "bundled           : true");
    assert_eq!(lines[3], "parent pid        : 99");
    assert_eq!(
        lines[4],
        "location auth     : CLAuthorizationStatus(3)  (0=notDet 1=restr 2=denied 3=always 4=whenInUse)"
    );
    assert_eq!(lines[5], "socket path       : /tmp/macwifi.sock");
    assert_eq!(run_diagnose(None, 99, 3, "/s").len(), 6);
    assert!(!is_bundled("/usr/local/bin/macwifi"));
}

#[test]
fn a_speedtest_is_reported() {
    let report = |json: &str| -> Vec<String> {
        print_speedtest(&parse_custom(json).unwrap())
            .iter()
            .map(|l| match l {
                ReportLine::Text(s) => s.clone(),
                ReportLine::Value { label, value, unit } => match value {
                    Some(m) => format!("{label}{}{unit}", f64::from_bits(m.bits)),
                    None => format!("{label}-"),
                },
            })
            .collect()
    };
    assert_eq!(
        report(r#"{"download_mbps":12.5,"jitter_ms":2,"packet_loss_percent":0,"server":{"host":"h"}}"#),
        [
            "provider : custom",
            "download : 12.5 Mbps",
            "upload   : -",
            "ping     : -",
            "jitter   : 2 ms",
            "loss     : 0%",
            "server   : h"
        ]
    );
    assert_eq!(report(r#"{"upload_mbps":3}"#).len(), 4);
}

#[test]
fn only_a_terminal_is_written_over() {
    let started = SpeedtestEvent::Started {
        schema_version: 1,
        provider: SpeedtestProvider::Ookla,
    };
    assert!(matches!(render_speedtest_event(&started, true),
        Render::Raw(s) if s == "\rTesting with ookla... 0.0s"));
    assert!(matches!(render_speedtest_event(&started, false),
        Render::Line(s) if s == "Testing with ookla..."));
    let progress = SpeedtestEvent::Progress {
        schema_version: 1,
        provider: SpeedtestProvider::Ookla,
        elapsed_ms: 250,
        live: LiveMetrics::default(),
    };
    assert!(matches!(
        render_speedtest_event(&progress, true),
        Render::Live { elapsed_ms: 250, .. }
    ));
    assert!(matches!(render_speedtest_event(&progress, false), Render::Nothing));
    let failed = SpeedtestEvent::Failed {
        schema_version: 1,
        provider: SpeedtestProvider::Ookla,
        elapsed_ms: 1,
        error: "e".into(),
    };
    assert!(matches!(render_speedtest_event(&failed, true),
        Render::Raw(s) if s == "\r\u{1b}[2K"));
    assert!(matches!(render_speedtest_event(&failed, false), Render::Nothing));
}

#[test]
fn each_format_writes_its_own_lines() {
    let started = SpeedtestEvent::Started {
        schema_version: 1,
        provider: SpeedtestProvider::Ookla,
    };
    assert!(matches!(
        event_output(SpeedtestOutput::Text, &started, false),
        EventOutput::Shown(Render::Line(s)) if s == "Testing with ookla..."
    ));
    assert!(matches!(
        event_output(SpeedtestOutput::Json, &started, false),
        EventOutput::Nothing
    ));
    assert!(matches!(
        event_output(SpeedtestOutput::Jsonl, &started, true),
        EventOutput::Serialized(SpeedtestEvent::Started {
            provider: SpeedtestProvider::Ookla,
            ..
        })
    ));

    let result = parse_custom(r#"{"upload_mbps":3}"#).unwrap();
    assert!(matches!(
        result_output(SpeedtestOutput::Text, &result),
        ResultOutput::Report(lines) if lines.len() == 4
    ));
    assert!(matches!(
        result_output(SpeedtestOutput::Json, &result),
        ResultOutput::Serialized(r) if r.upload_mbps.map(|m| f64::from_bits(m.bits)) == Some(3.0)
    ));
    assert!(matches!(
        result_output(SpeedtestOutput::Jsonl, &result),
        ResultOutput::Nothing
    ));
}
