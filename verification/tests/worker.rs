use macwifi::client::RemoteWifiHandle;
use macwifi::corewlan::{ScannedNetwork, Security};
use macwifi::time::{Duration, Instant};
use macwifi::worker::{
    escape_wifi, join_request, log_scan, share_uri, startup_requests, verify_interval, Associate,
    AssociateKind, LocalWifiHandle, Request, ScanTimings, ShareSecurity, WifiHandle, WorkerCommand,
};

#[test]
fn startup_does_not_scan() {
    // A scan here would be thrown away (no client is subscribed yet) and would
    // queue ahead of the connecting client's own scan.
    assert!(
        !startup_requests()
            .iter()
            .any(|r| matches!(r, Request::Scan)),
        "worker startup must not perform a physical scan"
    );
}

#[test]
fn startup_primes_state_and_preferred() {
    assert!(startup_requests()
        .iter()
        .any(|r| matches!(r, Request::RefreshState)));
    assert!(startup_requests()
        .iter()
        .any(|r| matches!(r, Request::RefreshPreferred)));
}

#[test]
fn blank_password_creates_open_association_request() {
    let request = join_request("Airport WiFi".into(), String::new());

    assert!(matches!(
        request,
        Request::Associate(Associate {
            ssid,
            kind: AssociateKind::Open,
        }) if ssid == "Airport WiFi"
    ));
}

#[test]
fn share_uri_escapes_reserved_characters() {
    let (uri, has_password) = share_uri("Cafe;WiFi", ShareSecurity::Wpa, Some("a:b\\c"));

    assert_eq!(uri, "WIFI:T:WPA;S:Cafe\\;WiFi;P:a\\:b\\\\c;;");
    assert!(has_password);
}

#[test]
fn share_uri_without_password_is_open() {
    let (uri, has_password) = share_uri("Cafe", ShareSecurity::Wpa, None);

    assert_eq!(uri, "WIFI:T:nopass;S:Cafe;;");
    assert!(!has_password);
}

#[test]
fn nonblank_password_is_preserved() {
    let request = join_request("Secure WiFi".into(), "secret".into());

    assert!(matches!(
        request,
        Request::JoinWithPassword { ssid, password }
            if ssid == "Secure WiFi" && password == "secret"
    ));
}

#[test]
fn every_reserved_character_is_escaped_and_no_other() {
    assert_eq!(escape_wifi("\\;,:\""), "\\\\\\;\\,\\:\\\"");
    assert_eq!(escape_wifi("Käse & Brot (5G)"), "Käse & Brot (5G)");
    assert_eq!(escape_wifi(""), "");
}

#[test]
fn a_share_uri_names_its_security() {
    assert_eq!(
        share_uri("a", ShareSecurity::Wep, Some("k")).0,
        "WIFI:T:WEP;S:a;P:k;;"
    );
    assert_eq!(
        share_uri("a", ShareSecurity::Nopass, Some("k")).0,
        "WIFI:T:nopass;S:a;P:k;;"
    );
}

fn timings() -> ScanTimings {
    ScanTimings {
        queue: Duration::from_millis(12),
        corewlan: Duration::from_millis(900),
        postprocess: Duration::from_millis(1),
    }
}

fn network(ssid: Option<&str>) -> ScannedNetwork {
    ScannedNetwork {
        ssid: ssid.map(str::to_string),
        bssid: None,
        rssi: -50,
        channel: None,
        security: Security::Open,
    }
}

#[test]
fn a_scan_is_recorded_on_one_line() {
    let networks = [network(Some("a")), network(None), network(Some(""))];
    assert_eq!(
        log_scan(timings(), Ok(&networks), 3),
        "scan queue_ms=12 corewlan_ms=900 postprocess_ms=1 worker_total_ms=913 \
networks=3 blank_ssids=2 waiters=3 outcome=ok"
    );
    assert_eq!(
        log_scan(timings(), Err("radio off"), 1),
        "scan queue_ms=12 corewlan_ms=900 postprocess_ms=1 worker_total_ms=913 \
networks=0 blank_ssids=0 waiters=1 outcome=error"
    );
    assert_eq!(timings().worker_total(), Duration::from_millis(913));
}

#[test]
fn the_queue_is_first_in_first_out_and_counts_the_wait() {
    let mut handle = LocalWifiHandle::new();
    handle.send(Request::Disconnect, Instant { nanos: 1_000 });
    handle.send_command(
        WorkerCommand::Scan { operation_id: 4 },
        Instant { nanos: 2_000 },
    );
    let now = Instant { nanos: 5_000 };
    let (first, waited) = handle.next(now).unwrap();
    assert!(matches!(
        first,
        WorkerCommand::Request {
            origin: None,
            request: Request::Disconnect
        }
    ));
    assert_eq!(waited.nanos, 4_000);
    let (second, waited) = handle.next(now).unwrap();
    assert!(matches!(second, WorkerCommand::Scan { operation_id: 4 }));
    assert_eq!(waited.nanos, 3_000);
    assert!(handle.next(now).is_none());
}

#[test]
fn both_handles_take_requests() {
    let now = Instant { nanos: 9 };
    let mut local = WifiHandle::Local(LocalWifiHandle::new());
    local.send(Request::Scan, now);
    match local {
        WifiHandle::Local(h) => assert_eq!(h.queue.len(), 1),
        WifiHandle::Remote(_) => panic!("the handle changed its kind"),
    }
    let mut remote = WifiHandle::Remote(RemoteWifiHandle::connect());
    remote.send(Request::Scan, now);
    remote.send(Request::Disconnect, now);
    match remote {
        WifiHandle::Remote(h) => {
            assert_eq!(h.outbox.len(), 2);
            assert_eq!(h.outbox[0].id, 1);
            assert_eq!(h.outbox[1].id, 2);
        }
        WifiHandle::Local(_) => panic!("the handle changed its kind"),
    }
}

#[test]
fn joins_are_checked_twice_a_second() {
    assert_eq!(verify_interval(), Duration::from_millis(500));
}
