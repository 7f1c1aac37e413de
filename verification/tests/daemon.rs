use macwifi::corewlan::{InterfaceState, ScannedNetwork, Security};
use macwifi::daemon::{check_peer, log_admission, route, Delivery, Hub};
use macwifi::event::Event;
use macwifi::ipc::{check_client_hello, ClientRequest, Hello, PROTOCOL_VERSION};
use macwifi::location::LocationAuth;
use macwifi::scan::{ScanPurpose, ScanWaiter};
use macwifi::time::{Duration, Instant};
use macwifi::worker::{
    verify_interval, JoinKind, Origin, Request, ScanTimings, WorkerCommand, WorkerEvent,
};

const AUTH: LocationAuth = LocationAuth::Authorized;

fn origin(client_id: u64, request_id: u64) -> Option<Origin> {
    Some(Origin {
        client_id,
        request_id,
    })
}

fn state() -> Event {
    Event::State(InterfaceState {
        name: "en0".into(),
        powered: true,
        hw_address: None,
        ssid: None,
        bssid: None,
        rssi: -50,
        noise: -90,
        tx_rate_bits: 0.0f64.to_bits(),
        channel: None,
    })
}

fn at(millis: u64) -> Instant {
    Instant {
        nanos: Duration::from_millis(millis).nanos,
    }
}

/// The messages for one client, taken out of a list of deliveries.
fn inbox(deliveries: &[Delivery], client_id: u64) -> Vec<(Option<u64>, &Event)> {
    deliveries
        .iter()
        .filter(|d| d.client_id == client_id)
        .map(|d| (d.message.request_id, &d.message.event))
        .collect()
}

fn networks(count: usize) -> Vec<ScannedNetwork> {
    (0..count)
        .map(|i| ScannedNetwork {
            ssid: Some(format!("net{i}")),
            bssid: None,
            rssi: -50,
            channel: None,
            security: Security::Open,
        })
        .collect()
}

fn timings() -> ScanTimings {
    ScanTimings {
        queue: Duration { nanos: 0 },
        corewlan: Duration::from_millis(900),
        postprocess: Duration { nanos: 0 },
    }
}

/// The scan operations that the daemon has handed to the worker.
fn scan_operations(hub: &mut Hub) -> Vec<u64> {
    let mut operations = Vec::new();
    while let Some((command, _)) = hub.wifi.next(at(0)) {
        match command {
            WorkerCommand::Scan { operation_id } => operations.push(operation_id),
            WorkerCommand::Request { .. } | WorkerCommand::VerifyJoin { .. } => {}
        }
    }
    operations
}

fn ask(hub: &mut Hub, client: u64, id: u64, now: Instant) -> Vec<Delivery> {
    hub.request_received(
        client,
        ClientRequest {
            id,
            request: Request::Scan,
        },
        now,
        AUTH,
    )
}

#[test]
fn direct_events_reach_only_the_requesting_client() {
    let clients = vec![1, 2];
    let sent = route(&clients, origin(1, 7), &Event::Notice("connected".into()));

    let asked = inbox(&sent, 1);
    assert_eq!(asked.len(), 1, "requester gets the notice");
    assert_eq!(asked[0].0, Some(7));
    assert!(inbox(&sent, 2).is_empty(), "bystander sees nothing");
}

#[test]
fn concurrent_requests_cannot_complete_from_each_others_events() {
    let clients = vec![1, 2];
    let mut sent = route(&clients, origin(1, 100), &Event::ScanResult(Vec::new()));
    sent.extend(route(&clients, origin(2, 200), &Event::ScanResult(Vec::new())));

    let one = inbox(&sent, 1);
    let two = inbox(&sent, 2);
    assert_eq!(one[0].0, Some(100));
    assert_eq!(two[0].0, Some(200));
    assert_eq!(one.len(), 1);
    assert_eq!(two.len(), 1);
}

#[test]
fn global_events_reach_everyone_but_only_the_requester_is_correlated() {
    let clients = vec![1, 2];
    let sent = route(&clients, origin(1, 7), &state());

    assert_eq!(inbox(&sent, 1)[0].0, Some(7));
    // A second TUI must still see the new interface state — it just did not
    // ask for it, so it arrives unsolicited.
    assert_eq!(inbox(&sent, 2)[0].0, None);
}

#[test]
fn originless_events_broadcast_uncorrelated() {
    let clients = vec![1, 2];
    let sent = route(&clients, None, &Event::Error("CoreWLAN init failed".into()));

    assert_eq!(inbox(&sent, 1)[0].0, None);
    assert_eq!(inbox(&sent, 2)[0].0, None);
}

#[test]
fn disconnected_clients_are_dropped_from_the_registry() {
    let mut hub = Hub::new();
    let alive = hub.client_connected();
    let gone = hub.client_connected();

    let sent = route(&hub.clients, None, &state());
    assert_eq!(inbox(&sent, alive).len(), 1);
    hub.delivery_failed(gone);
    assert_eq!(hub.clients.len(), 1);

    // A direct send to a departed client prunes it too.
    let third = hub.client_connected();
    let sent = route(&hub.clients, origin(third, 1), &Event::Notice("gone".into()));
    assert_eq!(inbox(&sent, third).len(), 1);
    hub.delivery_failed(third);
    assert!(!hub.clients.contains(&third));
    assert!(route(&hub.clients, origin(third, 2), &Event::Notice("gone".into())).is_empty());
}

#[test]
fn ten_requests_cause_one_physical_scan() {
    let mut hub = Hub::new();
    let client = hub.client_connected();

    for id in 1..=10 {
        let sent = ask(&mut hub, client, id, at(id));
        let got = inbox(&sent, client);
        assert_eq!(got.len(), 1);
        assert!(matches!(got[0].1, Event::ScanStarted));
        assert_eq!(got[0].0, Some(id));
    }

    let ops = scan_operations(&mut hub);
    assert_eq!(ops.len(), 1, "ten requests must share one physical scan");

    let sent = hub.scan_finished(ops[0], Ok(networks(3)), at(1_000), AUTH);
    let got = inbox(&sent, client);
    assert_eq!(got.len(), 10);
    for (i, (request_id, event)) in got.iter().enumerate() {
        assert_eq!(*request_id, Some(i as u64 + 1));
        match event {
            Event::ScanResult(n) => assert_eq!(n.len(), 3),
            other => panic!("expected a scan result, got {other:?}"),
        }
    }
}

#[test]
fn a_fresh_result_is_served_without_touching_the_worker() {
    let mut hub = Hub::new();
    let client = hub.client_connected();

    let sent = ask(&mut hub, client, 1, at(0));
    assert!(matches!(inbox(&sent, client)[0].1, Event::ScanStarted));
    let ops = scan_operations(&mut hub);
    let sent = hub.scan_finished(ops[0], Ok(networks(2)), at(100), AUTH);
    assert!(matches!(inbox(&sent, client)[0].1, Event::ScanResult(_)));

    let sent = ask(&mut hub, client, 2, at(200));
    let got = inbox(&sent, client);
    assert!(matches!(got[0].1, Event::ScanStarted));
    assert_eq!(got[0].0, Some(2));
    assert_eq!(got[1].0, Some(2));
    match got[1].1 {
        Event::ScanResult(n) => assert_eq!(n.len(), 2),
        other => panic!("expected the cached result, got {other:?}"),
    }
    assert!(
        scan_operations(&mut hub).is_empty(),
        "a cache hit must not reach the worker"
    );
}

#[test]
fn two_clients_scanning_at_once_get_their_own_ids() {
    let mut hub = Hub::new();
    let one = hub.client_connected();
    let two = hub.client_connected();

    // Distinct id sequences would hide a mix-up, so make them collide: both
    // clients use request id 1.
    let sent = ask(&mut hub, one, 1, at(0));
    assert!(matches!(inbox(&sent, one)[0].1, Event::ScanStarted));
    assert!(inbox(&sent, two).is_empty());
    let sent = ask(&mut hub, two, 1, at(1));
    assert!(matches!(inbox(&sent, two)[0].1, Event::ScanStarted));

    let ops = scan_operations(&mut hub);
    assert_eq!(ops.len(), 1);
    let sent = hub.scan_finished(ops[0], Ok(networks(1)), at(2), AUTH);
    for client in [one, two] {
        let got = inbox(&sent, client);
        assert_eq!(got.len(), 1);
        assert_eq!(got[0].0, Some(1));
        assert!(matches!(got[0].1, Event::ScanResult(_)));
    }
}

#[test]
fn a_client_leaving_mid_scan_does_not_affect_the_others() {
    let mut hub = Hub::new();
    let staying = hub.client_connected();
    let leaving = hub.client_connected();

    ask(&mut hub, staying, 1, at(0));
    ask(&mut hub, leaving, 1, at(0));
    hub.client_disconnected(leaving);
    assert_eq!(hub.clients.len(), 1);

    let ops = scan_operations(&mut hub);
    let sent = hub.scan_finished(ops[0], Ok(networks(4)), at(1), AUTH);
    assert_eq!(sent.len(), 1);
    match inbox(&sent, staying)[0].1 {
        Event::ScanResult(n) => assert_eq!(n.len(), 4),
        other => panic!("expected a scan result, got {other:?}"),
    }
}

#[test]
fn a_failed_scan_releases_every_waiter() {
    let mut hub = Hub::new();
    let client = hub.client_connected();

    ask(&mut hub, client, 1, at(0));
    let ops = scan_operations(&mut hub);
    let sent = hub.scan_finished(ops[0], Err("scan failed: radio off".into()), at(1), AUTH);
    assert!(
        matches!(inbox(&sent, client)[0].1, Event::ScanFailed(e) if e == "scan failed: radio off")
    );

    // In-flight state was cleared, so the next request starts a new scan
    // rather than waiting forever on the failed one.
    let sent = ask(&mut hub, client, 2, at(2));
    assert!(matches!(inbox(&sent, client)[0].1, Event::ScanStarted));
    assert_eq!(scan_operations(&mut hub).len(), 1);
}

#[test]
fn a_stale_protocol_version_is_rejected_readably() {
    let stale = Some(Hello {
        version: PROTOCOL_VERSION - 1,
        build: "old".into(),
    });
    assert_eq!(
        check_client_hello(&stale).unwrap_err(),
        "protocol version mismatch (client 2, server 3)"
    );
    assert_eq!(
        check_client_hello(&None).unwrap_err(),
        "client closed before hello"
    );
    assert!(check_client_hello(&Some(Hello::of_build("new"))).is_ok());
}

#[test]
fn a_pending_verification_does_not_hold_the_worker() {
    let mut hub = Hub::new();
    hub.schedule_verify(None, "Cafe".into(), JoinKind::Password, 7, at(0));

    // The wait happens outside the worker: nothing is enqueued while it
    // elapses, so a scan arriving now would be next.
    let interval = verify_interval();
    assert!(!hub.timer_due(Instant {
        nanos: interval.nanos / 2
    }));
    assert!(hub.wifi.queue.is_empty());

    let due = Instant {
        nanos: interval.nanos,
    };
    assert!(hub.timer_due(due));
    assert!(!hub.timer_due(due));
    match hub.wifi.next(due) {
        Some((
            WorkerCommand::VerifyJoin {
                ssid,
                attempts_remaining,
                ..
            },
            _,
        )) => {
            assert_eq!(ssid, "Cafe");
            assert_eq!(attempts_remaining, 7);
        }
        other => panic!("expected a verification check, got {other:?}"),
    }
}

#[test]
fn a_scan_during_verification_is_not_queued_behind_it() {
    let mut hub = Hub::new();
    hub.schedule_verify(
        None,
        "Cafe".into(),
        JoinKind::Saved {
            fail_detail: "cached password did not associate".into(),
        },
        19,
        at(0),
    );

    hub.scan_requested(
        ScanWaiter {
            client_id: 1,
            request_id: 1,
            purpose: ScanPurpose::Scan,
        },
        at(1),
        AUTH,
    );
    // The scan command is first in the queue despite the join being issued
    // first — the verification window is not ahead of it.
    assert!(matches!(
        hub.wifi.next(at(1)),
        Some((WorkerCommand::Scan { .. }, _))
    ));

    assert!(hub.timer_due(at(501)));
    assert!(matches!(
        hub.wifi.next(at(501)),
        Some((WorkerCommand::VerifyJoin { .. }, _))
    ));
}

#[test]
fn other_requests_go_to_the_worker_under_their_origin() {
    let mut hub = Hub::new();
    let client = hub.client_connected();
    let sent = hub.request_received(
        client,
        ClientRequest {
            id: 12,
            request: Request::Disconnect,
        },
        at(3),
        AUTH,
    );
    assert!(sent.is_empty());
    match hub.wifi.next(at(3)) {
        Some((WorkerCommand::Request { origin, request }, _)) => {
            assert_eq!(
                origin,
                Some(Origin {
                    client_id: client,
                    request_id: 12
                })
            );
            assert!(matches!(request, Request::Disconnect));
        }
        other => panic!("expected a request, got {other:?}"),
    }
}

#[test]
fn reports_of_the_worker_are_routed() {
    let mut hub = Hub::new();
    let one = hub.client_connected();
    let two = hub.client_connected();
    let sent = hub.worker_reported(
        WorkerEvent::Emit {
            origin: origin(one, 3),
            event: state(),
        },
        at(0),
        AUTH,
    );
    assert_eq!(sent.len(), 2);

    ask(&mut hub, two, 5, at(1));
    let ops = scan_operations(&mut hub);
    let sent = hub.worker_reported(
        WorkerEvent::ScanFinished {
            operation_id: ops[0],
            result: Ok(networks(2)),
            timings: timings(),
        },
        at(2),
        AUTH,
    );
    assert_eq!(inbox(&sent, two)[0].0, Some(5));
    assert!(inbox(&sent, one).is_empty());

    // A result that has been replaced goes to nobody.
    let sent = hub.worker_reported(
        WorkerEvent::ScanFinished {
            operation_id: ops[0],
            result: Ok(networks(9)),
            timings: timings(),
        },
        at(3),
        AUTH,
    );
    assert!(sent.is_empty());

    let sent = hub.worker_reported(
        WorkerEvent::ScheduleVerify {
            origin: None,
            ssid: "Cafe".into(),
            kind: JoinKind::Password,
            attempts_remaining: 4,
        },
        at(4),
        AUTH,
    );
    assert!(sent.is_empty());
    assert_eq!(hub.timers.len(), 1);
}

#[test]
fn blanked_names_are_explained_to_every_waiter() {
    let mut hub = Hub::new();
    let client = hub.client_connected();
    ask(&mut hub, client, 1, at(0));
    let ops = scan_operations(&mut hub);
    let blank = vec![ScannedNetwork {
        ssid: None,
        bssid: None,
        rssi: -40,
        channel: None,
        security: Security::Wpa2Personal,
    }];
    let sent = hub.scan_finished(ops[0], Ok(blank), at(1), LocationAuth::Denied);
    let got = inbox(&sent, client);
    assert_eq!(got.len(), 2);
    assert!(matches!(got[0].1, Event::ScanResult(_)));
    assert!(matches!(got[1].1, Event::Error(m) if m.contains("Location denied")));
}

#[test]
fn client_ids_are_never_reused() {
    let mut hub = Hub::new();
    let first = hub.client_connected();
    hub.client_disconnected(first);
    let second = hub.client_connected();
    assert_eq!((first, second), (1, 2));
}

#[test]
fn only_the_same_user_is_served() {
    assert!(check_peer(501, 501).is_ok());
    assert_eq!(
        check_peer(0, 501).unwrap_err(),
        "peer uid mismatch — refusing connection"
    );
}

#[test]
fn every_admission_is_recorded() {
    let mut hub = Hub::new();
    let id = hub.client_connected();
    let scan = |request_id: u64| ClientRequest {
        id: request_id,
        request: Request::Scan,
    };
    let total = Duration::from_millis(2);
    let recorded = |hub: &mut Hub, request_id: u64, now: Instant| {
        let (waiter, decision) = hub.admission(id, &scan(request_id), now).unwrap();
        hub.request_received(id, scan(request_id), now, AUTH);
        log_admission(waiter, &decision, total)
    };
    assert_eq!(
        recorded(&mut hub, 7, at(0)),
        format!(
            "scan client={id} request_id=7 cache=miss coalesced=false operation=1 \
— starting physical scan"
        )
    );
    assert_eq!(
        recorded(&mut hub, 8, at(10)),
        format!("scan client={id} request_id=8 cache=miss coalesced=true — joined running scan")
    );
    let mut found = networks(2);
    found[1].ssid = None;
    let report = WorkerEvent::ScanFinished {
        operation_id: 1,
        result: Ok(found),
        timings: timings(),
    };
    hub.worker_reported(report, at(900), AUTH);
    assert_eq!(
        recorded(&mut hub, 9, at(1000)),
        format!(
            "scan client={id} request_id=9 cache=hit coalesced=false total_ms=2 networks=2 \
blank_ssids=1 waiters=1 outcome=ok"
        )
    );
    let other = ClientRequest {
        id: 10,
        request: Request::Disconnect,
    };
    assert!(hub.admission(id, &other, at(1000)).is_none());
}

#[test]
fn every_completion_is_recorded() {
    let mut hub = Hub::new();
    let id = hub.client_connected();
    for request_id in [1, 2] {
        let message = ClientRequest {
            id: request_id,
            request: Request::Scan,
        };
        hub.request_received(id, message, at(100), AUTH);
    }
    assert_eq!(
        hub.log_completion(1, &Ok(networks(3)), timings(), at(1050)),
        [
            "scan queue_ms=0 corewlan_ms=900 postprocess_ms=0 worker_total_ms=900 networks=3 \
blank_ssids=0 waiters=2 outcome=ok",
            "scan operation=1 coordinator_ms=950 waiters=2"
        ]
    );
    assert_eq!(
        hub.log_completion(1, &Err("radio off".into()), timings(), at(1050))[0],
        "scan queue_ms=0 corewlan_ms=900 postprocess_ms=0 worker_total_ms=900 networks=0 \
blank_ssids=0 waiters=2 outcome=error"
    );
    assert_eq!(
        hub.log_completion(4, &Ok(networks(3)), timings(), at(1050)),
        ["scan operation=4 was superseded — dropping its result"]
    );
}
