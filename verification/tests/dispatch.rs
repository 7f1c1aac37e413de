use macwifi::corewlan::{InterfaceState, ScannedNetwork, Security};
use macwifi::dispatch::{
    client_unavailable, dispatch, emit_scan, interface_unavailable, reports, resume,
    resume_logged, run_scan, start, Action, Pending, Reply, Start, Step,
};
use macwifi::event::Event;
use macwifi::keychain::{KeychainError, ERR_SEC_ITEM_NOT_FOUND};
use macwifi::location::LocationAuth;
use macwifi::time::Duration;
use macwifi::worker::{
    Associate, AssociateKind, JoinKind, Origin, Request, ScanTimings, ShareSecurity,
    WorkerCommand, WorkerEvent, VERIFY_ATTEMPTS,
};

const AUTH: LocationAuth = LocationAuth::Authorized;

fn network(ssid: &str, rssi: isize, security: Security) -> ScannedNetwork {
    ScannedNetwork {
        ssid: Some(ssid.into()),
        bssid: None,
        rssi,
        channel: Some(6),
        security,
    }
}

fn state(ssid: Option<&str>) -> InterfaceState {
    InterfaceState {
        name: "en0".into(),
        powered: true,
        hw_address: None,
        ssid: ssid.map(str::to_string),
        bssid: None,
        rssi: -50,
        noise: -90,
        tx_rate_bits: 0,
        channel: None,
    }
}

fn denied(code: i32) -> KeychainError {
    KeychainError {
        code,
        message: "no access".into(),
    }
}

/// Goes through a request with the given replies, and collects what it asks
/// for and what it reports.
fn play(first: Step, replies: Vec<Reply>) -> (Vec<String>, Vec<Event>, Step) {
    let mut actions = Vec::new();
    let mut events = Vec::new();
    let mut step = first;
    let mut replies = replies.into_iter();
    loop {
        events.append(&mut step.events);
        match step.next.take() {
            Some((action, pending)) => {
                actions.push(format!("{action:?}"));
                match replies.next() {
                    Some(reply) => step = resume(pending, reply, AUTH),
                    None => {
                        step.next = Some((action, pending));
                        return (actions, events, step);
                    }
                }
            }
            None => {
                assert!(replies.next().is_none(), "a reply was left over");
                return (actions, events, step);
            }
        }
    }
}

fn names(events: &[Event]) -> Vec<String> {
    events
        .iter()
        .map(|e| match e {
            Event::Notice(s) => format!("notice: {s}"),
            Event::Error(s) => format!("error: {s}"),
            Event::State(_) => "state".into(),
            Event::PreferredResult(v) => format!("preferred: {}", v.join(",")),
            Event::ScanStarted => "scan started".into(),
            Event::ScanResult(n) => format!("scan: {}", n.len()),
            Event::ScanFailed(s) => format!("scan failed: {s}"),
            Event::ShareReady(p) => format!("share: {} {}", p.uri, p.has_password),
            Event::JoinSavedFailed {
                ssid,
                reason,
                detail,
            } => format!("join failed: {ssid} {reason:?} {detail}"),
            Event::DaemonDiagnose(d) => format!("diagnose: {} {}", d.scan_count, d.scan_blank),
        })
        .collect()
}

#[test]
fn power_falls_back_to_networksetup() {
    let ok = || Reply::Done(Ok(()));
    let fail = |m: &str| Reply::Done(Err(m.into()));
    let end = || Reply::State(Ok(state(None)));
    let (actions, events, _) = play(dispatch(Request::SetPower(true)), vec![ok(), end()]);
    assert_eq!(actions, vec!["SetPower { on: true }", "ReadState"]);
    assert_eq!(names(&events), vec!["notice: Wi-Fi on", "state"]);

    let (actions, events, _) = play(
        dispatch(Request::SetPower(false)),
        vec![fail("denied"), ok(), end()],
    );
    assert_eq!(actions[1], "NetworksetupPower { on: false }");
    assert_eq!(names(&events), vec!["notice: Wi-Fi off", "state"]);

    let (_, events, _) = play(
        dispatch(Request::SetPower(false)),
        vec![fail("denied"), fail("exit 1"), end()],
    );
    assert_eq!(
        names(&events)[0],
        "error: power toggle failed: CoreWLAN=denied; networksetup=exit 1"
    );
}

#[test]
fn an_association_reports_state_and_preferred_networks() {
    let request = |kind: AssociateKind| {
        Request::Associate(Associate {
            ssid: "Cafe".into(),
            kind,
        })
    };
    let rest = || {
        vec![
            Reply::State(Ok(state(Some("Cafe")))),
            Reply::Names(Ok(vec!["Cafe".into()])),
        ]
    };
    let mut replies = vec![Reply::Done(Ok(()))];
    replies.extend(rest());
    let (actions, events, _) = play(dispatch(request(AssociateKind::Open)), replies);
    assert_eq!(
        actions,
        vec![
            "AssociateOpen { ssid: \"Cafe\" }",
            "ReadState",
            "ListPreferred"
        ]
    );
    assert_eq!(
        names(&events),
        vec!["notice: connected to Cafe", "state", "preferred: Cafe"]
    );

    // A hidden network is looked for first; where that fails it is not joined.
    let mut replies = vec![Reply::Networks(Err("radio off".into()))];
    replies.extend(rest());
    let (actions, events, _) = play(
        dispatch(request(AssociateKind::Hidden(Some("pw".into())))),
        replies,
    );
    assert_eq!(actions[0], "DirectedScan { ssid: \"Cafe\" }");
    assert_eq!(actions[1], "ReadState");
    assert_eq!(names(&events)[0], "error: connect failed: radio off");

    let (actions, _, _) = play(
        dispatch(request(AssociateKind::Hidden(None))),
        vec![Reply::Networks(Ok(Vec::new()))],
    );
    assert_eq!(actions[1], "AssociateOpen { ssid: \"Cafe\" }");
    let (actions, _, _) = play(
        dispatch(request(AssociateKind::Peap {
            username: "u".into(),
            password: "p".into(),
        })),
        Vec::new(),
    );
    assert_eq!(
        actions,
        vec!["AssociatePeap { ssid: \"Cafe\", username: \"u\", password: \"p\" }"]
    );
}

#[test]
fn a_typed_password_is_cached_once_it_is_accepted() {
    let request = || {
        dispatch(Request::JoinWithPassword {
            ssid: "Cafe".into(),
            password: "pw".into(),
        })
    };
    let (actions, events, _) = play(
        request(),
        vec![
            Reply::Done(Ok(())),
            Reply::Done(Err("keychain locked".into())),
            Reply::State(Ok(state(Some("Cafe")))),
            Reply::State(Ok(state(Some("Cafe")))),
        ],
    );
    assert_eq!(
        actions,
        vec![
            "SetAirportNetwork { ssid: \"Cafe\", password: Some(\"pw\") }",
            "CachePassword { ssid: \"Cafe\", password: \"pw\" }",
            "ReadState",
            "ReadState"
        ]
    );
    assert_eq!(names(&events), vec!["notice: connected to Cafe", "state"]);

    let (actions, events, _) = play(
        request(),
        vec![
            Reply::Done(Err("Failed to join".into())),
            Reply::State(Ok(state(None))),
        ],
    );
    assert!(!actions.iter().any(|a| a.starts_with("CachePassword")));
    assert_eq!(
        names(&events),
        vec!["error: join failed: Failed to join", "state"]
    );
}

#[test]
fn a_join_is_checked_as_often_as_granted() {
    let mut attempts = VERIFY_ATTEMPTS;
    let mut checks = 0;
    loop {
        checks += 1;
        let step = resume(
            Pending::Verify {
                ssid: "Cafe".into(),
                kind: JoinKind::Password,
                attempts,
            },
            Reply::State(Ok(state(None))),
            AUTH,
        );
        match step.verify {
            Some(next) => {
                assert!(step.events.is_empty());
                assert!(step.next.is_none());
                assert_eq!(next.attempts_remaining, attempts - 1);
                attempts = next.attempts_remaining;
            }
            None => {
                assert_eq!(
                    names(&step.events),
                    vec!["notice: join to Cafe sent — association not yet confirmed, it may still complete"]
                );
                break;
            }
        }
    }
    assert_eq!(checks, 20);

    let step = resume(
        Pending::Verify {
            ssid: "Cafe".into(),
            kind: JoinKind::Saved {
                fail_detail: "why".into(),
            },
            attempts: 1,
        },
        Reply::State(Err("gone".into())),
        AUTH,
    );
    assert_eq!(
        names(&step.events),
        vec!["join failed: Cafe AssociationFailed why"]
    );
}

#[test]
fn a_saved_network_is_joined_silently() {
    let request = || dispatch(Request::JoinSaved("Cafe".into()));
    let scan = |n: Vec<ScannedNetwork>| Reply::Networks(Ok(n));
    let home = || Reply::State(Ok(state(Some("Cafe"))));
    let away = || Reply::State(Ok(state(None)));

    let (_, events, _) = play(request(), vec![Reply::Networks(Err("busy".into())), away()]);
    assert_eq!(
        names(&events)[0],
        "join failed: Cafe NotInRange directed scan failed: busy"
    );
    let (_, events, _) = play(request(), vec![scan(Vec::new()), away()]);
    assert_eq!(
        names(&events)[0],
        "join failed: Cafe NotInRange network not visible in scan"
    );

    let open = || scan(vec![network("Cafe", -40, Security::Open)]);
    let (actions, events, _) = play(request(), vec![open(), Reply::Done(Ok(())), home(), home()]);
    assert_eq!(actions[1], "AssociateOpen { ssid: \"Cafe\" }");
    assert_eq!(names(&events), vec!["notice: connected to Cafe", "state"]);
    let (_, events, _) = play(request(), vec![open(), Reply::Done(Err("no".into())), away()]);
    assert_eq!(
        names(&events)[0],
        "join failed: Cafe AssociationFailed open associate did not take effect"
    );

    let secured = || scan(vec![network("Cafe", -40, Security::Wpa2Personal)]);
    let (actions, _, _) = play(
        request(),
        vec![
            secured(),
            Reply::Secret(Ok(b"pw".to_vec())),
            Reply::Done(Ok(())),
            home(),
            home(),
        ],
    );
    assert_eq!(
        actions,
        vec![
            "DirectedScan { ssid: \"Cafe\" }",
            "ReadCached { ssid: \"Cafe\" }",
            "AssociatePsk { ssid: \"Cafe\", password: \"pw\" }",
            "ReadState",
            "ReadState"
        ]
    );
    let (_, events, _) = play(
        request(),
        vec![
            secured(),
            Reply::Secret(Ok(b"pw".to_vec())),
            Reply::Done(Err("no".into())),
            away(),
        ],
    );
    assert_eq!(
        names(&events)[0],
        "join failed: Cafe AssociationFailed cached password did not associate"
    );
    // Without a copy the system gets to join by itself first.
    let (actions, events, _) = play(
        request(),
        vec![
            secured(),
            Reply::Secret(Err(denied(ERR_SEC_ITEM_NOT_FOUND))),
            Reply::Done(Ok(())),
            home(),
            home(),
        ],
    );
    assert_eq!(
        actions[2],
        "SetAirportNetwork { ssid: \"Cafe\", password: None }"
    );
    assert_eq!(names(&events), vec!["notice: connected to Cafe", "state"]);
    let (_, events, _) = play(
        request(),
        vec![
            secured(),
            Reply::Secret(Err(denied(ERR_SEC_ITEM_NOT_FOUND))),
            Reply::Done(Err("Failed to join".into())),
            away(),
        ],
    );
    assert_eq!(
        names(&events)[0],
        "join failed: Cafe NoCachedCredential no saved credential in macwifi cache"
    );
    // A copy that cannot be read is removed, so that the next one is clean.
    let (actions, events, _) = play(
        request(),
        vec![
            secured(),
            Reply::Secret(Err(denied(-25293))),
            Reply::Done(Ok(())),
            away(),
        ],
    );
    assert_eq!(actions[2], "ForgetCached { ssid: \"Cafe\" }");
    assert_eq!(
        names(&events)[0],
        "join failed: Cafe KeychainDenied cached password lookup for Cafe: no access"
    );
}

#[test]
fn sharing_looks_into_the_cache_first() {
    let request = |security: ShareSecurity| {
        dispatch(Request::Share {
            ssid: "Cafe".into(),
            security,
        })
    };
    let (actions, events, _) = play(request(ShareSecurity::Nopass), Vec::new());
    assert!(actions.is_empty());
    assert_eq!(
        names(&events),
        vec!["share: WIFI:T:nopass;S:Cafe;; false"]
    );

    let (actions, events, _) = play(
        request(ShareSecurity::Wpa),
        vec![Reply::Secret(Ok(b"pw".to_vec()))],
    );
    assert_eq!(actions, vec!["ReadCached { ssid: \"Cafe\" }"]);
    assert_eq!(
        names(&events),
        vec!["share: WIFI:T:WPA;S:Cafe;P:pw;; true"]
    );

    let (actions, events, _) = play(
        request(ShareSecurity::Wep),
        vec![
            Reply::Secret(Err(denied(ERR_SEC_ITEM_NOT_FOUND))),
            Reply::Secret(Ok(b"k\xff".to_vec())),
            Reply::Done(Ok(())),
        ],
    );
    assert_eq!(actions[1], "ReadSystemPassword { ssid: \"Cafe\" }");
    assert_eq!(
        actions[2],
        "CachePassword { ssid: \"Cafe\", password: \"k\u{fffd}\" }"
    );
    assert_eq!(
        names(&events),
        vec!["share: WIFI:T:WEP;S:Cafe;P:k\u{fffd};; true"]
    );

    let (_, events, _) = play(
        request(ShareSecurity::Wpa),
        vec![
            Reply::Secret(Err(denied(ERR_SEC_ITEM_NOT_FOUND))),
            Reply::Secret(Err(denied(-128))),
        ],
    );
    assert_eq!(
        names(&events),
        vec![
            "error: keychain: system keychain lookup for Cafe — sharing SSID only",
            "share: WIFI:T:nopass;S:Cafe;; false"
        ]
    );
}

#[test]
fn forgetting_drops_both_copies() {
    let (actions, events, _) = play(
        dispatch(Request::Forget("Cafe".into())),
        vec![
            Reply::Done(Ok(())),
            Reply::Done(Ok(())),
            Reply::Names(Ok(Vec::new())),
        ],
    );
    assert_eq!(
        actions,
        vec![
            "ForgetCached { ssid: \"Cafe\" }",
            "RemovePreferred { ssid: \"Cafe\" }",
            "ListPreferred"
        ]
    );
    assert_eq!(names(&events), vec!["notice: forgot Cafe", "preferred: "]);
    let (_, events, _) = play(
        dispatch(Request::Forget("Cafe".into())),
        vec![
            Reply::Done(Err("x".into())),
            Reply::Done(Err("exit 1".into())),
            Reply::Names(Err("exit 2".into())),
        ],
    );
    assert_eq!(
        names(&events),
        vec![
            "error: forget failed: exit 1",
            "error: preferred list failed: exit 2"
        ]
    );
}

#[test]
fn a_disconnect_and_a_refresh_report_the_state() {
    let (_, events, _) = play(
        dispatch(Request::Disconnect),
        vec![Reply::Done(Ok(())), Reply::State(Err("asleep".into()))],
    );
    assert_eq!(
        names(&events),
        vec!["notice: disconnected", "error: state refresh failed: asleep"]
    );
    let (actions, events, _) = play(
        dispatch(Request::RefreshState),
        vec![Reply::State(Ok(state(None)))],
    );
    assert_eq!(actions, vec!["ReadState"]);
    assert_eq!(names(&events), vec!["state"]);
}

#[test]
fn a_direct_scan_is_sorted_and_explained() {
    let weak = network("weak", -80, Security::Open);
    let strong = network("strong", -30, Security::Open);
    let (_, events, _) = play(
        dispatch(Request::Scan),
        vec![Reply::Networks(Ok(vec![weak, strong]))],
    );
    match &events[..] {
        [Event::ScanStarted, Event::ScanResult(n)] => {
            assert_eq!(n[0].ssid.as_deref(), Some("strong"));
        }
        other => panic!("expected a result, got {other:?}"),
    }
    assert!(matches!(
        &emit_scan(Err("radio off".into()), AUTH)[..],
        [Event::ScanFailed(e)] if e == "scan failed: radio off"
    ));
    let blank = ScannedNetwork {
        ssid: None,
        bssid: None,
        rssi: -1,
        channel: None,
        security: Security::Unknown,
    };
    assert_eq!(emit_scan(Ok(vec![blank]), LocationAuth::Restricted).len(), 2);
}

#[test]
fn a_diagnosis_counts_blank_names() {
    let mut blank = network("", -50, Security::Open);
    let named = network("Cafe", -50, Security::Open);
    blank.ssid = None;
    let identity = || Reply::Identity {
        pid: 10,
        parent_pid: 1,
        location_auth_raw: 3,
        interface: "fallback".into(),
    };
    let (_, events, _) = play(
        dispatch(Request::Diagnose),
        vec![
            Reply::State(Ok(state(Some("Cafe")))),
            Reply::Networks(Ok(vec![blank, named])),
            identity(),
        ],
    );
    match &events[..] {
        [Event::DaemonDiagnose(d)] => {
            assert_eq!((d.pid, d.parent_pid, d.location_auth_raw), (10, 1, 3));
            assert_eq!(d.interface, "en0");
            assert_eq!(d.current_ssid.as_deref(), Some("Cafe"));
            assert_eq!((d.scan_count, d.scan_blank), (2, 1));
        }
        other => panic!("expected a diagnosis, got {other:?}"),
    }
    let (_, events, _) = play(
        dispatch(Request::Diagnose),
        vec![
            Reply::State(Err("x".into())),
            Reply::Networks(Err("y".into())),
            identity(),
        ],
    );
    match &events[..] {
        [Event::DaemonDiagnose(d)] => {
            assert_eq!(d.interface, "fallback");
            assert_eq!(d.current_ssid, None);
            assert_eq!((d.scan_count, d.scan_blank), (0, 0));
        }
        other => panic!("expected a diagnosis, got {other:?}"),
    }
}

#[test]
fn a_reply_that_nothing_waits_for_ends_the_request() {
    let step = resume(Pending::Preferred, Reply::Done(Ok(())), AUTH);
    assert!(step.events.is_empty() && step.next.is_none() && step.verify.is_none());
}

#[test]
fn reports_carry_the_origin_of_their_command() {
    let origin = Some(Origin {
        client_id: 4,
        request_id: 9,
    });
    match start(WorkerCommand::VerifyJoin {
        origin,
        ssid: "Cafe".into(),
        kind: JoinKind::Password,
        attempts_remaining: 2,
    }) {
        Start::Steps { origin: o, step } => {
            assert_eq!(o, origin);
            let (_, pending) = step.next.unwrap();
            let next = resume(pending, Reply::State(Ok(state(None))), AUTH);
            let (out, more) = reports(o, next);
            assert!(more.is_none());
            assert!(matches!(
                &out[..],
                [WorkerEvent::ScheduleVerify { origin: o, attempts_remaining: 1, .. }]
                    if *o == origin
            ));
        }
        other => panic!("expected steps, got {other:?}"),
    }
    match start(WorkerCommand::Request {
        origin,
        request: Request::Scan,
    }) {
        Start::Steps { origin: o, step } => {
            let (out, more) = reports(o, step);
            assert!(matches!(
                &out[..],
                [WorkerEvent::Emit { origin: o, event: Event::ScanStarted }] if *o == origin
            ));
            assert!(matches!(more, Some((Action::FullScan, Pending::DirectScan))));
        }
        other => panic!("expected steps, got {other:?}"),
    }
    assert!(matches!(
        start(WorkerCommand::Scan { operation_id: 5 }),
        Start::Scan { operation_id: 5 }
    ));
}

#[test]
fn a_finished_scan_is_reported_under_its_operation() {
    let timings = ScanTimings {
        queue: Duration { nanos: 1 },
        corewlan: Duration { nanos: 2 },
        postprocess: Duration { nanos: 3 },
    };
    match run_scan(8, Err("radio off".into()), timings) {
        WorkerEvent::ScanFinished {
            operation_id,
            result,
            timings,
        } => {
            assert_eq!(operation_id, 8);
            assert_eq!(result.unwrap_err(), "scan failed: radio off");
            assert_eq!(timings.worker_total().nanos, 6);
        }
        other => panic!("expected a finished scan, got {other:?}"),
    }
}

#[test]
fn a_worker_without_hardware_says_so_to_everyone() {
    assert!(matches!(
        client_unavailable("x"),
        WorkerEvent::Emit { origin: None, event: Event::Error(e) } if e == "CoreWLAN init failed: x"
    ));
    assert!(matches!(
        interface_unavailable("x"),
        WorkerEvent::Emit { origin: None, event: Event::Error(e) } if e == "no Wi-Fi interface: x"
    ));
}

#[test]
fn joins_are_recorded_without_their_password() {
    let line = |pending: Pending, reply: Reply, cause: Option<&str>| {
        resume_logged(pending, reply, cause, AUTH).1
    };
    let ssid = || "Home".to_string();
    let accepted = || Pending::JoinAccepted {
        ssid: ssid(),
        password: "hunter22".into(),
    };
    assert_eq!(line(accepted(), Reply::Done(Ok(())), None), None);
    assert_eq!(
        line(accepted(), Reply::Done(Err("bad password".into())), None).as_deref(),
        Some("join to Home failed: bad password")
    );
    assert_eq!(
        line(
            accepted(),
            Reply::Done(Err("running networksetup -setairportnetwork".into())),
            Some("not found")
        )
        .as_deref(),
        Some("join to Home failed: running networksetup -setairportnetwork: not found")
    );
    let cached = || Pending::JoinCached { ssid: ssid() };
    assert_eq!(
        line(cached(), Reply::Done(Ok(())), None).as_deref(),
        Some("cached password for Home")
    );
    assert_eq!(
        line(cached(), Reply::Done(Err("locked".into())), None).as_deref(),
        Some("cache_password(Home) failed: locked")
    );
    let verify = |kind: JoinKind, attempts: u8| Pending::Verify {
        ssid: ssid(),
        kind,
        attempts,
    };
    let saved = || JoinKind::Saved {
        fail_detail: "no effect".into(),
    };
    let on = || Reply::State(Ok(state(Some("Home"))));
    let off = || Reply::State(Ok(state(None)));
    assert_eq!(line(verify(JoinKind::Password, 1), on(), None), None);
    assert_eq!(line(verify(JoinKind::Password, 2), off(), None), None);
    assert_eq!(
        line(verify(JoinKind::Password, 1), off(), None).as_deref(),
        Some("join to Home: networksetup ok but association unconfirmed")
    );
    assert_eq!(
        line(verify(saved(), 5), on(), None).as_deref(),
        Some("reconnected to Home")
    );
    assert_eq!(line(verify(saved(), 2), off(), None), None);
    assert_eq!(
        line(verify(saved(), 1), off(), None).as_deref(),
        Some("JoinSaved(Home) failed: AssociationFailed — no effect")
    );
    assert_eq!(
        line(Pending::SavedScan { ssid: ssid() }, Reply::Networks(Ok(vec![])), None).as_deref(),
        Some("JoinSaved(Home) failed: NotInRange — network not visible in scan")
    );
    let failed = || Reply::Done(Err("failed".into()));
    assert_eq!(
        line(Pending::SavedAutoJoin { ssid: ssid() }, failed(), None).as_deref(),
        Some(
            "JoinSaved(Home) failed: NoCachedCredential — no saved credential in macwifi cache"
        )
    );
    let poisoned = Pending::SavedPoisoned {
        ssid: ssid(),
        detail: "no access".into(),
    };
    assert_eq!(
        line(poisoned, Reply::Done(Ok(())), None).as_deref(),
        Some("JoinSaved(Home) failed: KeychainDenied — no access")
    );
    let read = Pending::SavedCache { ssid: ssid() };
    assert_eq!(line(read, Reply::Secret(Ok(b"hunter22".to_vec())), None), None);
}
