use std::sync::Arc;

use macwifi::corewlan::{ScannedNetwork, Security};
use macwifi::location::LocationAuth;
use macwifi::scan::{
    blank_ssids, cache_lifetime, redaction_diagnostic, ScanCoordinator, ScanDecision, ScanPurpose,
    ScanWaiter,
};
use macwifi::time::{Duration, Instant};

fn waiter(client_id: u64, request_id: u64) -> ScanWaiter {
    ScanWaiter {
        client_id,
        request_id,
        purpose: ScanPurpose::Scan,
    }
}

fn network(ssid: Option<&str>) -> ScannedNetwork {
    ScannedNetwork {
        ssid: ssid.map(str::to_string),
        bssid: None,
        rssi: -50,
        channel: None,
        security: Security::Open,
    }
}

fn now() -> Instant {
    Instant { nanos: 7_000_000_000 }
}

fn after(start: Instant, d: Duration) -> Instant {
    Instant {
        nanos: start.nanos + d.nanos,
    }
}

#[test]
fn first_request_starts_a_physical_scan() {
    let mut c = ScanCoordinator::default();
    assert!(matches!(
        c.request(waiter(1, 1), now()),
        ScanDecision::Start { operation_id: 1 }
    ));
}

#[test]
fn concurrent_requests_share_one_physical_scan() {
    let mut c = ScanCoordinator::default();
    let now = now();
    assert!(matches!(
        c.request(waiter(1, 1), now),
        ScanDecision::Start { .. }
    ));
    for i in 2..=10 {
        assert!(matches!(
            c.request(waiter(i, i), now),
            ScanDecision::Coalesced
        ));
    }

    let completion = c.finish(1, Ok(vec![network(Some("net"))]), now).unwrap();
    assert_eq!(completion.waiters.len(), 10, "every request gets a reply");
    assert_eq!(c.next_operation_id, 2, "only one operation was started");
}

#[test]
fn aborted_operation_releases_waiters_and_allows_retry() {
    let mut c = ScanCoordinator::default();
    let now = now();
    c.request(waiter(1, 1), now);
    c.request(waiter(2, 2), now);

    let completion = c.abort(1, "worker unavailable".into(), now).unwrap();
    assert_eq!(completion.waiters.len(), 2);
    assert!(matches!(completion.result, Err(ref e) if e == "worker unavailable"));
    assert!(matches!(
        c.request(waiter(3, 3), now),
        ScanDecision::Start { operation_id: 2 }
    ));
}

#[test]
fn fresh_cache_answers_without_touching_the_worker() {
    let mut c = ScanCoordinator::default();
    let start = now();
    c.request(waiter(1, 1), start);
    c.finish(1, Ok(vec![network(Some("net"))]), start).unwrap();

    let hit = c.request(waiter(2, 2), after(start, Duration::from_secs(4)));
    match hit {
        ScanDecision::Cached(networks) => assert_eq!(networks.len(), 1),
        other => panic!("expected a cache hit, got {other:?}"),
    }
    assert_eq!(c.next_operation_id, 2, "no second operation");
}

#[test]
fn expired_cache_starts_a_new_scan() {
    let mut c = ScanCoordinator::default();
    let start = now();
    c.request(waiter(1, 1), start);
    c.finish(1, Ok(vec![network(Some("net"))]), start).unwrap();

    assert!(matches!(
        c.request(waiter(2, 2), after(start, cache_lifetime())),
        ScanDecision::Start { operation_id: 2 }
    ));
}

#[test]
fn successful_completion_returns_the_cached_arc() {
    let mut c = ScanCoordinator::default();
    let now = now();
    c.request(waiter(1, 1), now);
    let served = c
        .finish(1, Ok(vec![network(Some("net"))]), now)
        .unwrap()
        .result
        .expect("success");

    match c.request(waiter(2, 2), now) {
        // The waiters and the cache share one allocation rather than a clone
        // per client.
        ScanDecision::Cached(cached) => assert!(Arc::ptr_eq(&cached, &served)),
        other => panic!("expected a cache hit, got {other:?}"),
    }
}

#[test]
fn failure_completes_every_waiter_and_does_not_poison_the_cache() {
    let mut c = ScanCoordinator::default();
    let start = now();
    c.request(waiter(1, 1), start);
    c.finish(1, Ok(vec![network(Some("net"))]), start).unwrap();

    // Force past the cache so a real scan is attempted, and fail it.
    let later = after(start, cache_lifetime());
    c.request(waiter(2, 2), later);
    c.request(waiter(3, 3), later);
    let completion = c.finish(2, Err("scan failed".into()), later).unwrap();
    assert_eq!(completion.waiters.len(), 2, "both waiters are released");
    assert!(completion.result.is_err());

    // In-flight state is cleared, so the next request is admitted...
    assert!(matches!(
        c.request(waiter(4, 4), later),
        ScanDecision::Start { .. }
    ));
    // ...and the previous good result was neither served as fresh nor
    // replaced by the error.
    assert!(c.last_success.is_some());
}

#[test]
fn stale_completions_are_ignored() {
    let mut c = ScanCoordinator::default();
    let start = now();
    c.request(waiter(1, 1), start);
    c.finish(1, Err("boom".into()), start).unwrap();

    let later = after(start, Duration::from_millis(1));
    c.request(waiter(2, 2), later);
    // Operation 1's result arriving late must not steal operation 2's waiters
    // or clear its in-flight state.
    assert!(c.finish(1, Ok(vec![network(Some("net"))]), later).is_none());
    let completion = c.finish(2, Ok(vec![network(Some("net"))]), later).unwrap();
    assert_eq!(completion.waiters, vec![waiter(2, 2)]);
}

#[test]
fn a_disconnected_waiter_does_not_block_the_others() {
    let mut c = ScanCoordinator::default();
    let now = now();
    c.request(waiter(1, 1), now);
    c.request(waiter(2, 2), now);
    c.forget_client(1);

    let completion = c.finish(1, Ok(vec![network(Some("net"))]), now).unwrap();
    assert_eq!(completion.waiters, vec![waiter(2, 2)]);
}

#[test]
fn all_blank_ssids_produce_a_diagnostic() {
    assert_eq!(blank_ssids(&[network(None), network(Some(""))]), 2);
    for auth in [
        LocationAuth::NotDetermined,
        LocationAuth::Restricted,
        LocationAuth::Denied,
        LocationAuth::Authorized,
        LocationAuth::Unknown,
    ] {
        assert!(redaction_diagnostic(&[network(None), network(Some(""))], auth).is_some());
    }
}

#[test]
fn a_single_named_network_suppresses_the_diagnostic() {
    let auth = LocationAuth::Denied;
    assert!(redaction_diagnostic(&[network(None), network(Some("net"))], auth).is_none());
    assert!(
        redaction_diagnostic(&[], auth).is_none(),
        "empty is not redacted"
    );
}

#[test]
fn a_result_stays_fresh_up_to_the_last_nanosecond() {
    let mut c = ScanCoordinator::default();
    let start = now();
    c.request(waiter(1, 1), start);
    c.finish(1, Ok(vec![network(Some("net"))]), start).unwrap();
    let last = Instant {
        nanos: start.nanos + cache_lifetime().nanos - 1,
    };
    assert!(matches!(
        c.request(waiter(2, 2), last),
        ScanDecision::Cached(_)
    ));
}

#[test]
fn a_completion_tells_how_long_its_scan_took() {
    let mut c = ScanCoordinator::new(Duration::from_secs(1));
    let start = now();
    c.request(waiter(1, 1), start);
    let end = after(start, Duration::from_millis(900));
    let completion = c.finish(1, Ok(Vec::new()), end).unwrap();
    assert_eq!(completion.elapsed, Duration::from_millis(900));
    assert_eq!(c.lifetime, Duration::from_secs(1));
}

#[test]
fn a_request_is_decided_by_the_calls_before_it() {
    let mut c = ScanCoordinator::new(Duration::from_secs(5));
    let start = now();
    let at = |secs: u64| after(start, Duration::from_secs(secs));
    assert!(matches!(
        c.decide(at(0)),
        ScanDecision::Start { operation_id: 1 }
    ));
    c.request(waiter(1, 1), at(0));
    c.request(waiter(2, 1), at(0));
    c.forget_client(2);
    // A stale result is not accepted, and neither is an aborted operation.
    assert!(c.finish(9, Ok(vec![network(Some("stale"))]), at(1)).is_none());
    assert!(c.abort(9, "worker gone".into(), at(1)).is_none());
    assert!(matches!(c.decide(at(1)), ScanDecision::Coalesced));
    let done = c.finish(1, Ok(vec![network(Some("first"))]), at(1)).unwrap();
    assert_eq!(done.waiters, [waiter(1, 1)]);
    assert!(matches!(c.decide(at(5)), ScanDecision::Cached(n)
        if n[0].ssid.as_deref() == Some("first")));
    // The lifetime is over after exactly five seconds.
    assert!(matches!(
        c.request(waiter(3, 1), at(6)),
        ScanDecision::Start { operation_id: 2 }
    ));
    let failed = c.abort(2, "worker gone".into(), at(7)).unwrap();
    assert_eq!(failed.waiters, [waiter(3, 1)]);
    assert!(matches!(
        c.request(waiter(3, 2), at(7)),
        ScanDecision::Start { operation_id: 3 }
    ));
    c.finish(3, Ok(vec![network(Some("second"))]), at(8));
    assert!(matches!(c.request(waiter(3, 3), at(9)), ScanDecision::Cached(n)
        if n[0].ssid.as_deref() == Some("second")));
    assert!(c.waiters.is_empty());
}
