use macwifi::client::{
    channel_closed, cli_one_shot, is_connect_terminal, is_notice_or_error, supervise, timed_out,
    unreachable_event, ConnOutcome, RemoteWifiHandle, Retry, Sequel, Terminal,
};
use macwifi::event::{Event, JoinFailReason};
use macwifi::ipc::{
    check_client_hello, check_server_hello, other_build, read_line, write_line, Hello, ServerEvent,
    PROTOCOL_VERSION,
};
use macwifi::time::Instant;
use macwifi::worker::Request;

fn at(secs: u128) -> Instant {
    Instant {
        nanos: secs * 1_000_000_000,
    }
}

fn notice(id: Option<u64>, text: &str) -> ServerEvent {
    ServerEvent {
        request_id: id,
        event: Event::Notice(text.into()),
    }
}

fn reconnect_failure() -> Event {
    Event::JoinSavedFailed {
        ssid: "home".into(),
        reason: JoinFailReason::NotInRange,
        detail: "gone".into(),
    }
}

#[test]
fn messages_are_lines() {
    assert_eq!(write_line("{\"id\":1}"), "{\"id\":1}\n");
    assert_eq!(read_line("{\"id\":1}\n").as_deref(), Some("{\"id\":1}"));
    assert_eq!(read_line("{\"id\":1}\r\n").as_deref(), Some("{\"id\":1}"));
    assert_eq!(read_line("{\"id\":1}").as_deref(), Some("{\"id\":1}"));
    assert_eq!(read_line("\n").as_deref(), Some(""));
    assert_eq!(read_line(""), None);
}

#[test]
fn what_is_written_is_read_back_line_by_line() {
    let messages = ["\"ScanStarted\"", "{\"a\":\" b \"}", "[]"];
    let stream: String = messages.iter().map(|m| write_line(m)).collect();
    let read: Vec<String> = stream
        .split_inclusive('\n')
        .map(|line| read_line(line).unwrap())
        .collect();
    assert_eq!(read, messages);
}

#[test]
fn only_the_same_version_is_greeted_back() {
    let mut hello = Hello::of_build("1.2.3");
    assert_eq!(hello.version, 3);
    assert_eq!(hello.build, "1.2.3");
    assert!(!other_build(&hello, "1.2.3"));
    assert!(other_build(&hello, "1.2.4"));
    hello.version = PROTOCOL_VERSION;
    let hello = Some(hello);
    assert!(check_server_hello(&hello).is_ok());
    assert!(check_client_hello(&hello).is_ok());
    let old = Some(Hello {
        version: 2,
        build: "1.2.3".into(),
    });
    assert_eq!(
        check_server_hello(&old).unwrap_err(),
        "protocol version mismatch (server 2, client 3)"
    );
    assert_eq!(
        check_client_hello(&old).unwrap_err(),
        "protocol version mismatch (client 2, server 3)"
    );
    assert_eq!(
        check_server_hello(&None).unwrap_err(),
        "daemon closed before hello"
    );
    assert_eq!(
        check_client_hello(&None).unwrap_err(),
        "client closed before hello"
    );
}

#[test]
fn an_unsolicited_event_answers_nobody() {
    let e = ServerEvent::unsolicited(Event::ScanStarted);
    assert_eq!(e.request_id, None);
    assert!(matches!(e.event, Event::ScanStarted));
}

#[test]
fn requests_are_numbered_in_order() {
    let mut handle = RemoteWifiHandle::connect();
    assert_eq!(handle.send(Request::Scan), 1);
    let init = handle.send_init();
    assert_eq!(init.iter().map(|c| c.id).collect::<Vec<_>>(), [2, 3, 4]);
    assert!(matches!(init[0].request, Request::RefreshState));
    assert!(matches!(init[1].request, Request::RefreshPreferred));
    assert!(matches!(init[2].request, Request::Scan));
    assert_eq!(handle.send(Request::Disconnect), 5);
    assert_eq!(handle.take().unwrap().id, 1);
    assert_eq!(handle.take().unwrap().id, 5);
    assert!(handle.take().is_none());
    handle.next_id = u64::MAX;
    assert_eq!(handle.send(Request::Scan), u64::MAX);
    assert_eq!(handle.send(Request::Scan), 0);
}

#[test]
fn a_one_shot_asks_for_no_snapshot() {
    let mut handle = RemoteWifiHandle::connect_oneshot();
    assert!(!handle.reconnect);
    assert!(handle.send_init().is_empty());
    assert_eq!(handle.next_id, 1);
}

#[test]
fn lost_connections_are_reopened_where_that_is_wanted() {
    let (event, sequel) = supervise(true, ConnOutcome::Disconnected);
    assert_eq!(sequel, Sequel::Reconnect);
    assert!(
        matches!(event, Some(Event::Notice(s)) if s == "daemon connection lost — reconnecting…")
    );
    let (event, sequel) = supervise(false, ConnOutcome::Disconnected);
    assert_eq!(sequel, Sequel::Stop);
    assert!(matches!(event, Some(Event::Error(s))
        if s == "daemon connection closed — restart with `macwifi install-daemon`"));
    for reconnect in [false, true] {
        let (event, sequel) = supervise(reconnect, ConnOutcome::HandleDropped);
        assert_eq!(sequel, Sequel::Stop);
        assert!(event.is_none());
    }
    assert!(matches!(unreachable_event("no socket"), Event::Error(s)
        if s == "daemon unreachable — no socket. Restart with `macwifi install-daemon`"));
}

#[test]
fn connecting_is_tried_twenty_times() {
    let mut retry = Retry::new();
    for _ in 0..19 {
        assert!(retry.attempt_failed("/tmp/s", "refused".into()).is_none());
    }
    let error = retry.attempt_failed("/tmp/s", "refused".into()).unwrap();
    assert_eq!(error.context, "connect /tmp/s (attempt 20)");
    assert_eq!(error.cause, "refused");
    assert_eq!(Retry::pause().as_millis(), 100);
}

#[test]
fn every_terminal_waits_for_its_own_event() {
    let scan = Event::ScanResult(Vec::new());
    let preferred = Event::PreferredResult(Vec::new());
    let error = Event::Error("e".into());
    let notice = Event::Notice("n".into());
    assert!(Terminal::ScanResult.matches(&scan));
    assert!(!Terminal::ScanResult.matches(&error));
    assert!(!Terminal::ScanResult.matches(&Event::ScanFailed("f".into())));
    assert!(Terminal::Preferred.matches(&preferred));
    assert!(!Terminal::Preferred.matches(&scan));
    assert!(Terminal::NoticeOrError.matches(&notice));
    assert!(Terminal::ShareOrError.matches(&error));
    assert!(!Terminal::ShareOrError.matches(&notice));
    assert!(!Terminal::State.matches(&notice));
    assert!(!Terminal::Diagnose.matches(&notice));
    assert!(is_notice_or_error(&notice) && is_notice_or_error(&error));
    assert!(!is_notice_or_error(&reconnect_failure()));
    assert!(is_connect_terminal(&reconnect_failure()));
    assert!(Terminal::Connect.matches(&reconnect_failure()));
}

#[test]
fn a_one_shot_collects_its_own_answers() {
    let mut handle = RemoteWifiHandle::connect_oneshot();
    let mut shot = cli_one_shot(
        &mut handle,
        Request::Disconnect,
        Terminal::NoticeOrError,
        at(10),
    );
    assert_eq!(shot.request_id, 1);
    assert!(matches!(handle.outbox[0].request, Request::Disconnect));
    assert!(!shot.received(notice(Some(2), "theirs")));
    assert!(!shot.received(notice(None, "to all")));
    assert!(!shot.received(ServerEvent {
        request_id: Some(1),
        event: Event::ScanStarted,
    }));
    assert!(shot.received(notice(Some(1), "mine")));
    assert_eq!(shot.events.len(), 2);
    assert!(matches!(&shot.events[1], Event::Notice(s) if s == "mine"));
}

#[test]
fn a_one_shot_waits_thirty_seconds() {
    let mut handle = RemoteWifiHandle::connect_oneshot();
    let shot = cli_one_shot(&mut handle, Request::Scan, Terminal::ScanResult, at(10));
    assert_eq!(shot.remaining(at(10)).as_secs(), 30);
    assert_eq!(shot.remaining(at(39)).as_secs(), 1);
    assert!(shot.remaining(at(40)).is_zero());
    assert!(shot.remaining(at(99)).is_zero());
    assert_eq!(timed_out(), "daemon reply timed out");
    assert_eq!(channel_closed(), "daemon channel closed");
}
