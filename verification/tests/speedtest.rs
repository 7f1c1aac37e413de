use macwifi::config::{speedtest_options, SpeedtestArgs, SpeedtestConfig};
use macwifi::json::{Fields, JsonNode};
use macwifi::speedtest::{
    apple_result, custom_result, elapsed_ms, group_fate, install_hint, names_browser,
    parse_apple, parse_custom, parse_default_interface, parse_interface_counters, parse_netflix,
    parse_ookla, parse_output, parse_ping, plan, process_timeout, provider_command,
    run_with_progress, GroupFate, InterfaceCounters, LiveMetrics, LiveSampler, Metric,
    ProcessGroupGuard, Rate, RunInput, Scale, SpeedtestEvent, SpeedtestOptions,
    SpeedtestProvider,
};
use macwifi::time::{Duration, Instant};

/// The value that a metric reports.
fn value(metric: Option<Metric>) -> Option<f64> {
    metric.map(|m| {
        let read = f64::from_bits(m.bits);
        match m.scale {
            Scale::Same => read,
            Scale::BitsPerSecond => read / 1_000_000.0,
            Scale::BytesPerSecond => read * 8.0 / 1_000_000.0,
        }
    })
}

fn at(millis: u64) -> Instant {
    Instant {
        nanos: Duration::from_millis(millis).nanos,
    }
}

#[test]
fn parses_apple_output() {
    let result = parse_apple(
        r#"{"base_rtt":12.5,"dl_throughput":100000000,"ul_throughput":25000000,"dl_bytes_transferred":10,"ul_bytes_transferred":20,"interface_name":"en0","test_endpoint":"edge.example"}"#,
    )
    .unwrap();
    assert_eq!(value(result.download_mbps), Some(100.0));
    assert_eq!(value(result.upload_mbps), Some(25.0));
    assert_eq!(value(result.ping_ms), Some(12.5));
    assert_eq!(result.server.unwrap().host.as_deref(), Some("edge.example"));
    assert_eq!(result.bytes_downloaded, Some(10));
    assert_eq!(result.bytes_uploaded, Some(20));
    assert_eq!(result.interface.as_deref(), Some("en0"));
}

#[test]
fn slow_providers_have_longer_default_timeouts() {
    assert_eq!(SpeedtestProvider::Apple.default_timeout().as_secs(), 30);
    assert_eq!(SpeedtestProvider::Ookla.default_timeout().as_secs(), 300);
    assert_eq!(SpeedtestProvider::Netflix.default_timeout().as_secs(), 300);
}

#[test]
fn parses_ookla_bytes_per_second_as_mbps() {
    let result = parse_ookla(
        r#"{"ping":{"jitter":1.2,"latency":8.5},"download":{"bandwidth":12500000,"bytes":99},"upload":{"bandwidth":6250000,"bytes":55},"packetLoss":0,"server":{"id":42,"name":"Test","location":"Here","host":"test.example"},"result":{"url":"https://example/result"}}"#,
    )
    .unwrap();
    assert_eq!(value(result.download_mbps), Some(100.0));
    assert_eq!(value(result.upload_mbps), Some(50.0));
    assert_eq!(value(result.jitter_ms), Some(1.2));
    assert_eq!(result.server.unwrap().id, Some(42));
    assert_eq!(result.result_url.as_deref(), Some("https://example/result"));
}

#[test]
fn parses_netflix_output() {
    let result = parse_netflix(
        r#"{"downloadSpeed":52,"uploadSpeed":64,"latency":9,"bufferBloat":46,"userLocation":"Somewhere, NO"}"#,
    )
    .unwrap();
    assert_eq!(value(result.download_mbps), Some(52.0));
    assert_eq!(value(result.loaded_latency_ms), Some(46.0));
    let server = result.server.unwrap();
    assert_eq!(server.name.as_deref(), Some("fast.com"));
    assert_eq!(server.location.as_deref(), Some("Somewhere, NO"));
}

#[test]
fn custom_output_requires_a_primary_metric() {
    assert!(parse_custom(r#"{"jitter_ms":2}"#).is_err());
    assert!(parse_apple("{}").is_err());
    assert!(parse_ookla("{}").is_err());
    assert!(parse_netflix("{}").is_err());
    assert_eq!(
        parse_netflix("{}").unwrap_err(),
        "netflix output must contain download, upload, or ping metrics"
    );
}

#[test]
fn parses_live_network_samples() {
    let route = "gateway: 192.168.1.1\n  interface: en0\n";
    assert_eq!(parse_default_interface(route).as_deref(), Some("en0"));

    let netstat = "Name Mtu Network Address Ipkts Ierrs Ibytes Opkts Oerrs Obytes Coll\nen0 1500 <Link#11> aa:bb 10 0 123456 20 0 654321 0\n";
    assert_eq!(
        parse_interface_counters(netstat, "en0"),
        Some((123456, 654321))
    );

    let ping = "64 bytes from 1.1.1.1: icmp_seq=0 ttl=58 time=30.255 ms\n";
    assert_eq!(
        parse_ping(ping).and_then(|t| t.parse::<f64>().ok()),
        Some(30.255)
    );
}

fn custom_options() -> SpeedtestOptions {
    SpeedtestOptions {
        provider: SpeedtestProvider::Custom,
        custom_command: Some("/usr/bin/printf".into()),
        custom_args: vec![r#"{"download_mbps":10}"#.into()],
        ..SpeedtestOptions::default()
    }
}

#[test]
fn reports_custom_provider_lifecycle() {
    let (mut session, mut events, launch) = run_with_progress(&custom_options(), at(0));
    let launch = launch.unwrap();
    assert_eq!(launch.program, "/usr/bin/printf");
    assert_eq!(launch.args, vec![r#"{"download_mbps":10}"#.to_string()]);
    events.extend(session.advance(RunInput::Tick(LiveMetrics::default()), at(500)));
    events.extend(session.advance(
        RunInput::Exited {
            success: true,
            status: "exit status: 0".into(),
            stdout: launch.args[0].clone().into_bytes(),
            stderr: Vec::new(),
        },
        at(750),
    ));

    let result = session.outcome.unwrap().unwrap();
    assert_eq!(value(result.download_mbps), Some(10.0));
    assert_eq!(result.duration_ms, 750);
    assert!(matches!(
        events.first(),
        Some(SpeedtestEvent::Started { .. })
    ));
    assert!(matches!(
        events[1],
        SpeedtestEvent::Progress {
            elapsed_ms: 500,
            ..
        }
    ));
    assert!(matches!(
        events.last(),
        Some(SpeedtestEvent::Complete { .. })
    ));
}

#[test]
fn reports_failure_event() {
    let options = SpeedtestOptions {
        provider: SpeedtestProvider::Custom,
        ..SpeedtestOptions::default()
    };
    let (session, events, launch) = run_with_progress(&options, at(0));
    assert!(launch.is_none());
    assert!(session.outcome.unwrap().is_err());
    assert!(matches!(
        events.first(),
        Some(SpeedtestEvent::Started { .. })
    ));
    assert!(matches!(events.last(), Some(SpeedtestEvent::Failed { .. })));
}

fn outcome_of(input: RunInput) -> (String, GroupFate) {
    let (mut session, _, launch) = run_with_progress(&custom_options(), at(0));
    assert!(launch.is_some());
    let fate = group_fate(&input);
    match session.advance(input, at(2_000)) {
        Some(SpeedtestEvent::Failed {
            error, elapsed_ms, ..
        }) => {
            assert_eq!(elapsed_ms, 2_000);
            // A run that is over takes no more inputs.
            assert!(session
                .advance(RunInput::DeadlinePassed, at(3_000))
                .is_none());
            (error, fate)
        }
        other => panic!("expected a failure, got {other:?}"),
    }
}

#[test]
fn every_failure_of_a_run_is_worded() {
    assert_eq!(
        outcome_of(RunInput::DeadlinePassed),
        (
            "custom speed test timed out after 30 seconds".into(),
            GroupFate::Killed
        )
    );
    assert_eq!(
        outcome_of(RunInput::Interrupted(Ok(()))),
        ("custom speed test cancelled".into(), GroupFate::Killed)
    );
    assert_eq!(
        outcome_of(RunInput::Interrupted(Err("no signal".into()))),
        ("listen for Ctrl-C: no signal".into(), GroupFate::Killed)
    );
    assert_eq!(
        outcome_of(RunInput::SpawnFailed("not found".into())),
        (
            "could not run `/usr/bin/printf`: not found".into(),
            GroupFate::Spared
        )
    );
    assert_eq!(
        outcome_of(RunInput::WaitFailed("lost".into())),
        (
            "could not run `/usr/bin/printf`: lost".into(),
            GroupFate::Killed
        )
    );
    let exited = |success: bool, stdout: &[u8], stderr: &[u8]| RunInput::Exited {
        success,
        status: "exit status: 3".into(),
        stdout: stdout.to_vec(),
        stderr: stderr.to_vec(),
    };
    assert_eq!(
        outcome_of(exited(false, b"", b"  \n")),
        (
            "custom speed test exited with exit status: 3".into(),
            GroupFate::Spared
        )
    );
    assert_eq!(
        outcome_of(exited(false, b"", b" no \xff network \n")).0,
        "custom speed test failed: no \u{fffd} network"
    );
    assert_eq!(
        outcome_of(exited(true, b"\xff", b"")).0,
        "custom returned non-UTF-8 output: invalid utf-8 sequence of 1 bytes from index 0"
    );
    assert_eq!(
        outcome_of(exited(true, b"{", b"")).0,
        "parse custom speed-test output: EOF while parsing an object at line 1 column 1"
    );
}

#[test]
fn options_are_checked_in_order() {
    let refused = |options: &SpeedtestOptions| plan(options).unwrap_err();
    let mut options = SpeedtestOptions {
        provider: SpeedtestProvider::Custom,
        timeout: Duration { nanos: 0 },
        server_id: Some(3),
        ..SpeedtestOptions::default()
    };
    assert_eq!(
        refused(&options),
        "speed-test timeout must be greater than zero"
    );
    options.timeout = Duration::from_secs(1);
    assert_eq!(
        refused(&options),
        "--server-id is only supported by the Ookla provider"
    );
    options.server_id = None;
    assert_eq!(
        refused(&options),
        "the custom provider requires --custom-command or speedtest.custom_command"
    );
}

#[test]
fn each_provider_has_its_program() {
    let mut options = SpeedtestOptions::default();
    assert_eq!(
        provider_command(&options).unwrap(),
        (
            "/usr/bin/networkQuality".to_string(),
            vec!["-c".to_string(), "-M".to_string(), "30".to_string()]
        )
    );
    options.timeout = Duration::from_millis(10);
    assert_eq!(provider_command(&options).unwrap().1[2], "1");
    options.provider = SpeedtestProvider::Ookla;
    options.server_id = Some(77);
    let (program, args) = provider_command(&options).unwrap();
    assert_eq!(program, "speedtest");
    assert_eq!(
        args,
        vec![
            "--format=json",
            "--accept-license",
            "--accept-gdpr",
            "--server-id=77"
        ]
    );
    options.provider = SpeedtestProvider::Netflix;
    assert_eq!(
        provider_command(&options).unwrap(),
        (
            "fast".to_string(),
            vec!["--upload".to_string(), "--json".to_string()]
        )
    );
}

#[test]
fn only_apple_gets_time_to_write_its_result() {
    let t = Duration::from_secs(30);
    assert_eq!(process_timeout(SpeedtestProvider::Apple, t).as_secs(), 35);
    assert_eq!(process_timeout(SpeedtestProvider::Netflix, t).as_secs(), 30);
}

#[test]
fn hints_name_what_to_install() {
    assert_eq!(
        install_hint(SpeedtestProvider::Ookla, "speedtest"),
        "could not run `speedtest`; install the official Ookla Speedtest CLI"
    );
    assert_eq!(
        install_hint(SpeedtestProvider::Netflix, "fast"),
        "could not run `fast`; install it with `npm install --global fast-cli`"
    );
    assert_eq!(
        install_hint(SpeedtestProvider::Custom, "x"),
        "could not run `x`"
    );
}

#[test]
fn only_netflix_is_told_of_a_browser() {
    assert!(names_browser(SpeedtestProvider::Netflix, false, true));
    assert!(!names_browser(SpeedtestProvider::Netflix, true, true));
    assert!(!names_browser(SpeedtestProvider::Netflix, false, false));
    assert!(!names_browser(SpeedtestProvider::Apple, false, true));
}

#[test]
fn a_custom_server_is_read_by_name_or_by_position() {
    let by_name = parse_custom(
        r#"{"ping_ms":1,"server":{"host":"h","id":7,"extra":true,"location":null}}"#,
    )
    .unwrap()
    .server
    .unwrap();
    assert_eq!(by_name.id, Some(7));
    assert_eq!(by_name.host.as_deref(), Some("h"));
    assert_eq!(by_name.name, None);
    assert_eq!(by_name.location, None);

    let by_position = parse_custom(r#"{"ping_ms":1,"server":[7,"n",null,"h"]}"#)
        .unwrap()
        .server
        .unwrap();
    assert_eq!(by_position.id, Some(7));
    assert_eq!(by_position.name.as_deref(), Some("n"));
    assert_eq!(by_position.host.as_deref(), Some("h"));

    let wrong = |text: &str| parse_custom(text).unwrap_err();
    assert_eq!(
        wrong(r#"{"ping_ms":1,"server":"h"}"#),
        "invalid type: string \"h\", expected struct SpeedtestServer"
    );
    assert_eq!(
        wrong(r#"{"ping_ms":1,"server":null}"#),
        "invalid type: null, expected struct SpeedtestServer"
    );
    assert_eq!(
        wrong(r#"{"ping_ms":1,"server":{"id":-1}}"#),
        "invalid value: integer `-1`, expected u64"
    );
    assert_eq!(
        wrong(r#"{"ping_ms":1,"server":{"name":true}}"#),
        "invalid type: boolean `true`, expected a string"
    );
    assert_eq!(
        wrong(r#"{"ping_ms":1,"server":[7,"n"]}"#),
        "invalid length 2, expected struct SpeedtestServer with 4 elements"
    );
    assert_eq!(
        wrong(r#"{"ping_ms":1,"server":[7,"n","l","h",1]}"#),
        "invalid length 5, expected fewer elements in array"
    );
    assert!(parse_custom(r#"{"ping_ms":1}"#).unwrap().server.is_none());
}

#[test]
fn a_field_is_refused_in_the_words_of_the_parser() {
    for node in ["true", "-7", "1.5", "1e400", "\"a\\\"\\u0007é\"", "[1]", "{}"] {
        let Ok(value) = serde_json::from_str::<serde_json::Value>(node) else {
            continue;
        };
        let refused = parse_custom(&format!("{{\"ping_ms\":1,\"server\":{{\"id\":{node}}}}}"));
        let words = serde_json::from_value::<Option<u64>>(value.clone());
        assert_eq!(refused.unwrap_err(), words.unwrap_err().to_string());
        let read = parse_custom(&format!("{{\"ping_ms\":1,\"server\":{{\"host\":{node}}}}}"));
        match serde_json::from_value::<Option<String>>(value) {
            Ok(host) => assert_eq!(read.unwrap().server.unwrap().host, host),
            Err(e) => assert_eq!(read.unwrap_err(), e.to_string()),
        }
    }
}

#[test]
fn parse_errors_carry_their_provider() {
    let failure = parse_output(SpeedtestProvider::Apple, "nonsense").unwrap_err();
    assert_eq!(
        failure.context.as_deref(),
        Some("parse apple speed-test output")
    );
    assert_eq!(failure.cause, "expected ident at line 1 column 2");
    assert!(parse_output(SpeedtestProvider::Netflix, r#"{"latency":4}"#).is_ok());
}

#[test]
fn results_are_built_from_plain_fields() {
    let fields = Fields {
        entries: vec![
            (
                "/dl_throughput".into(),
                Some(JsonNode::Number {
                    double: Some(5.0f64.to_bits()),
                    integer: Some(5),
                    whole: true,
                    shown: "5".into(),
                }),
            ),
            ("/interface_name".into(), Some(JsonNode::Text("en1".into()))),
            ("/ul_throughput".into(), None),
        ],
    };
    let result = apple_result(&fields).unwrap();
    assert_eq!(value(result.download_mbps), Some(0.000005));
    assert_eq!(result.upload_mbps, None);
    assert_eq!(result.interface.as_deref(), Some("en1"));
    assert_eq!(result.schema_version, 1);
    assert!(custom_result(&fields).is_err());
}

#[test]
fn lines_without_both_counters_are_passed_over() {
    let netstat = "en0 1500 n a 1 0 x 2 0 5 0\nen0 too short\nen1 1500 n a 1 0 8 2 0 5 0\nen0 1500 n a 1 0 +8 2 0 6 0\n";
    assert_eq!(parse_interface_counters(netstat, "en0"), Some((8, 6)));
    assert_eq!(parse_interface_counters(netstat, "en2"), None);
    assert_eq!(parse_default_interface("interface:  \ninterface:en7"), Some("en7".into()));
    assert_eq!(parse_default_interface("no route"), None);
    assert_eq!(parse_ping("request timeout"), None);
}

#[test]
fn samples_give_rates_and_spare_pings() {
    let counters = |millis: u64, inbound_bytes: u64, outbound_bytes: u64| InterfaceCounters {
        sampled_at: at(millis),
        inbound_bytes,
        outbound_bytes,
    };
    let mut sampler = LiveSampler::new("en0".into(), Some(counters(0, 100, 50)));
    assert_eq!(
        sampler.sample(Some(counters(500, 1_100, 40))),
        (
            Some(Rate {
                bytes: 1_000,
                nanos: 500_000_000
            }),
            None
        )
    );
    assert_eq!(sampler.sample(None), (None, None));
    assert_eq!(sampler.sample(Some(counters(900, 1, 1))), (None, None));

    assert!(sampler.ping_due(at(0)));
    assert!(!sampler.ping_due(at(999)));
    assert!(sampler.ping_due(at(1_000)));
    sampler.pinged(Some(9));
    sampler.pinged(None);
    assert_eq!(sampler.ping_ms, Some(9));
}

#[test]
fn a_guard_kills_its_group_until_it_is_disarmed() {
    let mut guard = ProcessGroupGuard::new(4_321);
    assert_eq!(guard.kill(), Some(-4_321));
    guard.disarm();
    assert_eq!(guard.kill(), None);
}

#[test]
fn elapsed_time_is_capped() {
    assert_eq!(elapsed_ms(at(100), at(350)), 250);
    assert_eq!(elapsed_ms(at(350), at(100)), 0);
    assert_eq!(elapsed_ms(at(0), Instant { nanos: u128::MAX }), u64::MAX);
}

#[test]
fn the_command_line_wins_over_the_settings() {
    let config = || SpeedtestConfig {
        provider: SpeedtestProvider::Netflix,
        timeout_seconds: Some(600),
        custom_command: Some("configured".into()),
        custom_args: vec!["a".into()],
    };
    let args = SpeedtestArgs {
        provider: None,
        timeout: None,
        server_id: None,
        custom_command: None,
        custom_args: Vec::new(),
    };
    let options = speedtest_options(args, config());
    assert!(matches!(options.provider, SpeedtestProvider::Netflix));
    assert_eq!(options.timeout.as_secs(), 600);
    assert_eq!(options.custom_command.as_deref(), Some("configured"));
    assert_eq!(options.custom_args, vec!["a".to_string()]);

    let args = SpeedtestArgs {
        provider: Some(SpeedtestProvider::Custom),
        timeout: Some(9),
        server_id: Some(1),
        custom_command: Some("given".into()),
        custom_args: vec!["b".into()],
    };
    let options = speedtest_options(args, config());
    assert_eq!(options.timeout.as_secs(), 9);
    assert_eq!(options.custom_command.as_deref(), Some("given"));
    assert_eq!(options.custom_args, vec!["b".to_string()]);

    let args = SpeedtestArgs {
        provider: Some(SpeedtestProvider::Ookla),
        timeout: None,
        server_id: None,
        custom_command: None,
        custom_args: Vec::new(),
    };
    let options = speedtest_options(args, SpeedtestConfig::default());
    assert_eq!(options.timeout.as_secs(), 300);
}
