use macwifi::config::{chosen_theme, config_path, Config, SpeedtestConfig};
use macwifi::corewlan::{
    attempt_error, detect_security, interface_name, interface_state, network_to_scanned,
    no_interface, not_visible, ns_data_to_string, Attempt, RawInterface, RawNetwork, Security,
    SupportedSecurity,
};
use macwifi::install::{
    app_missing, await_socket, bootstrap_outcome, build_plist, domain, label_target, plist_name,
    SocketWait,
};
use macwifi::ipc::socket_path;
use macwifi::keychain::{
    cache_password, cached_password, forget_cached, wifi_password, KeychainError,
    ERR_SEC_ITEM_NOT_FOUND,
};
use macwifi::keychain_grant::{
    add_to_acl, check_step, extends_entry, probe, AclStep, ProbeResult,
};
use macwifi::location::{redaction_hint, AuthWait, LocationAuth};
use macwifi::logging::{self, log_path, truncates, MAX_LOG_BYTES};
use macwifi::networksetup::{
    list_preferred, list_preferred_args, not_run, read_join, remove_preferred,
    remove_preferred_args, set_airport_network, set_airport_network_args, set_power,
    set_power_args,
};
use macwifi::paths::{beside, join};
use macwifi::privileged::{
    authorization_created, check_arguments, exec_as_root, ERR_AUTHORIZATION_CANCELED,
};
use macwifi::speedtest::SpeedtestProvider;
use macwifi::time::Instant;

#[test]
fn networksetup_is_given_its_arguments() {
    assert_eq!(set_power_args("en0", true), ["-setairportpower", "en0", "on"]);
    assert_eq!(set_power_args("en0", false)[2], "off");
    assert_eq!(
        list_preferred_args("en1"),
        ["-listpreferredwirelessnetworks", "en1"]
    );
    assert_eq!(
        set_airport_network_args("en0", "home", Some("pw")),
        ["-setairportnetwork", "en0", "home", "pw"]
    );
    assert_eq!(set_airport_network_args("en0", "home", None).len(), 3);
    assert_eq!(
        remove_preferred_args("en0", "home"),
        ["-removepreferredwirelessnetwork", "en0", "home"]
    );
    assert_eq!(
        not_run("-setairportpower"),
        "running networksetup -setairportpower"
    );
}

#[test]
fn networksetup_outcomes_are_read() {
    assert!(set_power(true, "exit status: 0").is_ok());
    assert_eq!(
        set_power(false, "exit status: 1").unwrap_err(),
        "networksetup -setairportpower exited exit status: 1"
    );
    assert_eq!(
        remove_preferred(false, "exit status: 4").unwrap_err(),
        "networksetup -removepreferredwirelessnetwork exited exit status: 4"
    );
    let out = b"Preferred networks on en0:\n\thome\n\n\tcaf\xff \n".to_vec();
    assert_eq!(
        list_preferred(true, "", &out).unwrap(),
        ["home", "caf\u{fffd}"]
    );
    assert!(list_preferred(true, "", &Vec::new()).unwrap().is_empty());
    assert_eq!(
        list_preferred(false, "exit status: 1", &out).unwrap_err(),
        "networksetup -listpreferredwirelessnetworks exited exit status: 1"
    );
}

#[test]
fn a_join_fails_by_what_is_printed() {
    assert!(read_join("", "").is_ok());
    assert!(read_join("joined\n", " \n").is_ok());
    assert_eq!(
        read_join("Failed to join network home.\n", "").unwrap_err(),
        "Failed to join network home."
    );
    assert_eq!(read_join("Failed x", " oops \n").unwrap_err(), "oops");
    assert_eq!(read_join("", "warning").unwrap_err(), "warning");
    assert_eq!(
        set_airport_network(&b"Could not; Failed \xf0".to_vec(), &Vec::new()).unwrap_err(),
        "Could not; Failed \u{fffd}"
    );
}

fn missing() -> KeychainError {
    KeychainError {
        code: ERR_SEC_ITEM_NOT_FOUND,
        message: "not found".into(),
    }
}

fn locked() -> KeychainError {
    KeychainError {
        code: -25308,
        message: "locked".into(),
    }
}

#[test]
fn a_password_that_was_never_cached_is_no_error() {
    assert_eq!(cached_password(Err(missing()), "home").unwrap(), None);
    assert_eq!(
        cached_password(Err(locked()), "home").unwrap_err(),
        "cached password lookup for home: locked"
    );
    assert_eq!(
        cached_password(Ok(b"p\xc3\xa4ss\xff".to_vec()), "home")
            .unwrap()
            .as_deref(),
        Some("päss\u{fffd}")
    );
    assert!(forget_cached(Err(missing()), "home").is_ok());
    assert!(forget_cached(Ok(()), "home").is_ok());
    assert_eq!(
        forget_cached(Err(locked()), "home").unwrap_err(),
        "forget cached password for home: locked"
    );
}

#[test]
fn keychain_failures_have_their_context() {
    assert_eq!(wifi_password(Ok(b"pw".to_vec()), "home").unwrap(), "pw");
    for e in [missing(), locked()] {
        assert_eq!(
            wifi_password(Err(e), "home").unwrap_err(),
            "system keychain lookup for home"
        );
    }
    assert!(cache_password(Ok(()), "home").is_ok());
    assert_eq!(
        cache_password(Err(missing()), "home").unwrap_err(),
        "cache password for home: not found"
    );
}

#[test]
fn a_probe_tells_the_grant() {
    assert_eq!(probe(0).unwrap(), ProbeResult::AlreadyGranted);
    assert_eq!(probe(-25300).unwrap(), ProbeResult::NotFound);
    assert_eq!(probe(-25308).unwrap(), ProbeResult::NeedsGrant);
    assert_eq!(probe(-25293).unwrap(), ProbeResult::NeedsGrant);
    assert_eq!(probe(-1).unwrap_err(), "keychain probe failed (-1)");
}

#[test]
fn each_step_of_a_grant_is_checked() {
    assert!(check_step(AclStep::Locate, 0).is_ok());
    assert_eq!(
        check_step(AclStep::Locate, -25300).unwrap_err(),
        "no saved password"
    );
    assert_eq!(
        check_step(AclStep::Locate, -5).unwrap_err(),
        "locate item failed (-5)"
    );
    assert_eq!(
        check_step(AclStep::OpenKeychain, -25300).unwrap_err(),
        "SecKeychainOpen failed (-25300)"
    );
    assert!(check_step(AclStep::CopyList { null: false }, 0).is_ok());
    assert_eq!(
        check_step(AclStep::CopyList { null: true }, 0).unwrap_err(),
        "SecAccessCopyACLList failed (0)"
    );
    assert_eq!(
        check_step(AclStep::SetAccess, 7).unwrap_err(),
        "SecKeychainItemSetAccess failed (7)"
    );
    assert_eq!(
        check_step(AclStep::CreateApplication, 1).unwrap_err(),
        "SecTrustedApplicationCreateFromPath failed (1)"
    );
    assert_eq!(
        check_step(AclStep::CopyAccess, 1).unwrap_err(),
        "SecKeychainItemCopyAccess failed (1)"
    );
    assert!(extends_entry(0, true) && !extends_entry(0, false) && !extends_entry(1, true));
    assert!(add_to_acl(&vec![-1, 0, -2]).is_ok());
    for statuses in [vec![], vec![-1]] {
        assert_eq!(
            add_to_acl(&statuses).unwrap_err(),
            "no editable ACL entry found for this item"
        );
    }
}

#[test]
fn administrator_rights_can_be_refused() {
    assert!(authorization_created(0).is_ok());
    assert_eq!(
        authorization_created(-60008).unwrap_err(),
        "AuthorizationCreate failed (-60008)"
    );
    assert!(exec_as_root(0).is_ok());
    assert_eq!(
        exec_as_root(ERR_AUTHORIZATION_CANCELED).unwrap_err(),
        "admin authorization was canceled"
    );
    assert_eq!(
        exec_as_root(-60031).unwrap_err(),
        "AuthorizationExecuteWithPrivileges failed (-60031)"
    );
    assert!(check_arguments("/bin/x", &vec!["a".into()]).is_ok());
    assert_eq!(
        check_arguments("/bin\0x", &vec!["\0".into()]).unwrap_err(),
        "tool path contains NUL"
    );
    assert_eq!(
        check_arguments("/bin/x", &vec!["a".into(), "b\0".into()]).unwrap_err(),
        "argument contains NUL"
    );
}

#[test]
fn the_agent_is_described() {
    let plist = build_plist("/Users/me/macwifi.sock");
    assert!(plist.starts_with("<?xml version=\"1.0\" encoding=\"UTF-8\"?>\n<!DOCTYPE plist"));
    assert!(plist.contains("    <key>Label</key>\n    <string>dev.macwifi.daemon</string>\n"));
    assert!(plist.contains(
        "        <key>MACWIFI_SOCKET_PATH</key>\n        <string>/Users/me/macwifi.sock</string>\n"
    ));
    assert!(plist.ends_with("</dict>\n</plist>\n"));
    assert_eq!(plist_name(), "dev.macwifi.daemon.plist");
    assert_eq!(domain(501), "gui/501");
    assert_eq!(label_target(501), "gui/501/dev.macwifi.daemon");
    assert!(app_missing().starts_with("/Applications/macwifi.app not found.\nBuild with"));
}

#[test]
fn an_installation_can_fail() {
    assert!(bootstrap_outcome(true, Some(0)).is_ok());
    assert_eq!(
        bootstrap_outcome(false, Some(5)).unwrap_err(),
        "launchctl bootstrap failed (exit 5); check /tmp/macwifi-daemon.err.log for details"
    );
    assert_eq!(
        bootstrap_outcome(false, None).unwrap_err(),
        "launchctl bootstrap failed (exit -1); check /tmp/macwifi-daemon.err.log for details"
    );
    let at = |secs: u128| Instant {
        nanos: secs * 1_000_000_000,
    };
    assert!(matches!(await_socket(true, at(0), at(99), "/s"), SocketWait::Up));
    assert!(matches!(await_socket(false, at(0), at(14), "/s"), SocketWait::Again));
    assert!(matches!(await_socket(false, at(0), at(15), "/s"), SocketWait::Failed(e)
        if e == "daemon did not create /s within 15s — check /tmp/macwifi-daemon.out.log / /tmp/macwifi-daemon.err.log"));
}

#[test]
fn a_log_is_bounded_and_stamped() {
    assert!(!truncates(None));
    assert!(!truncates(Some(MAX_LOG_BYTES)));
    assert!(truncates(Some(MAX_LOG_BYTES + 1)));
    assert_eq!(logging::line(1700000000, "up"), "[1700000000] up");
}

#[test]
fn location_statuses_are_told_apart() {
    let of: Vec<LocationAuth> = [0, 1, 2, 3, 4, 5, -1]
        .iter()
        .map(|r| LocationAuth::from_raw(*r))
        .collect();
    assert_eq!(
        of,
        [
            LocationAuth::NotDetermined,
            LocationAuth::Restricted,
            LocationAuth::Denied,
            LocationAuth::Authorized,
            LocationAuth::Authorized,
            LocationAuth::Unknown,
            LocationAuth::Unknown
        ]
    );
    assert!(LocationAuth::Authorized.is_authorized() && !LocationAuth::Unknown.is_authorized());
    assert_eq!(redaction_hint(LocationAuth::Authorized), None);
    assert_eq!(
        redaction_hint(LocationAuth::Restricted),
        Some("Location restricted by policy — SSIDs will be blank")
    );
    assert!(redaction_hint(LocationAuth::Denied)
        .unwrap()
        .starts_with("Location denied"));
}

#[test]
fn the_prompt_is_waited_for_half_a_minute() {
    let mut wait = AuthWait::start(LocationAuth::NotDetermined);
    for _ in 0..59 {
        assert!(wait.slice_passed(LocationAuth::NotDetermined));
    }
    assert!(!wait.slice_passed(LocationAuth::NotDetermined));
    let mut wait = AuthWait::start(LocationAuth::NotDetermined);
    assert!(!wait.slice_passed(LocationAuth::Denied));
    let mut wait = AuthWait::start(LocationAuth::Authorized);
    assert!(!wait.slice_passed(LocationAuth::Authorized));
}

fn nothing() -> SupportedSecurity {
    SupportedSecurity {
        none: false,
        wpa3_enterprise: false,
        wpa2_enterprise: false,
        wpa_enterprise: false,
        wpa3_personal: false,
        wpa2_personal: false,
        wpa_personal: false,
        wep: false,
    }
}

#[test]
fn the_strongest_security_is_shown() {
    assert_eq!(detect_security(nothing()), Security::Unknown);
    let mut s = nothing();
    s.wep = true;
    assert_eq!(detect_security(s), Security::Wep);
    s.wpa_personal = true;
    s.wpa2_personal = true;
    assert_eq!(detect_security(s), Security::Wpa2Personal);
    s.wpa3_personal = true;
    s.wpa_enterprise = true;
    assert_eq!(detect_security(s), Security::WpaEnterprise);
    s.none = true;
    assert_eq!(detect_security(s), Security::Open);
}

#[test]
fn a_withheld_name_is_read_from_its_bytes() {
    let raw = |ssid: Option<&str>, data: Option<&[u8]>| {
        network_to_scanned(RawNetwork {
            ssid: ssid.map(str::to_string),
            ssid_data: data.map(|d| d.to_vec()),
            bssid: None,
            rssi: -40,
            channel: Some(-1),
            supported: nothing(),
        })
    };
    assert_eq!(raw(Some("a"), Some(b"b")).ssid.as_deref(), Some("a"));
    assert_eq!(
        raw(None, Some(b"caf\xc3\xa9")).ssid.as_deref(),
        Some("café")
    );
    assert_eq!(raw(None, Some(b"\xff")).ssid, None);
    assert_eq!(raw(None, Some(b"")).ssid, None);
    assert_eq!(raw(None, None).ssid, None);
    assert_eq!(raw(None, None).channel, Some(u32::MAX));
    assert_eq!(ns_data_to_string(b"\xe2\x82".to_vec()), None);
}

#[test]
fn an_interface_is_described() {
    let state = interface_state(RawInterface {
        name: None,
        powered: true,
        hw_address: Some("aa".into()),
        ssid: None,
        ssid_data: Some(b"home".to_vec()),
        bssid: None,
        rssi: -1,
        noise: -2,
        tx_rate_bits: 5,
        channel: Some(44),
    });
    assert_eq!(state.name, "");
    assert_eq!(state.ssid.as_deref(), Some("home"));
    assert_eq!(state.channel, Some(44));
    assert_eq!(interface_name(None), "?");
    assert_eq!(interface_name(Some("en0".into())), "en0");
    assert_eq!(no_interface(), "no Wi-Fi interface available");
    assert_eq!(
        not_visible("x"),
        "network 'x' not visible — too far, wrong band, or radio off"
    );
    assert_eq!(attempt_error(Attempt::SetPower, "e"), "setPower failed: e");
    assert_eq!(attempt_error(Attempt::Scan, "e"), "scan failed: e");
    assert_eq!(
        attempt_error(Attempt::DirectedScan, "e"),
        "directed scan failed: e"
    );
    assert_eq!(attempt_error(Attempt::Associate, "e"), "associate failed: e");
    assert_eq!(
        attempt_error(Attempt::EnterpriseAssociate, "e"),
        "enterprise associate failed: e"
    );
}

#[test]
fn a_saved_theme_changes_nothing_else() {
    let config = Config {
        theme: None,
        speedtest: SpeedtestConfig {
            provider: SpeedtestProvider::Ookla,
            timeout_seconds: Some(9),
            ..SpeedtestConfig::default()
        },
    };
    let config = Config::save_theme(Some(Ok(config)), "nord");
    assert_eq!(config.theme.as_deref(), Some("nord"));
    assert_eq!(config.speedtest.provider, SpeedtestProvider::Ookla);
    assert_eq!(config.speedtest.timeout_seconds, Some(9));
    assert_eq!(chosen_theme(None, config).as_deref(), Some("nord"));
    let config = Config::save_theme(None, "nord");
    assert_eq!(
        chosen_theme(Some("dracula".into()), config).as_deref(),
        Some("dracula")
    );
    assert_eq!(chosen_theme(None, Config::default()), None);
}

#[test]
fn settings_have_defaults() {
    let defaults = Config::load(None).unwrap();
    assert_eq!(defaults.theme, None);
    assert_eq!(defaults.speedtest.provider, SpeedtestProvider::Apple);
    assert_eq!(defaults.speedtest.timeout_seconds, None);
    assert_eq!(Config::load(Some(Err("bad".into()))).unwrap_err(), "bad");
    let replaced = Config::save_theme(Some(Err("bad".into())), "nord");
    assert_eq!(replaced.theme.as_deref(), Some("nord"));
    assert!(replaced.speedtest.custom_args.is_empty());
    let saved = Config::load(Some(Ok(replaced))).unwrap();
    assert_eq!(saved.theme.as_deref(), Some("nord"));
}

#[test]
fn a_saved_theme_is_loaded_on_the_next_start() {
    let first = Config::save_theme(None, "nord");
    let first = Config::load(Some(Ok(first))).unwrap();
    assert_eq!(first.theme.as_deref(), Some("nord"));
    let again = Config::save_theme(Some(Ok(first)), "nord");
    assert_eq!(again.theme.as_deref(), Some("nord"));
    assert_eq!(again.speedtest.provider, SpeedtestProvider::Apple);
    let later = Config::save_theme(Some(Ok(again)), "dracula");
    let later = Config::load(Some(Ok(later))).unwrap();
    assert_eq!(chosen_theme(None, later).as_deref(), Some("dracula"));
}

#[test]
fn files_have_their_places() {
    assert_eq!(
        config_path("/Users/me"),
        "/Users/me/.config/macwifi/config.toml"
    );
    let data = "/Users/me/Library/Application Support";
    assert_eq!(
        socket_path(None, data),
        "/Users/me/Library/Application Support/macwifi/daemon.sock"
    );
    assert_eq!(
        log_path(None, data),
        "/Users/me/Library/Application Support/macwifi/daemon.log"
    );
    assert_eq!(socket_path(Some("/tmp/t/s.sock"), data), "/tmp/t/s.sock");
    assert_eq!(log_path(Some("/tmp/t/s.sock"), data), "/tmp/t/daemon.log");
    assert_eq!(log_path(Some("s.sock"), data), "daemon.log");
}

#[test]
fn paths_are_joined_with_one_slash() {
    for (base, name) in [("/a", "b"), ("/a/", "b"), ("/", "b"), ("", "b"), ("a", "b")] {
        let joined = std::path::Path::new(base).join(name);
        assert_eq!(Some(join(base, name).as_str()), joined.to_str());
    }
    for path in ["/a/b", "/b", "b", "a/b"] {
        let beside_it = std::path::Path::new(path).with_file_name("c");
        assert_eq!(Some(beside(path, "c").as_str()), beside_it.to_str());
    }
}
