use burp_rust_lib::config::Config;
use burp_rust_lib::name::{init_name, Name};
use burp_rust_lib::network::{
    resolve_channel, Action, Event, Network, NetworkError, Stage, Step, SERVICE_PORT,
    SERVICE_PROTOCOL, SERVICE_TYPE,
};
use burp_rust_lib::traits::mdns::{Interface, Protocol};
use burp_rust_lib::traits::wifi::{AccessPointInfo, AuthMethod};
use burp_rust_lib::utf8::Utf8Error;

const MAC: [u8; 6] = [0xde, 0xad, 0xbe, 0xef, 0x00, 0x42];

type TestStep = Step<&'static str, &'static str>;
type TestEvent = Event<&'static str, &'static str>;

fn ap(ssid: &str, channel: u8) -> AccessPointInfo {
    AccessPointInfo { ssid: String::from(ssid), channel }
}

fn config_with(ssid: &[u8], psk: &[u8]) -> Config {
    let mut config = Config::new(&MAC, "", "");
    config.ssid.set(ssid).unwrap();
    config.psk.set(psk).unwrap();
    config
}

/// The calls that the sequencer asks for, and how it ends, when the call
/// number `fail_at` (from 0) fails and every scan sees `scan`.
fn run(
    config: &Config,
    name: &Name,
    scan: &[(&str, u8)],
    fail_at: Option<usize>,
) -> (Vec<String>, Option<Result<(), NetworkError<&'static str, &'static str>>>, Stage) {
    let mut network = Network::new(config, name);
    let mut calls = Vec::new();
    let mut step: TestStep = network.start();
    for _ in 0..64 {
        let action = match step {
            Step::Perform(action) => action,
            Step::Finished(outcome) => return (calls, Some(outcome), network.stage()),
            Step::Idle => return (calls, None, network.stage()),
        };
        let is_mdns = matches!(
            action,
            Action::SetHostname(_) | Action::SetInstanceName(_) | Action::AddService(_)
        );
        let is_scan = matches!(action, Action::Scan);
        calls.push(format!("{:?}", action));
        let event: TestEvent = if fail_at == Some(calls.len() - 1) {
            if is_mdns {
                Event::MdnsFailed("mdns down")
            } else {
                Event::WifiFailed("radio down")
            }
        } else if is_scan {
            Event::Scanned(scan.iter().map(|(ssid, channel)| ap(ssid, *channel)).collect())
        } else {
            Event::Succeeded
        };
        step = network.step(event);
    }
    panic!("the sequencer did not end");
}

#[test]
fn full_attempt_asks_for_every_call_in_order() {
    let config = config_with(b"home", b"secret");
    let name = init_name(&MAC);
    let (calls, outcome, stage) = run(&config, &name, &[("other", 6), ("home", 11)], None);
    assert!(matches!(outcome, Some(Ok(()))));
    assert_eq!(stage, Stage::Done);
    assert_eq!(calls.len(), 10);
    assert_eq!(calls[0], "StageDefaultConfiguration");
    assert_eq!(calls[1], "Start");
    assert_eq!(calls[2], "Scan");
    assert_eq!(
        calls[3],
        "StageConfiguration(ClientConfiguration { ssid: \"home\", password: \"secret\", \
         channel: Some(11), auth_method: WPA2Personal })"
    );
    assert_eq!(calls[4], "Connect");
    assert_eq!(calls[5], "WaitNetifUp");
    assert_eq!(calls[6], "GetIpInfo");
    assert_eq!(calls[7], "SetHostname(\"burp-DEADBEEF0042\")");
    assert_eq!(calls[8], "SetInstanceName(\"burp-DEADBEEF0042\")");
    assert_eq!(
        calls[9],
        "AddService(ServiceRecord { instance_name: \"burp-DEADBEEF0042\", service_type: \
         \"_burptech\", proto: \"_tcp\", port: 1234 })"
    );
}

#[test]
fn service_constants_are_as_documented() {
    assert_eq!(SERVICE_TYPE, "_burptech");
    assert_eq!(SERVICE_PROTOCOL, "_tcp");
    assert_eq!(SERVICE_PORT, 1234);
}

#[test]
fn scan_without_match_leaves_channel_unknown_and_still_connects() {
    let config = config_with(b"home", b"secret");
    let name = init_name(&MAC);
    let mut network = Network::new(&config, &name);
    let _: TestStep = network.start();
    let _: TestStep = network.step(Event::Succeeded);
    let step: TestStep = network.step(Event::Succeeded);
    assert!(matches!(step, Step::Perform(Action::Scan)));
    let step: TestStep = network.step(Event::Scanned(vec![ap("other", 6)]));
    match step {
        Step::Perform(Action::StageConfiguration(configuration)) => {
            assert_eq!(configuration.channel, None);
            assert_eq!(configuration.ssid, "home");
            assert_eq!(configuration.password, "secret");
            assert_eq!(configuration.auth_method, AuthMethod::WPA2Personal);
        }
        other => panic!("unexpected step {:?}", other),
    }
    let step: TestStep = network.step(Event::Succeeded);
    assert!(matches!(step, Step::Perform(Action::Connect)));
    assert_eq!(network.stage(), Stage::Connecting);
}

#[test]
fn empty_scan_leaves_channel_unknown() {
    let config = config_with(b"home", b"secret");
    let name = init_name(&MAC);
    let (calls, outcome, _) = run(&config, &name, &[], None);
    assert!(matches!(outcome, Some(Ok(()))));
    assert!(calls[3].contains("channel: None"));
}

#[test]
fn connect_failure_is_a_radio_error_and_discovery_is_never_called() {
    let config = config_with(b"home", b"secret");
    let name = init_name(&MAC);
    let (calls, outcome, stage) = run(&config, &name, &[("home", 1)], Some(4));
    assert_eq!(calls.last().unwrap(), "Connect");
    assert_eq!(calls.len(), 5);
    assert!(matches!(outcome, Some(Err(NetworkError::WifiError("radio down")))));
    assert_eq!(stage, Stage::Failed);
    assert!(!calls.iter().any(|call| call.starts_with("Set") || call.starts_with("AddService")));
}

#[test]
fn every_radio_failure_ends_the_attempt_at_once() {
    let config = config_with(b"home", b"secret");
    let name = init_name(&MAC);
    for fail_at in 0..7 {
        let (calls, outcome, stage) = run(&config, &name, &[("home", 1)], Some(fail_at));
        assert_eq!(calls.len(), fail_at + 1);
        assert!(matches!(outcome, Some(Err(NetworkError::WifiError("radio down")))));
        assert_eq!(stage, Stage::Failed);
    }
}

#[test]
fn every_discovery_failure_ends_the_attempt_at_once() {
    let config = config_with(b"home", b"secret");
    let name = init_name(&MAC);
    for fail_at in 7..10 {
        let (calls, outcome, stage) = run(&config, &name, &[("home", 1)], Some(fail_at));
        assert_eq!(calls.len(), fail_at + 1);
        assert!(matches!(outcome, Some(Err(NetworkError::MdnsError("mdns down")))));
        assert_eq!(stage, Stage::Failed);
    }
}

#[test]
fn nothing_is_asked_for_after_the_end() {
    let config = config_with(b"home", b"secret");
    let name = init_name(&MAC);
    let mut network = Network::new(&config, &name);
    let _: TestStep = network.start();
    let step: TestStep = network.step(Event::WifiFailed("no"));
    assert!(matches!(step, Step::Finished(Err(NetworkError::WifiError("no")))));
    for _ in 0..3 {
        let step: TestStep = network.step(Event::Succeeded);
        assert!(matches!(step, Step::Idle));
        let step: TestStep = network.step(Event::Scanned(vec![ap("home", 3)]));
        assert!(matches!(step, Step::Idle));
        let step: TestStep = network.step(Event::MdnsFailed("x"));
        assert!(matches!(step, Step::Idle));
        let step: TestStep = network.start();
        assert!(matches!(step, Step::Idle));
        assert_eq!(network.stage(), Stage::Failed);
    }
}

#[test]
fn undecodable_ssid_fails_before_any_call() {
    let config = config_with(b"ho\xffme", b"secret");
    let name = init_name(&MAC);
    let (calls, outcome, stage) = run(&config, &name, &[], None);
    assert!(calls.is_empty());
    assert!(matches!(
        outcome,
        Some(Err(NetworkError::Utf8Error(Utf8Error { valid_up_to: 2 })))
    ));
    assert_eq!(stage, Stage::Failed);
}

#[test]
fn undecodable_password_fails_before_any_call() {
    let config = config_with(b"home", b"\xc3");
    let name = init_name(&MAC);
    let network = Network::new(&config, &name);
    assert_eq!(network.get_ssid().unwrap(), "home");
    assert_eq!(network.get_password(), Err(Utf8Error { valid_up_to: 0 }));
    let (calls, outcome, stage) = run(&config, &name, &[], None);
    assert!(calls.is_empty());
    assert!(matches!(
        outcome,
        Some(Err(NetworkError::Utf8Error(Utf8Error { valid_up_to: 0 })))
    ));
    assert_eq!(stage, Stage::Failed);
}

#[test]
fn events_that_answer_nothing_change_nothing() {
    let config = config_with(b"home", b"secret");
    let name = init_name(&MAC);
    let mut network = Network::new(&config, &name);
    let step: TestStep = network.step(Event::Succeeded);
    assert!(matches!(step, Step::Idle));
    assert_eq!(network.stage(), Stage::Idle);

    let _: TestStep = network.start();
    assert_eq!(network.stage(), Stage::StagingDefaults);
    let step: TestStep = network.start();
    assert!(matches!(step, Step::Perform(Action::StageDefaultConfiguration)));
    let step: TestStep = network.step(Event::Scanned(vec![ap("home", 3)]));
    assert!(matches!(step, Step::Perform(Action::StageDefaultConfiguration)));
    let step: TestStep = network.step(Event::MdnsFailed("not asked"));
    assert!(matches!(step, Step::Perform(Action::StageDefaultConfiguration)));
    assert_eq!(network.stage(), Stage::StagingDefaults);

    let _: TestStep = network.step(Event::Succeeded);
    let _: TestStep = network.step(Event::Succeeded);
    assert_eq!(network.stage(), Stage::Scanning);
    let step: TestStep = network.step(Event::Succeeded);
    assert!(matches!(step, Step::Perform(Action::Scan)));
    assert_eq!(network.stage(), Stage::Scanning);
}

#[test]
fn radio_failure_report_during_discovery_changes_nothing() {
    let config = config_with(b"home", b"secret");
    let name = init_name(&MAC);
    let mut network = Network::new(&config, &name);
    let mut step: TestStep = network.start();
    while !matches!(step, Step::Perform(Action::SetHostname(_))) {
        step = match step {
            Step::Perform(Action::Scan) => network.step(Event::Scanned(vec![])),
            Step::Perform(_) => network.step(Event::Succeeded),
            other => panic!("unexpected step {:?}", other),
        };
    }
    assert_eq!(network.stage(), Stage::NamingHost);
    let step: TestStep = network.step(Event::WifiFailed("late"));
    assert!(matches!(step, Step::Perform(Action::SetHostname(_))));
    assert_eq!(network.stage(), Stage::NamingHost);
}

#[test]
fn first_match_wins() {
    let ssid = String::from("home");
    let scan = vec![ap("other", 6), ap("home", 11), ap("home", 1), ap("x", 2)];
    assert_eq!(resolve_channel(&scan, &ssid), Some(11));
    assert_eq!(resolve_channel(&vec![ap("home", 0)], &ssid), Some(0));
    assert_eq!(resolve_channel(&vec![ap("other", 6)], &ssid), None);
    assert_eq!(resolve_channel(&vec![], &ssid), None);
    assert_eq!(resolve_channel(&vec![ap("Home", 6), ap("home ", 7)], &ssid), None);
}

#[test]
fn stages_follow_one_another() {
    let order = [
        Stage::StagingDefaults,
        Stage::Starting,
        Stage::Scanning,
        Stage::StagingCredentials,
        Stage::Connecting,
        Stage::AwaitingAddress,
        Stage::ReadingAddress,
        Stage::NamingHost,
        Stage::NamingInstance,
        Stage::Advertising,
        Stage::Done,
    ];
    for pair in order.windows(2) {
        assert_eq!(pair[0].next(), pair[1]);
    }
    assert_eq!(Stage::Idle.next(), Stage::Idle);
    assert_eq!(Stage::Done.next(), Stage::Done);
    assert_eq!(Stage::Failed.next(), Stage::Failed);
    for stage in order.iter().take(7) {
        assert!(stage.is_wifi() && !stage.is_mdns() && !stage.is_terminal());
    }
    for stage in order.iter().skip(7).take(3) {
        assert!(stage.is_mdns() && !stage.is_wifi() && !stage.is_terminal());
    }
    assert!(Stage::Done.is_terminal() && Stage::Failed.is_terminal());
    assert!(!Stage::Idle.is_terminal() && !Stage::Idle.is_wifi() && !Stage::Idle.is_mdns());
}

#[test]
fn pending_action_follows_the_stage() {
    let config = config_with(b"home", b"secret");
    let name = init_name(&MAC);
    let mut network = Network::new(&config, &name);
    assert!(network.pending_action().is_none());
    let _: TestStep = network.start();
    assert!(matches!(network.pending_action(), Some(Action::StageDefaultConfiguration)));
    let told: TestStep = network.tell();
    assert!(matches!(told, Step::Perform(Action::StageDefaultConfiguration)));
}

#[test]
fn discovery_answer_kinds_are_distinct() {
    assert_ne!(Protocol::V4, Protocol::V6);
    assert_ne!(Interface::STA, Interface::AP);
    assert_ne!(Interface::AP, Interface::ETH);
}

#[test]
fn stored_credentials_decode_or_report_where_text_ends() {
    let name = init_name(&MAC);
    let cases: [(&[u8], Result<&str, usize>); 7] = [
        (b"plain", Ok("plain")),
        (b"", Ok("")),
        ("a\u{f1}b".as_bytes(), Ok("a\u{f1}b")),
        (b"ab\xffcd", Err(2)),
        (b"\x80", Err(0)),
        (b"ok\xe2\x82", Err(2)),
        (b"\xed\xa0\x80", Err(0)),
    ];
    for (stored, expected) in cases {
        let config = config_with(stored, stored);
        let network = Network::new(&config, &name);
        let expected = expected
            .map(String::from)
            .map_err(|valid_up_to| Utf8Error { valid_up_to });
        assert_eq!(network.get_ssid(), expected);
        assert_eq!(network.get_password(), expected);
    }
}
