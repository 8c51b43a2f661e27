use ssctl::control::{Controller, LogLevel, ProxyState, RoutingMode};
use ssctl::translate::{error_code, StartError};
use ssctl::version;

const VALID_ONE: &str =
    "{\"server\":{\"server\":\"127.0.0.1:8388\",\"password\":\"p@ss\",\"method\":\"aes-256-gcm\"}}";
const VALID_TWO: &str =
    "{\"server\":{\"server\":\"10.0.0.9:1080\",\"password\":\"other\",\"method\":\"aes-128-gcm\"}}";

#[test]
fn version_text() {
    assert_eq!(version(), "1.22.0");
}

#[test]
fn fresh_controller_is_stopped_and_clean() {
    let c = Controller::new();
    assert_eq!(c.state_code(), 0);
    assert_eq!(c.current_state(), ProxyState::Stopped);
    assert_eq!(c.last_error_text(), "");
    assert_eq!(c.traffic(), (0, 0));
    assert_eq!(c.current_mode(), RoutingMode::Pac);
    assert_eq!(c.current_log_level(), LogLevel::Info);
}

#[test]
fn rejected_start_changes_nothing() {
    let mut c = Controller::new();
    let e = c.start("{oops").expect_err("malformed payload rejected");
    assert_eq!(e, StartError::MalformedPayload);
    assert!(error_code(e) < 0);
    assert_eq!(c.state_code(), 0);
    assert_eq!(c.last_error_text(), "");

    // Rejection while a run is live leaves that run live.
    let _ticket = c.start(VALID_ONE).expect("valid payload starts");
    assert_eq!(c.state_code(), 1);
    let e = c.start("{\"server\":{\"server\":\"bad\",\"password\":\"p\",\"method\":\"aes-256-gcm\"}}")
        .expect_err("bad address rejected");
    assert_eq!(e, StartError::InvalidAddress);
    assert_eq!(c.state_code(), 1);
}

#[test]
fn stop_without_run_is_a_quiet_no_op() {
    let mut c = Controller::new();
    c.stop();
    assert_eq!(c.state_code(), 0);
    assert_eq!(c.last_error_text(), "");
    c.stop();
    c.stop();
    assert_eq!(c.state_code(), 0);
}

#[test]
fn second_start_retires_the_first_run() {
    let mut c = Controller::new();
    let t1 = c.start(VALID_ONE).expect("first start accepted");
    assert!(t1.descriptor.is_some());
    assert_eq!(c.state_code(), 1);

    let t2 = c.start(VALID_TWO).expect("second start accepted");
    assert_eq!(c.state_code(), 1);

    // The first run's cancellation signal was fired by the second start.
    let mut rx1 = t1.cancel;
    assert!(matches!(rx1.try_recv(), Ok(())));
    // The second run has not been cancelled.
    let mut rx2 = t2.cancel;
    assert!(rx2.try_recv().is_err());

    // Stopping fires the second run's signal.
    c.stop();
    assert_eq!(c.state_code(), 0);
    assert!(matches!(rx2.try_recv(), Ok(())));
}

#[test]
fn start_after_stop_works_again() {
    let mut c = Controller::new();
    let _t1 = c.start(VALID_ONE).expect("first start accepted");
    c.stop();
    assert_eq!(c.state_code(), 0);
    let t2 = c.start(VALID_TWO).expect("restart accepted");
    assert_eq!(c.state_code(), 1);
    assert!(t2.descriptor.is_some());
}

#[test]
fn last_error_records_a_failing_run() {
    let mut c = Controller::new();
    assert_eq!(c.last_error_text(), "");
    let t = c.start(VALID_ONE).expect("start accepted");
    c.finish_run(t.run, Some("relay terminated: connection refused".to_string()));
    assert_eq!(c.state_code(), 0);
    assert_eq!(c.last_error_text(), "relay terminated: connection refused");

    // A clean termination leaves the slot as it was.
    let t = c.start(VALID_TWO).expect("start accepted");
    c.finish_run(t.run, None);
    assert_eq!(c.state_code(), 0);
    assert_eq!(c.last_error_text(), "relay terminated: connection refused");
}

#[test]
fn stale_run_termination_cannot_retire_a_newer_run() {
    let mut c = Controller::new();
    let t1 = c.start(VALID_ONE).expect("first start accepted");
    let t2 = c.start(VALID_TWO).expect("second start accepted");
    assert_ne!(t1.run, t2.run);
    // The first run ends (late) with a failure: its message is recorded,
    // but the second, live run stays live.
    c.finish_run(t1.run, Some("late failure of the first run".to_string()));
    assert_eq!(c.state_code(), 1);
    assert_eq!(c.last_error_text(), "late failure of the first run");
    // The live run's own termination does retire it.
    c.finish_run(t2.run, None);
    assert_eq!(c.state_code(), 0);
}

#[test]
fn record_error_overwrites_the_slot() {
    let mut c = Controller::new();
    c.record_error("first".to_string());
    assert_eq!(c.last_error_text(), "first");
    c.record_error("second".to_string());
    assert_eq!(c.last_error_text(), "second");
    assert_eq!(c.state_code(), 0);
}

#[test]
fn traffic_counters_accumulate_and_saturate() {
    let mut c = Controller::new();
    c.add_traffic(5, 7);
    assert_eq!(c.traffic(), (5, 7));
    c.add_traffic(10, 0);
    assert_eq!(c.traffic(), (15, 7));
    c.add_traffic(u64::MAX, 1);
    assert_eq!(c.traffic(), (u64::MAX, 8));
    // Counters survive a stop.
    c.stop();
    assert_eq!(c.traffic(), (u64::MAX, 8));
}

#[test]
fn out_of_range_log_level_selects_informational() {
    let mut c = Controller::new();
    c.set_log_level(99);
    assert_eq!(c.current_log_level(), LogLevel::Info);
    c.set_log_level(-1);
    assert_eq!(c.current_log_level(), LogLevel::Info);
    c.set_log_level(0);
    assert_eq!(c.current_log_level(), LogLevel::Error);
    c.set_log_level(1);
    assert_eq!(c.current_log_level(), LogLevel::Warn);
    c.set_log_level(3);
    assert_eq!(c.current_log_level(), LogLevel::Debug);
    c.set_log_level(4);
    assert_eq!(c.current_log_level(), LogLevel::Trace);
}

#[test]
fn routing_mode_is_stored() {
    let mut c = Controller::new();
    c.set_mode(1);
    assert_eq!(c.current_mode(), RoutingMode::Global);
    c.set_mode(0);
    assert_eq!(c.current_mode(), RoutingMode::Pac);
    c.set_mode(7);
    assert_eq!(c.current_mode(), RoutingMode::Global);
}

#[test]
fn pac_rules_are_accepted() {
    let c = Controller::new();
    assert_eq!(c.update_pac("function FindProxyForURL(url, host) { return 'DIRECT'; }"), 0);
    assert_eq!(c.update_pac(""), 0);
}
