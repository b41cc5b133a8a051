use arm_service::app_state::{
    robot_address, watchdog_step, CommandError, RobotServer, SharedState, StartPlan,
    WatchdogStep, DISCONNECT_DELAY_MS, OBSERVER_CHECK_INTERVAL_MS, ROBOT_PORT,
};
use arm_service::structs::{Hertz, JointOrDirection, Mode, ObserveParams, ObserveType, Unit};

fn custom_params() -> ObserveParams {
    ObserveParams {
        mode: Mode::Analysis,
        observe_type: ObserveType::AnalysisTcpVelocities,
        joint_dir: JointOrDirection::JD3,
        unit: Unit::Radian,
        hz: Hertz::Hz5,
        timeout: 1234,
        csv: true,
    }
}

fn snapshot(s: &RobotServer) -> (String, bool, bool, ObserveParams, bool) {
    (s.ip.clone(), s.observer_running, s.connected, s.observe_params, s.stop_flag)
}

#[test]
fn test_constants() {
    assert_eq!(ROBOT_PORT, 30000);
    assert_eq!(DISCONNECT_DELAY_MS, 100);
    assert_eq!(OBSERVER_CHECK_INTERVAL_MS, 200);
}

#[test]
fn test_robot_address() {
    assert_eq!(robot_address("192.168.1.68"), "192.168.1.68:30000");
    assert_eq!(robot_address(""), ":30000");
    assert_eq!(robot_address("robot.local"), format!("robot.local:{}", ROBOT_PORT));
}

#[test]
fn test_shared_state_default() {
    let s = SharedState::default();
    assert_eq!(s, SharedState { axis: 0, ft_sensor: false, arm_conn: false, observering: false });
}

#[test]
fn test_new_server_is_idle() {
    let s = RobotServer::new();
    assert_eq!(s.ip, "");
    assert!(!s.is_connected());
    assert!(!s.is_observing());
    assert!(!s.stop_flag);
    assert_eq!(s.observe_params, ObserveParams::default());
}

#[test]
fn test_connect_once() {
    let mut s = RobotServer::new();
    s.stop_flag = true;
    assert_eq!(s.connect(String::from("10.0.0.1")), Ok(()));
    assert!(s.is_connected());
    assert!(!s.stop_flag);
    assert_eq!(s.ip, "10.0.0.1");
    let before = snapshot(&s);
    assert_eq!(s.connect(String::from("10.0.0.2")), Err(CommandError::AlreadyConnected));
    assert_eq!(snapshot(&s), before);
}

#[test]
fn test_start_is_guarded() {
    let mut s = RobotServer::new();
    let before = snapshot(&s);
    assert_eq!(s.start_observing(custom_params()), Err(CommandError::NotConnected));
    assert_eq!(snapshot(&s), before);

    s.connect(String::from("10.0.0.1")).unwrap();
    assert_eq!(
        s.start_observing(custom_params()),
        Ok(StartPlan { rotate_csv: true, watchdog_ms: 1234 })
    );
    assert!(s.is_observing());
    assert_eq!(s.observe_params, custom_params());

    let before = snapshot(&s);
    assert_eq!(
        s.start_observing(ObserveParams::default()),
        Err(CommandError::AlreadyObserving)
    );
    assert_eq!(snapshot(&s), before);
    assert_eq!(s.observe_params, custom_params());
}

#[test]
fn test_start_plan_follows_the_parameters() {
    let mut s = RobotServer::new();
    s.connect(String::from("h")).unwrap();
    assert_eq!(
        s.start_observing(ObserveParams::default()),
        Ok(StartPlan { rotate_csv: false, watchdog_ms: 5000 })
    );
}

#[test]
fn test_stop_is_guarded() {
    let mut s = RobotServer::new();
    let before = snapshot(&s);
    assert_eq!(s.stop_observing(), Err(CommandError::NotConnected));
    assert_eq!(snapshot(&s), before);

    s.connect(String::from("10.0.0.1")).unwrap();
    let before = snapshot(&s);
    assert_eq!(s.stop_observing(), Err(CommandError::NotObserving));
    assert_eq!(snapshot(&s), before);

    s.start_observing(custom_params()).unwrap();
    assert_eq!(s.stop_observing(), Ok(()));
    assert!(!s.is_observing());
    assert!(s.is_connected());
    assert_eq!(s.observe_params, custom_params());
    assert_eq!(s.stop_observing(), Err(CommandError::NotObserving));
}

#[test]
fn test_restart_after_stop() {
    let mut s = RobotServer::new();
    s.connect(String::from("10.0.0.1")).unwrap();
    s.start_observing(custom_params()).unwrap();
    s.stop_observing().unwrap();
    assert!(s.start_observing(ObserveParams::default()).is_ok());
    assert_eq!(s.observe_params, ObserveParams::default());
    s.expire_observing();
    assert!(!s.is_observing());
    s.expire_observing();
    assert!(!s.is_observing());
    assert!(s.is_connected());
}

#[test]
fn test_disconnect() {
    let mut s = RobotServer::new();
    let before = snapshot(&s);
    assert_eq!(s.begin_disconnect(), Err(CommandError::NotConnected));
    assert_eq!(snapshot(&s), before);

    s.connect(String::from("10.0.0.1")).unwrap();
    s.start_observing(custom_params()).unwrap();
    assert_eq!(s.begin_disconnect(), Ok(()));
    assert!(s.stop_flag);
    assert!(!s.is_observing());
    assert!(s.is_connected());
    s.finish_disconnect();
    assert!(!s.is_connected());
    assert!(!s.is_observing());
    assert_eq!(s.begin_disconnect(), Err(CommandError::NotConnected));

    assert_eq!(s.connect(String::from("10.0.0.9")), Ok(()));
    assert!(!s.stop_flag);
    assert_eq!(s.ip, "10.0.0.9");
}

#[test]
fn test_watchdog_steps() {
    assert_eq!(watchdog_step(5000, true), WatchdogStep::Sleep { millis: 200, remaining: 4800 });
    assert_eq!(watchdog_step(200, true), WatchdogStep::Sleep { millis: 200, remaining: 0 });
    assert_eq!(watchdog_step(1, true), WatchdogStep::Sleep { millis: 200, remaining: 0 });
    assert_eq!(watchdog_step(0, true), WatchdogStep::Expire);
    assert_eq!(watchdog_step(5000, false), WatchdogStep::Expire);
    assert_eq!(watchdog_step(0, false), WatchdogStep::Expire);
    assert_eq!(
        watchdog_step(u64::MAX, true),
        WatchdogStep::Sleep { millis: 200, remaining: u64::MAX - 200 }
    );
}

#[test]
fn test_watchdog_runs_out() {
    let mut remaining = 5000;
    let mut sleeps = 0;
    while let WatchdogStep::Sleep { millis, remaining: next } = watchdog_step(remaining, true) {
        assert_eq!(millis, 200);
        remaining = next;
        sleeps += 1;
    }
    assert_eq!(sleeps, 25);
}

#[test]
fn test_messages() {
    assert_eq!(CommandError::AlreadyConnected.message(), "Server is already running");
    assert_eq!(CommandError::NotConnected.message(), "Server is not running");
    assert_eq!(CommandError::AlreadyObserving.message(), "Assistant is already running");
    assert_eq!(CommandError::NotObserving.message(), "Assistant is not running");
    assert_eq!(CommandError::NoCsvExporter.message(), "CSV exporter not initialized");
}

#[test]
fn test_save_csv_is_guarded() {
    let mut s = RobotServer::new();
    assert_eq!(s.save_csv(true), Err(CommandError::NotConnected));
    assert_eq!(s.save_csv(false), Err(CommandError::NotConnected));
    s.connect(String::from("10.0.0.1")).unwrap();
    assert_eq!(s.save_csv(false), Err(CommandError::NoCsvExporter));
    assert_eq!(s.save_csv(true), Ok(()));
}

#[test]
fn test_shared_state_transitions() {
    let s = SharedState::on_connected(6, true);
    assert_eq!(s, SharedState { axis: 6, ft_sensor: true, arm_conn: true, observering: false });
    let s = s.with_observing(true);
    assert_eq!(s, SharedState { axis: 6, ft_sensor: true, arm_conn: true, observering: true });
    let s = s.with_observing(false);
    assert_eq!(s, SharedState { axis: 6, ft_sensor: true, arm_conn: true, observering: false });
}

#[test]
fn test_nobody_observes_a_robot_that_is_not_connected() {
    let mut s = RobotServer::new();
    let mut check = |s: &RobotServer| assert!(!s.is_observing() || s.is_connected());
    check(&s);
    let _ = s.start_observing(ObserveParams::default());
    check(&s);
    let _ = s.connect(String::from("a"));
    check(&s);
    let _ = s.start_observing(ObserveParams::default());
    check(&s);
    let _ = s.begin_disconnect();
    check(&s);
    s.finish_disconnect();
    check(&s);
    let _ = s.stop_observing();
    check(&s);
    s.expire_observing();
    check(&s);
}
