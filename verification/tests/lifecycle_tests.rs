use cider_rpc::lifecycle::Lifecycle;
use cider_rpc::lifecycle::StartAction;
use cider_rpc::lifecycle::StopAction;
use cider_rpc::lifecycle::DEFAULT_PORT;

#[test]
fn a_fresh_lifecycle_is_stopped() {
    let lc = Lifecycle::new();
    assert!(!lc.status());
}

#[test]
fn start_uses_the_default_port_when_none_is_given() {
    let lc = Lifecycle::new();
    match lc.request_start(None) {
        StartAction::Bind { port } => assert_eq!(port, DEFAULT_PORT),
        StartAction::AlreadyRunning => panic!("a stopped server must bind"),
    }
    assert_eq!(DEFAULT_PORT, 10769);
}

#[test]
fn start_uses_the_given_port() {
    let lc = Lifecycle::new();
    match lc.request_start(Some(8080)) {
        StartAction::Bind { port } => assert_eq!(port, 8080),
        StartAction::AlreadyRunning => panic!("a stopped server must bind"),
    }
}

#[test]
fn starting_twice_runs_exactly_one_listener() {
    let mut lc = Lifecycle::new();
    let first = lc.request_start(Some(8080));
    assert!(matches!(first, StartAction::Bind { port: 8080 }));
    lc.confirm_start(8080);
    assert!(lc.status());
    let second = lc.request_start(Some(8080));
    assert!(matches!(second, StartAction::AlreadyRunning));
    assert!(lc.status());
    let third = lc.request_start(None);
    assert!(matches!(third, StartAction::AlreadyRunning));
}

#[test]
fn a_failed_bind_leaves_the_server_stopped() {
    let lc = Lifecycle::new();
    let action = lc.request_start(Some(1));
    assert!(matches!(action, StartAction::Bind { port: 1 }));
    assert!(!lc.status());
}

#[test]
fn stop_signals_a_running_server() {
    let mut lc = Lifecycle::new();
    lc.confirm_start(9000);
    assert!(lc.status());
    let action = lc.stop();
    assert!(matches!(action, StopAction::SignalStop));
    assert!(!lc.status());
}

#[test]
fn stopping_twice_is_a_no_op() {
    let mut lc = Lifecycle::new();
    lc.confirm_start(9000);
    assert!(matches!(lc.stop(), StopAction::SignalStop));
    assert!(matches!(lc.stop(), StopAction::NoOp));
    assert!(!lc.status());
}

#[test]
fn stopping_a_fresh_lifecycle_is_a_no_op() {
    let mut lc = Lifecycle::new();
    assert!(matches!(lc.stop(), StopAction::NoOp));
    assert!(!lc.status());
}
