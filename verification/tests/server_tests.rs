use turbod::command::DaemonError;
use turbod::server::{check_bind, DaemonRequest, DaemonResponse, DaemonServer};

fn fresh(idle_ms: u64) -> DaemonServer {
    DaemonServer::new(
        idle_ms,
        "/data/logs/repo-turbo.log".to_string(),
        "/repo/.turbo/turbod.pid".to_string(),
        "/repo/.turbo/turbod.sock".to_string(),
    )
}

#[test]
fn a_fresh_server_has_its_full_budget_and_no_shutdown() {
    let s = fresh(1000);
    assert_eq!(s.idle_ms, 1000);
    assert_eq!(s.timeout.deadline(), 1000);
    assert!(!s.shutdown_requested);
}

#[test]
fn status_reports_the_internal_record_and_keeps_the_server_up() {
    let mut s = fresh(1000);
    let r = s.dispatch(&DaemonRequest::Status { json: true }, 250);
    match r {
        DaemonResponse::Status(record) => {
            assert_eq!(record.uptime_ms, 250);
            assert_eq!(record.log_file, "/data/logs/repo-turbo.log");
            assert_eq!(record.pid_file, "/repo/.turbo/turbod.pid");
            assert_eq!(record.sock_file, "/repo/.turbo/turbod.sock");
        }
        DaemonResponse::Ack => panic!("status must answer with the record"),
    }
    assert!(!s.shutdown_requested);
    assert_eq!(s.timeout.deadline(), 1250);
}

#[test]
fn stop_acknowledges_and_raises_shutdown() {
    let mut s = fresh(1000);
    let r = s.dispatch(&DaemonRequest::Stop, 10);
    assert!(matches!(r, DaemonResponse::Ack));
    assert!(s.shutdown_requested);
}

#[test]
fn restart_acknowledges_and_raises_shutdown() {
    let mut s = fresh(1000);
    let r = s.dispatch(&DaemonRequest::Restart, 10);
    assert!(matches!(r, DaemonResponse::Ack));
    assert!(s.shutdown_requested);
}

#[test]
fn start_acknowledges_and_keeps_the_server_up() {
    let mut s = fresh(1000);
    let r = s.dispatch(&DaemonRequest::Start, 10);
    assert!(matches!(r, DaemonResponse::Ack));
    assert!(!s.shutdown_requested);
}

#[test]
fn with_no_activity_idle_expires_exactly_one_budget_after_the_last_request() {
    let mut s = fresh(1000);
    s.dispatch(&DaemonRequest::Start, 500);
    assert!(!s.idle_expired(1499));
    assert!(s.idle_expired(1500));
    assert!(s.idle_expired(2000));
}

#[test]
fn activity_at_half_the_budget_never_lets_idle_expire() {
    let mut s = fresh(1000);
    let mut now: u64 = 0;
    for _ in 0..20 {
        now += 500;
        s.dispatch(&DaemonRequest::Status { json: false }, now);
        assert!(!s.idle_expired(now + 499));
    }
}

#[test]
fn binding_fails_fatally_when_the_lock_is_held() {
    assert!(matches!(check_bind(false, false), Err(DaemonError::AlreadyRunning)));
    assert!(matches!(check_bind(false, true), Err(DaemonError::AlreadyRunning)));
}

#[test]
fn binding_fails_fatally_when_the_listener_does_not_bind() {
    assert!(matches!(check_bind(true, false), Err(DaemonError::Io)));
}

#[test]
fn binding_succeeds_with_lock_and_listener() {
    assert!(check_bind(true, true).is_ok());
}

#[test]
fn triggering_shutdown_only_raises_the_flag() {
    let mut s = fresh(1000);
    s.trigger_shutdown();
    assert!(s.shutdown_requested);
    assert_eq!(s.timeout.deadline(), 1000);
    assert_eq!(s.idle_ms, 1000);
}
