use turbod::command::{
    capabilities, nanos_to_millis, resolve_idle_timeout, should_force_kill, DaemonCommand,
    DaemonError, DEFAULT_IDLE_TIMEOUT_NANOS,
};

#[test]
fn status_invocation_may_neither_start_nor_kill() {
    assert_eq!(capabilities(&DaemonCommand::Status { json: false }), (false, false));
    assert_eq!(capabilities(&DaemonCommand::Status { json: true }), (false, false));
}

#[test]
fn stop_and_restart_may_kill_but_not_start() {
    assert_eq!(capabilities(&DaemonCommand::Stop), (false, true));
    assert_eq!(capabilities(&DaemonCommand::Restart), (false, true));
}

#[test]
fn start_may_start_and_kill() {
    assert_eq!(capabilities(&DaemonCommand::Start), (true, true));
}

#[test]
fn idle_timeout_defaults_to_four_hours() {
    assert_eq!(DEFAULT_IDLE_TIMEOUT_NANOS, 4 * 60 * 60 * 1_000_000_000);
    assert!(matches!(resolve_idle_timeout(&None), Ok(n) if n == DEFAULT_IDLE_TIMEOUT_NANOS));
}

#[test]
fn idle_timeout_parses_duration_strings() {
    assert!(matches!(resolve_idle_timeout(&Some("1h".to_string())), Ok(3_600_000_000_000)));
    assert!(matches!(resolve_idle_timeout(&Some("300ms".to_string())), Ok(300_000_000)));
    assert!(matches!(resolve_idle_timeout(&Some("2h45m".to_string())), Ok(9_900_000_000_000)));
}

#[test]
fn idle_timeout_rejects_a_bad_string_with_the_raw_input() {
    let r = resolve_idle_timeout(&Some("banana".to_string()));
    assert!(matches!(r, Err(DaemonError::InvalidTimeout(raw)) if raw == "banana"));
}

#[test]
fn idle_timeout_parses_a_many_unit_string() {
    let r = resolve_idle_timeout(&Some("1h1m1s1ms1us1ns".to_string()));
    assert!(matches!(r, Ok(3_661_001_001_001)));
}

#[test]
fn non_ascii_idle_duration_is_rejected_not_scanned() {
    // The scanner indexes characters by byte positions, so a multi-byte
    // character is never handed to it; the string is invalid here even
    // though the micro-symbol unit is nominally recognized.
    let r = resolve_idle_timeout(&Some("100\u{b5}s".to_string()));
    assert!(matches!(r, Err(DaemonError::InvalidTimeout(raw)) if raw == "100\u{b5}s"));
}

#[test]
fn overlong_idle_duration_is_rejected_not_scanned() {
    // Twenty characters or more can reach the scanner's non-terminating
    // fraction path; such strings are rejected as invalid up front.
    let raw_input = "0.9999999999999999999s".to_string();
    let r = resolve_idle_timeout(&Some(raw_input.clone()));
    assert!(matches!(r, Err(DaemonError::InvalidTimeout(raw)) if raw == raw_input));
}

#[test]
fn idle_duration_at_the_length_bound_is_still_scanned() {
    // Nineteen characters pass the length gate and reach the scanner.
    let r = resolve_idle_timeout(&Some("4275h59m14s700ms50s".to_string()));
    assert!(matches!(r, Ok(15_393_604_700_000_000)));
}

#[test]
fn negative_idle_duration_is_taken_as_cast() {
    // "-1s" parses to -1_000_000_000 nanoseconds, stored as-cast into
    // the unsigned budget.
    let r = resolve_idle_timeout(&Some("-1s".to_string()));
    assert!(matches!(r, Ok(n) if n == (-1_000_000_000i64) as u64));
}

#[test]
fn nanos_convert_to_whole_millis() {
    assert_eq!(nanos_to_millis(1_500_000_000), 1_500);
    assert_eq!(nanos_to_millis(999_999), 0);
    assert_eq!(nanos_to_millis(DEFAULT_IDLE_TIMEOUT_NANOS), 14_400_000);
}

#[test]
fn force_kill_only_with_capability_and_a_survivor() {
    assert!(should_force_kill(true, false));
    assert!(!should_force_kill(true, true));
    assert!(!should_force_kill(false, false));
    assert!(!should_force_kill(false, true));
}
