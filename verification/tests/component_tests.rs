//! Component-level behavior: the port scan, the retry schedule, the
//! readiness monitor, the registry, text handling and the status-line
//! parser.

use shiny_supervisor::http::{is_success_status, parse_status_code, probe_response_ok};
use shiny_supervisor::monitor::{MonitorState, ReadinessOutcome};
use shiny_supervisor::ports::scan_outcome;
use shiny_supervisor::registry::{ProcessHandle, ProcessRegistry, StopError};
use shiny_supervisor::retry::RetryState;
use shiny_supervisor::text::{bind_addr, contains_str, host_of, service_url, u64_to_string};

#[test]
fn first_bindable_port_is_returned() {
    // Ports 3000 and 3001 taken, 3002 free (3003 free too, but later).
    let free = vec![false, false, true, true];
    assert_eq!(scan_outcome(3000, &free), Some(3002));
}

#[test]
fn first_port_free_is_returned_at_once() {
    let free = vec![true, false];
    assert_eq!(scan_outcome(3000, &free), Some(3000));
}

#[test]
fn exhausted_range_returns_none() {
    let free = vec![false, false, false];
    assert_eq!(scan_outcome(3000, &free), None);
    assert_eq!(scan_outcome(4000, &Vec::new()), None);
}

#[test]
fn backoff_doubles_and_stops_at_ceiling() {
    // Three attempts: delays 1000, 2000, 4000, terminal on the third.
    let mut retry = RetryState::new(3, 1000);
    let d1 = retry.record_failure();
    assert_eq!(d1.backoff_ms, 1000);
    assert!(!d1.give_up);
    let d2 = retry.record_failure();
    assert_eq!(d2.backoff_ms, 2000);
    assert!(!d2.give_up);
    let d3 = retry.record_failure();
    assert_eq!(d3.backoff_ms, 4000);
    assert!(d3.give_up);
}

#[test]
fn signal_wins_immediately_even_if_probe_fails() {
    let mut m = MonitorState::new(40_000, 500);
    assert_eq!(m.step(true, false), Some(ReadinessOutcome::Ready));
    assert_eq!(m.waited_ms, 0);
}

#[test]
fn signal_wins_after_some_waiting() {
    let mut m = MonitorState::new(40_000, 500);
    assert_eq!(m.step(false, false), None);
    assert_eq!(m.waited_ms, 500);
    assert_eq!(m.step(true, false), Some(ReadinessOutcome::Ready));
}

#[test]
fn probe_success_within_budget_is_ready() {
    let mut m = MonitorState::new(40_000, 500);
    assert_eq!(m.step(false, true), Some(ReadinessOutcome::Ready));
}

#[test]
fn timeout_within_budget_plus_one_interval() {
    // Budget 1000 ms, poll 500 ms: two fruitless rounds spend the budget,
    // the third times out without sleeping again.
    let mut m = MonitorState::new(1000, 500);
    assert_eq!(m.step(false, false), None);
    assert_eq!(m.step(false, false), None);
    assert_eq!(m.waited_ms, 1000);
    assert_eq!(m.step(false, false), Some(ReadinessOutcome::TimedOut));
    assert_eq!(m.waited_ms, 1000);
    assert!(m.waited_ms <= 1000 + 500);
}

#[test]
fn stop_with_nothing_registered_is_an_error() {
    let mut reg = ProcessRegistry::new();
    assert_eq!(reg.take_for_stop(), Err(StopError::NoProcessRunning));
}

#[test]
fn stop_twice_second_reports_no_process() {
    let mut reg = ProcessRegistry::new();
    let prev = reg.register(ProcessHandle { pid: 42 });
    assert_eq!(prev, None);
    assert_eq!(reg.take_for_stop(), Ok(ProcessHandle { pid: 42 }));
    assert_eq!(reg.take_for_stop(), Err(StopError::NoProcessRunning));
}

#[test]
fn register_hands_back_prior_handle() {
    let mut reg = ProcessRegistry::new();
    assert_eq!(reg.register(ProcessHandle { pid: 1 }), None);
    assert_eq!(reg.register(ProcessHandle { pid: 2 }), Some(ProcessHandle { pid: 1 }));
    assert_eq!(reg.take_for_stop(), Ok(ProcessHandle { pid: 2 }));
}

#[test]
fn substring_containment() {
    assert!(contains_str("SHINY Listening on http://0.0.0.0:3000", "Listening on"));
    assert!(!contains_str("listening on", "Listening on"));
    assert!(contains_str("abc", ""));
    assert!(!contains_str("ab", "abc"));
}

#[test]
fn decimal_rendering() {
    assert_eq!(u64_to_string(0), "0");
    assert_eq!(u64_to_string(7), "7");
    assert_eq!(u64_to_string(3000), "3000");
    assert_eq!(u64_to_string(65535), "65535");
}

#[test]
fn url_and_addr_building() {
    assert_eq!(service_url(3000), "http://127.0.0.1:3000");
    assert_eq!(service_url(8080), "http://127.0.0.1:8080");
    assert_eq!(bind_addr("127.0.0.1", 3000), "127.0.0.1:3000");
}

#[test]
fn host_stripping() {
    assert_eq!(host_of("http://127.0.0.1"), "127.0.0.1");
    assert_eq!(host_of("localhost"), "localhost");
    assert_eq!(host_of("http://"), "");
}

#[test]
fn status_line_parsing() {
    assert_eq!(parse_status_code(&b"HTTP/1.1 200 OK".to_vec()), Some(200));
    assert_eq!(parse_status_code(&b"HTTP/2 404 Not Found".to_vec()), Some(404));
    assert_eq!(parse_status_code(&b"nothing here".to_vec()), None);
    assert_eq!(parse_status_code(&b"HTTP/1.1 20".to_vec()), None);
    assert_eq!(parse_status_code(&b"nospace".to_vec()), None);
}

#[test]
fn probe_judges_success_statuses_only() {
    assert!(probe_response_ok(&b"HTTP/1.1 200 OK".to_vec()));
    assert!(probe_response_ok(&b"HTTP/1.1 204 No Content".to_vec()));
    assert!(!probe_response_ok(&b"HTTP/1.1 404 Not Found".to_vec()));
    assert!(!probe_response_ok(&b"HTTP/1.1 500 Oops".to_vec()));
    assert!(!probe_response_ok(&b"garbled".to_vec()));
    assert!(is_success_status(299));
    assert!(!is_success_status(300));
    assert!(!is_success_status(199));
}
