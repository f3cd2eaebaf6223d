use sidecar_supervisor::health::{
    poll_deadline_exceeded, probe_ready, DEFAULT_POLL_INTERVAL_MS, DEFAULT_POLL_TIMEOUT_MS,
    PROBE_CONNECT_TIMEOUT_MS, PROBE_REQUEST_TIMEOUT_MS,
};

#[test]
fn test_defaults() {
    assert_eq!(DEFAULT_POLL_INTERVAL_MS, 250);
    assert_eq!(DEFAULT_POLL_TIMEOUT_MS, 15000);
    assert_eq!(PROBE_CONNECT_TIMEOUT_MS, 2000);
    assert_eq!(PROBE_REQUEST_TIMEOUT_MS, 3000);
    assert!(PROBE_REQUEST_TIMEOUT_MS < DEFAULT_POLL_TIMEOUT_MS);
}

#[test]
fn test_poll_deadline_exceeded() {
    assert_eq!(poll_deadline_exceeded(0, 15000), None);
    assert_eq!(poll_deadline_exceeded(14999, 15000), None);
    assert_eq!(poll_deadline_exceeded(15000, 15000), None);
    assert_eq!(
        poll_deadline_exceeded(15001, 15000),
        Some("Backend health check timed out after 15000ms".to_string())
    );
}

#[test]
fn test_probe_ready() {
    assert!(probe_ready(Some(200)));
    assert!(probe_ready(Some(204)));
    assert!(probe_ready(Some(299)));
    assert!(!probe_ready(Some(199)));
    assert!(!probe_ready(Some(300)));
    assert!(!probe_ready(Some(404)));
    assert!(!probe_ready(Some(500)));
    assert!(!probe_ready(None));
}

/// Drives the poll decisions against a simulated clock and an endpoint that
/// starts answering 200 after one second: the wait ends in success within
/// one interval past readiness.
#[test]
fn test_poll_run_succeeds_soon_after_readiness() {
    let interval = DEFAULT_POLL_INTERVAL_MS;
    let timeout = DEFAULT_POLL_TIMEOUT_MS;
    let ready_at: u64 = 1000;
    let mut elapsed: u64 = 0;
    let mut probes: u32 = 0;
    let outcome: Result<u64, String> = loop {
        if let Some(msg) = poll_deadline_exceeded(elapsed, timeout) {
            break Err(msg);
        }
        probes += 1;
        let status = if elapsed >= ready_at { Some(200) } else { None };
        if probe_ready(status) {
            break Ok(elapsed);
        }
        elapsed += interval;
    };
    let t = outcome.expect("the endpoint became ready");
    assert!(t >= ready_at);
    assert!(t < ready_at + interval, "success took more than one interval");
    assert_eq!(probes, 5);
}

/// Against an endpoint that never answers, the wait fails with the timeout
/// error, and only after the whole budget was spent.
#[test]
fn test_poll_run_times_out_after_budget() {
    let interval = DEFAULT_POLL_INTERVAL_MS;
    let timeout = DEFAULT_POLL_TIMEOUT_MS;
    let mut elapsed: u64 = 0;
    let outcome: Result<(), String> = loop {
        if let Some(msg) = poll_deadline_exceeded(elapsed, timeout) {
            break Err(msg);
        }
        if probe_ready(None) {
            break Ok(());
        }
        elapsed += interval;
    };
    let msg = outcome.expect_err("the endpoint never answered");
    assert_eq!(msg, "Backend health check timed out after 15000ms");
    assert!(elapsed > timeout);
    assert!(elapsed <= timeout + interval);
}
