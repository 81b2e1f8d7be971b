use sidecar_supervisor::probe::{HealthProber, ProbeDirective, ProbeStatus, PROBE_BACKOFF_MS};

#[test]
fn probe_with_no_listener_fails_after_exactly_n_attempts() {
    let n: u32 = 5;
    let mut p = HealthProber::new(4000, n);
    let mut attempts: u32 = 0;
    loop {
        attempts += 1;
        match p.record(false) {
            ProbeDirective::SleepThenRetry { backoff_ms } => {
                assert_eq!(backoff_ms, PROBE_BACKOFF_MS);
            }
            ProbeDirective::ReportTimeout { port, attempts: reported } => {
                assert_eq!(port, 4000);
                assert_eq!(reported, n);
                break;
            }
            ProbeDirective::ReportHealthy => unreachable!(),
        }
    }
    assert_eq!(attempts, n);
    assert_eq!(p.attempts_made, n);
    assert_eq!(p.status, ProbeStatus::Failed);
    // One backoff after every failed attempt except the last.
    assert!(p.slept_ms >= (n as u64 - 1) * PROBE_BACKOFF_MS);
    assert_eq!(p.slept_ms, (n as u64 - 1) * PROBE_BACKOFF_MS);
    assert!(!p.is_running());
}

#[test]
fn probe_succeeds_on_the_attempt_that_first_connects() {
    let n: u32 = 30;
    let k: u32 = 3;
    let mut p = HealthProber::new(9876, n);
    let mut attempt: u32 = 0;
    let directive = loop {
        attempt += 1;
        let connected = attempt == k;
        match p.record(connected) {
            ProbeDirective::SleepThenRetry { .. } => continue,
            other => break other,
        }
    };
    assert!(matches!(directive, ProbeDirective::ReportHealthy));
    assert_eq!(p.status, ProbeStatus::Succeeded { attempt: k });
    assert_eq!(p.attempts_made, k);
    assert_eq!(p.slept_ms, (k as u64 - 1) * PROBE_BACKOFF_MS);
}

#[test]
fn probe_succeeds_immediately_with_no_backoff() {
    let mut p = HealthProber::new(1234, 30);
    let d = p.record(true);
    assert!(matches!(d, ProbeDirective::ReportHealthy));
    assert_eq!(p.status, ProbeStatus::Succeeded { attempt: 1 });
    assert_eq!(p.slept_ms, 0);
}

#[test]
fn probe_with_single_attempt_budget_times_out_without_sleeping() {
    let mut p = HealthProber::new(4000, 1);
    let d = p.record(false);
    assert_eq!(
        d,
        ProbeDirective::ReportTimeout {
            port: 4000,
            attempts: 1
        }
    );
    assert_eq!(p.slept_ms, 0);
}

#[test]
fn probe_with_empty_budget_is_already_exhausted() {
    let p = HealthProber::new(4000, 0);
    assert!(!p.is_running());
    assert_eq!(p.status, ProbeStatus::Failed);
    assert_eq!(p.attempts_made, 0);
    assert_eq!(p.slept_ms, 0);
}

#[test]
fn probe_can_succeed_on_the_final_attempt() {
    let mut p = HealthProber::new(4000, 2);
    let d1 = p.record(false);
    assert_eq!(
        d1,
        ProbeDirective::SleepThenRetry {
            backoff_ms: PROBE_BACKOFF_MS
        }
    );
    let d2 = p.record(true);
    assert!(matches!(d2, ProbeDirective::ReportHealthy));
    assert_eq!(p.status, ProbeStatus::Succeeded { attempt: 2 });
}
