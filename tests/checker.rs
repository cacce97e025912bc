use health_monitor::checker::{CheckerPhase, HttpHealthCheckActor};
use health_monitor::status::{CheckStatus, ProbeOutcome, ServiceType};

fn checker(interval: u64) -> HttpHealthCheckActor {
    HttpHealthCheckActor::new(
        "api".to_string(),
        "http://api.local/health".to_string(),
        interval,
        1,
        None,
        vec!["Accept: */*".to_string()],
    )
}

#[test]
fn ticks_once_per_interval() {
    let mut c = checker(30);
    let mut starts = Vec::new();
    let mut now = 0u64;
    while now <= 120_000 {
        if c.tick(now) {
            starts.push(now);
            c.finish(ProbeOutcome::Response { code: 200 }, 5, 0, now + 5).unwrap();
        }
        now += 500;
    }
    assert_eq!(starts, vec![0, 30_000, 60_000, 90_000, 120_000]);
}

#[test]
fn slow_probe_never_overlaps_and_delays_next_tick() {
    let mut c = checker(30);
    assert!(c.tick(0));
    assert_eq!(c.phase, CheckerPhase::Checking);
    assert!(!c.tick(30_000));
    assert!(!c.tick(45_000));
    assert_eq!(c.next_wake(), None);
    let ev = c.finish(ProbeOutcome::TimedOut, 50_000, 7, 50_000).unwrap();
    assert_eq!(ev.latest_status.status, CheckStatus::Unhealthy);
    assert_eq!(c.next_due_ms, 50_000);
    assert!(c.tick(50_000));
    c.finish(ProbeOutcome::Response { code: 200 }, 10, 8, 50_010).unwrap();
    assert_eq!(c.next_due_ms, 80_000);
    assert!(!c.tick(79_999));
    assert!(c.tick(80_000));
}

#[test]
fn finish_builds_the_event() {
    let mut c = checker(30);
    assert!(c.tick(0));
    let ev = c.finish(ProbeOutcome::Response { code: 503 }, 17, 1_700_000_000_123, 17).unwrap();
    assert_eq!(ev.name, "api");
    assert_eq!(ev.url, "http://api.local/health");
    assert_eq!(ev.service_type, ServiceType::Http);
    assert_eq!(ev.interval_seconds, 30);
    assert_eq!(ev.latest_status.status, CheckStatus::Unhealthy);
    assert_eq!(ev.latest_status.status_message, "Service Unavailable");
    assert_eq!(ev.latest_status.response_time, 17);
    assert_eq!(ev.latest_status.timestamp, 1_700_000_000_123);
    assert_eq!(c.phase, CheckerPhase::Idle);
    assert_eq!(c.next_wake(), Some(30_000));
}

#[test]
fn finish_without_probe_in_flight_does_nothing() {
    let mut c = checker(30);
    assert!(c.finish(ProbeOutcome::TimedOut, 1, 1, 1).is_none());
    assert_eq!(c.phase, CheckerPhase::Idle);
    assert_eq!(c.next_due_ms, 0);
}

#[test]
fn stop_while_idle_ends_ticking() {
    let mut c = checker(30);
    c.stop();
    assert!(c.is_stopped());
    assert!(!c.tick(0));
    assert_eq!(c.next_wake(), None);
}

#[test]
fn stop_while_checking_lets_probe_finish() {
    let mut c = checker(30);
    assert!(c.tick(0));
    c.stop();
    assert!(!c.is_stopped());
    let ev = c.finish(ProbeOutcome::Response { code: 200 }, 3, 0, 3);
    assert!(ev.is_some());
    assert!(c.is_stopped());
    assert!(!c.tick(1_000_000));
}

#[test]
fn huge_interval_saturates() {
    let mut c = checker(u64::MAX);
    assert!(c.tick(0));
    c.finish(ProbeOutcome::Response { code: 200 }, 1, 0, 1).unwrap();
    assert_eq!(c.next_due_ms, u64::MAX);
}
