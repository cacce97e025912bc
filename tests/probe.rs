use health_monitor::status::{judge, judge_with_reason, CheckStatus, ProbeOutcome, ServiceType};

#[test]
fn ok_response_is_healthy_with_reason_phrase() {
    let r = judge(ProbeOutcome::Response { code: 200 }, None, 5, 12, 1_700_000_000_000);
    assert_eq!(r.status, CheckStatus::Healthy);
    assert_eq!(r.status_message, "OK");
    assert_eq!(r.response_time, 12);
    assert!(r.response_time > 0);
    assert_eq!(r.timestamp, 1_700_000_000_000);
}

#[test]
fn no_content_response_is_healthy() {
    let r = judge(ProbeOutcome::Response { code: 204 }, None, 5, 3, 0);
    assert_eq!(r.status, CheckStatus::Healthy);
    assert_eq!(r.status_message, "No Content");
}

#[test]
fn service_unavailable_is_unhealthy() {
    let r = judge(ProbeOutcome::Response { code: 503 }, None, 5, 40, 9);
    assert_eq!(r.status, CheckStatus::Unhealthy);
    assert_eq!(r.status_message, "Service Unavailable");
    assert_eq!(r.response_time, 40);
}

#[test]
fn not_found_is_unhealthy() {
    let r = judge(ProbeOutcome::Response { code: 404 }, None, 5, 1, 0);
    assert_eq!(r.status, CheckStatus::Unhealthy);
    assert_eq!(r.status_message, "Not Found");
}

#[test]
fn unexpected_response_code_is_unhealthy() {
    let r = judge(ProbeOutcome::Response { code: 200 }, Some(204), 5, 1, 0);
    assert_eq!(r.status, CheckStatus::Unhealthy);
    assert_eq!(r.status_message, "OK");
    let r = judge(ProbeOutcome::Response { code: 204 }, Some(204), 5, 1, 0);
    assert_eq!(r.status, CheckStatus::Healthy);
}

#[test]
fn unregistered_code_uses_generic_message() {
    let r = judge(ProbeOutcome::Response { code: 299 }, None, 5, 1, 0);
    assert_eq!(r.status, CheckStatus::Healthy);
    assert_eq!(r.status_message, "OK");
    let r = judge(ProbeOutcome::Response { code: 599 }, None, 5, 1, 0);
    assert_eq!(r.status, CheckStatus::Unhealthy);
    assert_eq!(r.status_message, "Unexpected status");
}

#[test]
fn timeout_is_unhealthy_and_says_so() {
    let r = judge(ProbeOutcome::TimedOut, None, 1, 1003, 5);
    assert_eq!(r.status, CheckStatus::Unhealthy);
    assert_eq!(r.status_message, "request timed out after 1 s");
    assert_eq!(r.response_time, 1003);
}

#[test]
fn connection_refused_is_unhealthy_with_its_description() {
    let r = judge(
        ProbeOutcome::TransportError { description: "connection refused".to_string() },
        None,
        5,
        2,
        5,
    );
    assert_eq!(r.status, CheckStatus::Unhealthy);
    assert_eq!(r.status_message, "connection refused");
}

#[test]
fn empty_error_description_still_gives_a_message() {
    let r = judge(ProbeOutcome::TransportError { description: String::new() }, None, 5, 0, 0);
    assert_eq!(r.status, CheckStatus::Unhealthy);
    assert_eq!(r.status_message, "request failed");
}

#[test]
fn given_reason_phrase_is_used() {
    let r = judge_with_reason(
        ProbeOutcome::Response { code: 200 },
        Some("Fine".to_string()),
        None,
        5,
        1,
        0,
    );
    assert_eq!(r.status_message, "Fine");
    let r = judge_with_reason(ProbeOutcome::Response { code: 500 }, Some(String::new()), None, 5, 1, 0);
    assert_eq!(r.status, CheckStatus::Unhealthy);
    assert_eq!(r.status_message, "Unexpected status");
}

#[test]
fn status_code_classification() {
    assert_eq!(CheckStatus::from_status_code(200), CheckStatus::Healthy);
    assert_eq!(CheckStatus::from_status_code(299), CheckStatus::Healthy);
    assert_eq!(CheckStatus::from_status_code(199), CheckStatus::Unhealthy);
    assert_eq!(CheckStatus::from_status_code(300), CheckStatus::Unhealthy);
    assert_eq!(CheckStatus::from_status_code(503), CheckStatus::Unhealthy);
}

#[test]
fn names_render() {
    assert_eq!(CheckStatus::Healthy.to_string(), "Healthy");
    assert_eq!(CheckStatus::Degraded.to_string(), "Degraded");
    assert_eq!(CheckStatus::Unhealthy.to_string(), "Unhealthy");
    assert_eq!(ServiceType::Http.to_string(), "http");
    assert_eq!(ServiceType::Db.to_string(), "db");
}
