use website_monitor::probe::{classify_probe, HealthCheckResult, ProbeOutcome, Status};

#[test]
fn request_failure_is_down_with_message_and_no_timings() {
    let r = classify_probe(ProbeOutcome::RequestFailed {
        error: "dns error: no such host".to_string(),
    });
    assert_eq!(r.status, Status::Down);
    assert_eq!(r.dns_time_ms, None);
    assert_eq!(r.response_time_ms, None);
    assert_eq!(r.body_time_ms, None);
    assert_eq!(r.error.as_deref(), Some("dns error: no such host"));
}

#[test]
fn client_failure_is_down_with_message_and_no_timings() {
    let r = classify_probe(ProbeOutcome::ClientFailed { error: "builder error".to_string() });
    assert_eq!(r.status, Status::Down);
    assert_eq!(r.dns_time_ms, None);
    assert_eq!(r.response_time_ms, None);
    assert_eq!(r.body_time_ms, None);
    assert_eq!(r.error.as_deref(), Some("builder error"));
}

#[test]
fn body_failure_is_down_but_keeps_measured_timings() {
    let r = classify_probe(ProbeOutcome::BodyFailed {
        connect_ms: 3,
        response_ms: 10,
        error: "body read timed out".to_string(),
    });
    assert_eq!(r.status, Status::Down);
    assert_eq!(r.dns_time_ms, Some(3));
    assert_eq!(r.response_time_ms, Some(10));
    assert_eq!(r.body_time_ms, None);
    assert_eq!(r.error.as_deref(), Some("body read timed out"));
}

#[test]
fn completed_probe_is_up_with_all_timings_and_no_error() {
    let r = classify_probe(ProbeOutcome::Completed { connect_ms: 1, response_ms: 2, body_ms: 3 });
    assert_eq!(r.status, Status::Up);
    assert_eq!(r.dns_time_ms, Some(1));
    assert_eq!(r.response_time_ms, Some(2));
    assert_eq!(r.body_time_ms, Some(3));
    assert_eq!(r.error, None);
}

#[test]
fn zero_timings_are_kept_as_measured() {
    let r = classify_probe(ProbeOutcome::Completed { connect_ms: 0, response_ms: 0, body_ms: 0 });
    assert_eq!(r.status, Status::Up);
    assert_eq!(r.dns_time_ms, Some(0));
    assert_eq!(r.response_time_ms, Some(0));
    assert_eq!(r.body_time_ms, Some(0));
}

#[test]
fn result_can_be_built_directly() {
    let r = HealthCheckResult {
        status: Status::Down,
        dns_time_ms: None,
        response_time_ms: None,
        body_time_ms: None,
        error: Some("unreachable".to_string()),
    };
    assert_eq!(r.status, Status::Down);
}
