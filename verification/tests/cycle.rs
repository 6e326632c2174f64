use website_monitor::probe::{classify_probe, ProbeOutcome, Status};
use website_monitor::report::generate_report;
use website_monitor::runner::{run_health_checks, HealthCycleResults};
use website_monitor::state::{get_initial_state, NotifyOutcome, StateConfig};

#[test]
fn one_result_per_target() {
    let urls = vec![
        "http://a.example".to_string(),
        "http://b.example".to_string(),
        "http://c.example".to_string(),
    ];
    let outcomes = vec![
        ProbeOutcome::Completed { connect_ms: 1, response_ms: 2, body_ms: 3 },
        ProbeOutcome::RequestFailed { error: "refused".to_string() },
        ProbeOutcome::BodyFailed { connect_ms: 4, response_ms: 5, error: "cut".to_string() },
    ];
    let results = run_health_checks(&urls, outcomes);
    assert_eq!(results.len(), 3);
    let a = results.get(&urls[0]).unwrap();
    assert_eq!(a.status, Status::Up);
    let b = results.get(&urls[1]).unwrap();
    assert_eq!(b.status, Status::Down);
    assert_eq!(b.error.as_deref(), Some("refused"));
    let c = results.get(&urls[2]).unwrap();
    assert_eq!(c.status, Status::Down);
    assert_eq!(c.dns_time_ms, Some(4));
}

#[test]
fn lookup_of_unprobed_url_is_none() {
    let mut results = HealthCycleResults::new();
    results.insert(
        "http://a.example".to_string(),
        classify_probe(ProbeOutcome::Completed { connect_ms: 1, response_ms: 1, body_ms: 1 }),
    );
    assert!(results.get(&"http://other.example".to_string()).is_none());
}

#[test]
fn empty_target_list_gives_empty_results() {
    let urls: Vec<String> = Vec::new();
    let results = run_health_checks(&urls, Vec::new());
    assert_eq!(results.len(), 0);
}

/// One full cycle against two targets, the first always up, the second
/// failing at connect time.
#[test]
fn full_cycle_over_one_up_and_one_down_target() {
    let interval_seconds: u64 = 1;
    let settings = website_monitor::config::load_settings(
        interval_seconds,
        vec!["http://ok.example".to_string(), "http://down.example".to_string()],
    )
    .unwrap();

    let outcomes = vec![
        ProbeOutcome::Completed { connect_ms: 12, response_ms: 30, body_ms: 2 },
        ProbeOutcome::RequestFailed { error: "connect error: host unreachable".to_string() },
    ];
    let results = run_health_checks(&settings.websites.urls, outcomes);
    assert_eq!(results.len(), 2);

    let report = generate_report(&results);
    assert!(report.contains("  Total Websites Checked: 2\n"));
    assert!(report.contains("  Total UP: 1\n"));
    assert!(report.contains("  Total DOWN: 1\n"));
    assert!(report.contains("URL: http://down.example\n  Status: DOWN\n  Error: connect error: host unreachable\n"));

    // The report is handed to the notification as its body, unchanged; the
    // cycle then counts as one event.
    let notification_body = report.clone();
    assert_eq!(notification_body, report);
    let mut state = get_initial_state(StateConfig { debug_mode: false }, 100);
    let before = state.event_counter;
    let fatal = state.complete_cycle(NotifyOutcome::Sent, 101);
    assert!(!fatal);
    assert_eq!(state.event_counter, before + 1);
}
