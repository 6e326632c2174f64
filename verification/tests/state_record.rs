use website_monitor::state::{
    get_initial_state, ErrorKind, NotifyOutcome, StateConfig,
};

fn fresh() -> website_monitor::state::AppState {
    get_initial_state(StateConfig { debug_mode: false }, 1000)
}

#[test]
fn initial_state_is_inactive_with_empty_log() {
    let state = fresh();
    assert_eq!(state.data, "");
    assert_eq!(state.last_updated, 1000);
    assert_eq!(state.event_counter, 0);
    assert!(!state.is_active);
    assert!(state.error_log.is_empty());
    assert!(!state.config.debug_mode);
}

#[test]
fn touch_refreshes_timestamp_only() {
    let mut state = fresh();
    state.touch(2000);
    assert_eq!(state.last_updated, 2000);
    assert_eq!(state.event_counter, 0);
    assert!(!state.is_active);
    assert!(state.error_log.is_empty());
}

#[test]
fn save_failure_marks_inactive_and_logs_exactly_once() {
    let mut state = fresh();
    state.mark_active("running".to_string());
    let log_len = state.error_log.len();
    state.record_save_failure("disk full".to_string());
    assert!(!state.is_active);
    assert_eq!(state.error_log.len(), log_len + 1);
    let entry = state.error_log.last().unwrap();
    assert_eq!(entry.kind, ErrorKind::GeneralError);
    assert_eq!(entry.message, "disk full");
    assert_eq!(state.event_counter, 0);
}

#[test]
fn record_error_appends_entry() {
    let mut state = fresh();
    state.record_error(ErrorKind::InvalidFile, "settings malformed".to_string());
    assert_eq!(state.error_log.len(), 1);
    assert_eq!(state.error_log[0].kind, ErrorKind::InvalidFile);
    assert_eq!(state.error_log[0].message, "settings malformed");
}

#[test]
fn mark_active_sets_flag_and_data() {
    let mut state = fresh();
    state.mark_active("Website Monitor Initialized".to_string());
    assert!(state.is_active);
    assert_eq!(state.data, "Website Monitor Initialized");
}

#[test]
fn debug_mode_is_taken_over() {
    let mut state = fresh();
    state.set_debug_mode(true);
    assert!(state.config.debug_mode);
}

#[test]
fn sent_cycle_increments_counter_without_logging() {
    let mut state = fresh();
    let fatal = state.complete_cycle(NotifyOutcome::Sent, 2000);
    assert!(!fatal);
    assert_eq!(state.event_counter, 1);
    assert_eq!(state.last_updated, 2000);
    assert!(state.error_log.is_empty());
}

#[test]
fn send_failure_still_counts_the_cycle_and_logs() {
    let mut state = fresh();
    let fatal = state.complete_cycle(
        NotifyOutcome::SendFailed { error: "smtp refused".to_string() },
        2000,
    );
    assert!(!fatal);
    assert_eq!(state.event_counter, 1);
    assert_eq!(state.error_log.len(), 1);
    assert_eq!(state.error_log[0].kind, ErrorKind::Notification);
}

#[test]
fn encrypt_failure_is_fatal_and_does_not_count() {
    let mut state = fresh();
    let fatal = state.complete_cycle(
        NotifyOutcome::EncryptFailed { error: "no recipient key".to_string() },
        2000,
    );
    assert!(fatal);
    assert_eq!(state.event_counter, 0);
    assert_eq!(state.error_log.len(), 1);
    assert_eq!(state.error_log[0].kind, ErrorKind::Notification);
}

#[test]
fn counter_grows_by_one_per_completed_cycle() {
    let mut state = fresh();
    let start = state.event_counter;
    let mut now: u64 = 2000;
    for i in 0..5 {
        let outcome = if i % 2 == 0 {
            NotifyOutcome::Sent
        } else {
            NotifyOutcome::SendFailed { error: "smtp refused".to_string() }
        };
        let fatal = state.complete_cycle(outcome, now);
        assert!(!fatal);
        now += 1;
    }
    assert_eq!(state.event_counter, start + 5);
}
