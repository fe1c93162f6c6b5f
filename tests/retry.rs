use lol_bot::retry::{is_success_status, RetryAction, RetryState, DELAY_STEP_MS, MAX_RETRIES};

#[test]
fn success_statuses() {
    assert!(is_success_status(200));
    assert!(is_success_status(204));
    assert!(is_success_status(299));
    assert!(!is_success_status(199));
    assert!(!is_success_status(300));
    assert!(!is_success_status(404));
    assert!(!is_success_status(503));
}

#[test]
fn two_failures_then_success_retry_twice() {
    let outcomes = [Some(503u16), None, Some(200u16)];
    let mut state = RetryState::new();
    let mut waits = Vec::new();
    let mut attempts = 0;
    for o in outcomes.iter() {
        attempts += 1;
        let (action, next) = state.next(*o);
        state = next;
        match action {
            RetryAction::Finish => break,
            RetryAction::RetryAfter(ms) => waits.push(ms),
        }
    }
    assert_eq!(waits, vec![500, 1000]);
    assert_eq!(attempts, 3);
}

#[test]
fn immediate_success_is_not_retried() {
    let (action, _) = RetryState::new().next(Some(200));
    assert_eq!(action, RetryAction::Finish);
}

#[test]
fn persistent_failure_stops_after_three_retries() {
    let mut state = RetryState::new();
    let mut waits = Vec::new();
    for _ in 0..10 {
        let (action, next) = state.next(Some(404));
        state = next;
        match action {
            RetryAction::Finish => break,
            RetryAction::RetryAfter(ms) => waits.push(ms),
        }
    }
    assert_eq!(waits, vec![500, 1000, 1500]);
    assert_eq!(state.retries, MAX_RETRIES);
    assert_eq!(DELAY_STEP_MS, 500);
}
