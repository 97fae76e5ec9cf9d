use ferris_fetch::retry::{
    classify_status, default_config, retry_step, run_retry, AttemptEvent, FetchClass,
    FetchOutcome, RetryConfig, RetryState, StepAction,
};

#[test]
fn default_policy_values() {
    let cfg = default_config();
    assert_eq!(cfg.max_retries, 5);
    assert_eq!(cfg.base_delay, 1);
    assert_eq!(cfg.factor, 2);
}

#[test]
fn classification_of_statuses() {
    assert_eq!(classify_status(200), FetchClass::Success);
    assert_eq!(classify_status(204), FetchClass::Success);
    assert_eq!(classify_status(299), FetchClass::Success);
    assert_eq!(classify_status(429), FetchClass::Transient);
    assert_eq!(classify_status(500), FetchClass::Transient);
    assert_eq!(classify_status(503), FetchClass::Transient);
    assert_eq!(classify_status(599), FetchClass::Transient);
    assert_eq!(classify_status(404), FetchClass::Fatal);
    assert_eq!(classify_status(301), FetchClass::Fatal);
    assert_eq!(classify_status(400), FetchClass::Fatal);
    assert_eq!(classify_status(199), FetchClass::Fatal);
}

#[test]
fn retry_ceiling_on_persistent_503() {
    let cfg = default_config();
    let events = vec![AttemptEvent::Response(503); 5];
    let r = run_retry(&events, &cfg);
    assert_eq!(r.outcome, FetchOutcome::Exhausted);
    assert_eq!(r.attempts, 5);
    assert_eq!(r.delays, vec![1, 2, 4, 8]);
}

#[test]
fn fatal_404_short_circuits_after_one_attempt() {
    let cfg = default_config();
    let mut events = vec![AttemptEvent::Response(404)];
    events.extend(vec![AttemptEvent::Response(503); 4]);
    let r = run_retry(&events, &cfg);
    assert_eq!(r.outcome, FetchOutcome::FatalStatus(404));
    assert_eq!(r.attempts, 1);
    assert!(r.delays.is_empty());
}

#[test]
fn network_errors_then_success() {
    let cfg = default_config();
    let events = vec![
        AttemptEvent::NetworkError,
        AttemptEvent::NetworkError,
        AttemptEvent::Response(200),
        AttemptEvent::Response(503),
        AttemptEvent::Response(503),
    ];
    let r = run_retry(&events, &cfg);
    assert_eq!(r.outcome, FetchOutcome::Success(200));
    assert_eq!(r.attempts, 3);
    assert_eq!(r.delays, vec![1, 2]);
}

#[test]
fn rate_limited_then_success() {
    let cfg = default_config();
    let events = vec![
        AttemptEvent::Response(429),
        AttemptEvent::Response(200),
        AttemptEvent::Response(200),
        AttemptEvent::Response(200),
        AttemptEvent::Response(200),
    ];
    let r = run_retry(&events, &cfg);
    assert_eq!(r.outcome, FetchOutcome::Success(200));
    assert_eq!(r.attempts, 2);
    assert_eq!(r.delays, vec![1]);
}

#[test]
fn backoff_delays_are_exact_powers() {
    // currentDelay before the (n+1)-th retry is base * factor^n, no jitter.
    let cfg = RetryConfig { max_retries: 5, base_delay: 3, factor: 4 };
    let events = vec![AttemptEvent::Response(500); 5];
    let r = run_retry(&events, &cfg);
    assert_eq!(r.delays, vec![3, 12, 48, 192]);
}

#[test]
fn step_doubles_delay_and_counts_attempt() {
    let cfg = default_config();
    let mut state = RetryState::new(&cfg);
    assert_eq!(state.attempts_made, 0);
    assert_eq!(state.current_delay, 1);
    let a = retry_step(&mut state, &cfg, AttemptEvent::Response(503));
    assert_eq!(a, StepAction::Backoff(1));
    assert_eq!(state.attempts_made, 1);
    assert_eq!(state.current_delay, 2);
    let a = retry_step(&mut state, &cfg, AttemptEvent::NetworkError);
    assert_eq!(a, StepAction::Backoff(2));
    assert_eq!(state.attempts_made, 2);
    assert_eq!(state.current_delay, 4);
    let a = retry_step(&mut state, &cfg, AttemptEvent::Response(200));
    assert_eq!(a, StepAction::Finish(FetchOutcome::Success(200)));
}

#[test]
fn step_exhausts_on_last_allowed_attempt() {
    let cfg = RetryConfig { max_retries: 1, base_delay: 1, factor: 2 };
    let mut state = RetryState::new(&cfg);
    let a = retry_step(&mut state, &cfg, AttemptEvent::Response(503));
    assert_eq!(a, StepAction::Finish(FetchOutcome::Exhausted));
}
