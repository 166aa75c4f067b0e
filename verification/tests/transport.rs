use axiom_rs::transport::{trim_leading_slashes, AttemptOutcome, RetryDecision, RetryState};

#[test]
fn two_server_errors_then_success() {
    // A mock endpoint answering 500, 500, 200 costs the two exponential
    // delays before the third attempt delivers.
    let mut state = RetryState::new();
    assert_eq!(
        state.decide(AttemptOutcome::Completed(500)),
        RetryDecision::RetryAfter(500)
    );
    assert_eq!(
        state.decide(AttemptOutcome::Completed(500)),
        RetryDecision::RetryAfter(1000)
    );
    assert_eq!(state.decide(AttemptOutcome::Completed(200)), RetryDecision::Deliver);
}

#[test]
fn client_errors_are_never_retried() {
    // A 404 is permanent: the first decision already delivers the response,
    // so exactly one physical attempt is made.
    let mut state = RetryState::new();
    assert_eq!(state.decide(AttemptOutcome::Completed(404)), RetryDecision::Deliver);
    assert_eq!(state.decide(AttemptOutcome::Completed(429)), RetryDecision::Deliver);
    assert_eq!(state.decide(AttemptOutcome::Completed(400)), RetryDecision::Deliver);
}

#[test]
fn budget_exhaustion_gives_up() {
    let mut state = RetryState::new();
    let mut delays = Vec::new();
    loop {
        match state.decide(AttemptOutcome::NetworkFailure) {
            RetryDecision::RetryAfter(ms) => delays.push(ms),
            RetryDecision::GiveUp => break,
            RetryDecision::Deliver => panic!("a network failure never delivers"),
        }
        assert!(delays.len() < 100, "the retry budget must be bounded");
    }
    // Exponential from 500 ms until the 30 s delay budget is spent.
    assert_eq!(delays, vec![500, 1000, 2000, 4000, 8000, 16000]);
    // Once given up, the state keeps giving up.
    assert_eq!(state.decide(AttemptOutcome::NetworkFailure), RetryDecision::GiveUp);
}

#[test]
fn leading_slashes_are_trimmed_before_join() {
    assert_eq!(trim_leading_slashes("/v1/datasets"), "v1/datasets");
    assert_eq!(trim_leading_slashes("//v1"), "v1");
    assert_eq!(trim_leading_slashes("v1"), "v1");
    assert_eq!(trim_leading_slashes(""), "");
    assert_eq!(trim_leading_slashes("///"), "");
}
