use goalstate_ready::retry::{Backoff, RetryAction, INITIAL_BACKOFF_SECS, MAX_BACKOFF_SECS};

/// Feeds attempt outcomes to a fresh policy; returns the sleeps taken and the
/// index of the attempt whose result is returned.
fn drive(outcomes: &[bool]) -> (Vec<u64>, Option<usize>) {
    let mut b = Backoff::new();
    let mut slept = Vec::new();
    for (i, ok) in outcomes.iter().enumerate() {
        match b.decide(*ok) {
            RetryAction::Return => return (slept, Some(i)),
            RetryAction::Sleep(s) => slept.push(s),
        }
    }
    (slept, None)
}

#[test]
fn success_first_time_returns_without_sleeping() {
    assert_eq!(drive(&[true]), (vec![], Some(0)));
}

#[test]
fn fails_three_times_then_succeeds() {
    assert_eq!(drive(&[false, false, false, true]), (vec![2, 4, 8], Some(3)));
}

#[test]
fn fails_six_times_then_succeeds_within_ceiling() {
    let outcomes = [false, false, false, false, false, false, true];
    assert_eq!(drive(&outcomes), (vec![2, 4, 8, 16, 32, 64], Some(6)));
}

#[test]
fn always_failing_gives_up_after_seventh_attempt() {
    let outcomes = [false; 50];
    assert_eq!(drive(&outcomes), (vec![2, 4, 8, 16, 32, 64], Some(6)));
}

#[test]
fn backoff_constants() {
    assert_eq!(INITIAL_BACKOFF_SECS, 2);
    assert_eq!(MAX_BACKOFF_SECS, 120);
    assert_eq!(Backoff::new().timeout_secs, 2);
}

#[test]
fn decide_doubles_on_failure_and_keeps_on_success() {
    let mut b = Backoff::new();
    assert_eq!(b.decide(false), RetryAction::Sleep(2));
    assert_eq!(b.timeout_secs, 4);
    assert_eq!(b.decide(true), RetryAction::Return);
    assert_eq!(b.timeout_secs, 4);
}

#[test]
fn past_ceiling_returns_failure() {
    let mut b = Backoff { timeout_secs: 128 };
    assert_eq!(b.decide(false), RetryAction::Return);
    assert_eq!(b.timeout_secs, 128);
    let mut edge = Backoff { timeout_secs: 120 };
    assert_eq!(edge.decide(false), RetryAction::Sleep(120));
    assert_eq!(edge.timeout_secs, 240);
}
