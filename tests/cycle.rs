use goalstate_ready::cycle::Phase;
use goalstate_ready::error::AppError;
use goalstate_ready::protocol::goal_state_response;
use goalstate_ready::retry::{Backoff, RetryAction};

#[test]
fn all_steps_succeeding_reach_done() {
    let mut p = Phase::Start;
    let mut seen = vec![p];
    for _ in 0..5 {
        p = p.advance(true);
        seen.push(p);
    }
    assert_eq!(
        seen,
        vec![
            Phase::Start,
            Phase::FetchingGoalState,
            Phase::ParsingGoalState,
            Phase::BuildingReadiness,
            Phase::ReportingReadiness,
            Phase::Done,
        ]
    );
    assert_eq!(p.exit_code(), 0);
    assert_eq!(p.advance(false), Phase::Done);
}

#[test]
fn a_failed_step_aborts_for_good() {
    let p = Phase::ParsingGoalState.advance(false);
    assert_eq!(p, Phase::Aborted);
    assert_eq!(p.advance(true), Phase::Aborted);
    assert_ne!(p.exit_code(), 0);
}

#[test]
fn fetch_answering_500_retries_then_aborts_without_building() {
    let mut phase = Phase::Start.advance(true);
    assert_eq!(phase, Phase::FetchingGoalState);
    let mut backoff = Backoff::new();
    let mut delays = Vec::new();
    let mut attempts = 0;
    let outcome = loop {
        attempts += 1;
        let res = goal_state_response(500, Vec::new());
        match backoff.decide(res.is_ok()) {
            RetryAction::Return => break res,
            RetryAction::Sleep(s) => delays.push(s),
        }
    };
    assert_eq!(attempts, 7);
    assert_eq!(delays, vec![2, 4, 8, 16, 32, 64]);
    assert!(matches!(outcome, Err(AppError::Protocol { status: 500, .. })));
    phase = phase.advance(outcome.is_ok());
    assert_eq!(phase, Phase::Aborted);
    assert_ne!(phase.exit_code(), 0);
}
