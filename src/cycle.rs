//! The sequence of one provisioning cycle: fetch the goal state, parse it,
//! build the readiness report, report it. Any failed step aborts the cycle.

use vstd::prelude::*;

verus! {

#[derive(Debug, Clone, Copy, PartialEq, Eq, Structural)]
pub enum Phase {
    Start,
    FetchingGoalState,
    ParsingGoalState,
    BuildingReadiness,
    ReportingReadiness,
    Done,
    Aborted,
}

/// The phase that follows `p` once its step has run: the next one in line
/// when the step succeeded, `Aborted` when it failed. `Done` and `Aborted`
/// are final.
pub open spec fn next_phase(p: Phase, step_ok: bool) -> Phase {
    match p {
        Phase::Done => Phase::Done,
        Phase::Aborted => Phase::Aborted,
        _ => if !step_ok {
            Phase::Aborted
        } else {
            match p {
                Phase::Start => Phase::FetchingGoalState,
                Phase::FetchingGoalState => Phase::ParsingGoalState,
                Phase::ParsingGoalState => Phase::BuildingReadiness,
                Phase::BuildingReadiness => Phase::ReportingReadiness,
                _ => Phase::Done,
            }
        },
    }
}

/// The phase reached from `p` after steps with the given outcomes.
pub open spec fn phase_after(p: Phase, outcomes: Seq<bool>) -> Phase
    decreases outcomes.len(),
{
    if outcomes.len() == 0 {
        p
    } else {
        phase_after(next_phase(p, outcomes[0]), outcomes.drop_first())
    }
}

impl Phase {
    /// The phase after this one's step, given whether the step succeeded.
    pub fn advance(self, step_ok: bool) -> (r: Phase)
        ensures
            r == next_phase(self, step_ok),
    {
        match self {
            Phase::Done => Phase::Done,
            Phase::Aborted => Phase::Aborted,
            _ => if !step_ok {
                Phase::Aborted
            } else {
                match self {
                    Phase::Start => Phase::FetchingGoalState,
                    Phase::FetchingGoalState => Phase::ParsingGoalState,
                    Phase::ParsingGoalState => Phase::BuildingReadiness,
                    Phase::BuildingReadiness => Phase::ReportingReadiness,
                    _ => Phase::Done,
                }
            },
        }
    }

    /// The process exit status for a final phase: zero when done, one when aborted.
    pub fn exit_code(self) -> (r: i32)
        requires
            self == Phase::Done || self == Phase::Aborted,
        ensures
            self == Phase::Done ==> r == 0,
            self == Phase::Aborted ==> r == 1,
    {
        match self {
            Phase::Done => 0,
            _ => 1,
        }
    }
}

proof fn lemma_aborted_stays(outcomes: Seq<bool>)
    ensures
        phase_after(Phase::Aborted, outcomes) == Phase::Aborted,
    decreases outcomes.len(),
{
    if outcomes.len() > 0 {
        lemma_aborted_stays(outcomes.drop_first());
    }
}

/// When fetching the goal state fails, the cycle aborts and never reaches
/// building or reporting, whatever the outcomes of later steps would be.
pub proof fn lemma_failed_fetch_aborts(outcomes: Seq<bool>, k: nat)
    requires
        outcomes.len() >= 2,
        !outcomes[1],
        2 <= k <= outcomes.len(),
    ensures
        phase_after(Phase::Start, outcomes.take(k as int)) == Phase::Aborted,
{
    let s = outcomes.take(k as int);
    let rest = s.drop_first();
    assert(rest.drop_first() =~= outcomes.subrange(2, k as int));
    lemma_aborted_stays(rest);
    lemma_aborted_stays(rest.drop_first());
    if s[0] {
        assert(phase_after(Phase::FetchingGoalState, rest) == phase_after(
            Phase::Aborted,
            rest.drop_first(),
        ));
    }
}

/// With every step succeeding the cycle passes through each phase in order
/// and ends `Done`.
pub proof fn lemma_all_steps_succeed()
    ensures
        phase_after(Phase::Start, seq![true]) == Phase::FetchingGoalState,
        phase_after(Phase::Start, seq![true, true]) == Phase::ParsingGoalState,
        phase_after(Phase::Start, seq![true, true, true]) == Phase::BuildingReadiness,
        phase_after(Phase::Start, seq![true, true, true, true]) == Phase::ReportingReadiness,
        phase_after(Phase::Start, seq![true, true, true, true, true]) == Phase::Done,
{
    reveal_with_fuel(phase_after, 6);
    assert(seq![true].drop_first() =~= Seq::<bool>::empty());
    assert(seq![true, true].drop_first() =~= seq![true]);
    assert(seq![true, true, true].drop_first() =~= seq![true, true]);
    assert(seq![true, true, true, true].drop_first() =~= seq![true, true, true]);
    assert(seq![true, true, true, true, true].drop_first() =~= seq![true, true, true, true]);
}

} // verus!
