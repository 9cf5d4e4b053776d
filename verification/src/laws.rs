//! The round driver's protocol guarantees, stated and proved over the
//! spec-level transitions: what a single step may emit, that phases never
//! regress over a whole run, that the primary hint is sent at most once
//! and never after a prevote, and that an equivocation is reported exactly
//! once per offending voter.

use vstd::prelude::*;

use crate::data::{progress_rank, Equivocation, Phase, RoundError, Voting};
use crate::driver::{
    finish_decision, step_spec, Event, StepOutcome, VotingRoundModel,
};
use crate::ledger::{first_cast, import_spec, lemma_first_cast_push, Cast, VoteLogModel};

verus! {

/// What any single step guarantees, whatever the event: the phase never
/// moves backwards; a primary hint is emitted only by a primary-role
/// driver leaving the `Start` phase; a prevote is emitted only by an
/// active voter entering `Prevoted` from the prevote stage; a precommit
/// only by an active voter moving from `Prevoted` to `Precommitted`; and
/// the step reports the round finished exactly when the ledger is
/// completable and the previous round's estimate is finalized.
pub proof fn lemma_step_properties(d: VotingRoundModel, ev: Event)
    ensures
        ({
            let (post, res) = step_spec(d, ev);
            &&& progress_rank(d.phase) <= progress_rank(post.phase)
            &&& post.voting == d.voting
            &&& (match res {
                Ok(out) => {
                    &&& (out.propose is Some ==> d.voting is Primary && d.phase == Some(Phase::Start)
                        && post.phase != Some(Phase::Start) && progress_rank(post.phase) >= 1)
                    &&& (out.prevote is Some ==> d.voting.active() && post.phase == Some(
                        Phase::Prevoted,
                    ) && (d.phase == Some(Phase::Start) || d.phase == Some(Phase::Proposed)))
                    &&& (out.precommit is Some ==> d.voting.active() && d.phase == Some(
                        Phase::Prevoted,
                    ) && post.phase == Some(Phase::Precommitted))
                    &&& out.finished == finish_decision(post)
                },
                Err(_) => post.phase == d.phase,
            })
        }),
{
}

/// A run of the driver: a chain of states linked by successful steps, one
/// event consumed and one outcome produced per step.
pub open spec fn run_trace(
    states: Seq<VotingRoundModel>,
    events: Seq<Event>,
    outcomes: Seq<StepOutcome>,
) -> bool {
    &&& states.len() == events.len() + 1
    &&& outcomes.len() == events.len()
    &&& forall|i: int|
        0 <= i < events.len() ==> #[trigger] step_spec(states[i], events[i]) == (
            states[i + 1],
            Ok::<StepOutcome, RoundError>(outcomes[i]),
        )
}

/// Phase transitions are monotonic: along any run, the observed phases
/// follow the fixed progression `Start`, `Proposed`, `Prevoted`,
/// `Precommitted` and never regress.
pub proof fn lemma_phase_never_regresses(
    states: Seq<VotingRoundModel>,
    events: Seq<Event>,
    outcomes: Seq<StepOutcome>,
    i: int,
    j: int,
)
    requires
        run_trace(states, events, outcomes),
        0 <= i <= j < states.len(),
    ensures
        progress_rank(states[i].phase) <= progress_rank(states[j].phase),
    decreases j - i,
{
    if i < j {
        lemma_phase_never_regresses(states, events, outcomes, i, j - 1);
        lemma_step_properties(states[j - 1], events[j - 1]);
        assert(step_spec(states[j - 1], events[j - 1]) == (
            states[j],
            Ok::<StepOutcome, RoundError>(outcomes[j - 1]),
        ));
    }
}

/// A driver sends at most one primary propose hint per round: two steps
/// of one run that both emit a hint are the same step.
pub proof fn lemma_at_most_one_primary_propose(
    states: Seq<VotingRoundModel>,
    events: Seq<Event>,
    outcomes: Seq<StepOutcome>,
    i: int,
    j: int,
)
    requires
        run_trace(states, events, outcomes),
        0 <= i < outcomes.len(),
        0 <= j < outcomes.len(),
        outcomes[i].propose is Some,
        outcomes[j].propose is Some,
    ensures
        i == j,
{
    lemma_step_properties(states[i], events[i]);
    lemma_step_properties(states[j], events[j]);
    if i < j {
        lemma_phase_never_regresses(states, events, outcomes, i + 1, j);
        assert(progress_rank(states[j].phase) >= 1);
    } else if j < i {
        lemma_phase_never_regresses(states, events, outcomes, j + 1, i);
        assert(progress_rank(states[i].phase) >= 1);
    }
}

/// The primary hint is sent only before any prevote is cast: if a step of
/// a run emits the hint and another emits a prevote, the hint's step does
/// not come after the prevote's. (Within one step the embedder performs
/// the outcome in field order, so the hint also precedes a prevote emitted
/// by the same step.)
pub proof fn lemma_propose_not_after_prevote(
    states: Seq<VotingRoundModel>,
    events: Seq<Event>,
    outcomes: Seq<StepOutcome>,
    i: int,
    j: int,
)
    requires
        run_trace(states, events, outcomes),
        0 <= i < outcomes.len(),
        0 <= j < outcomes.len(),
        outcomes[i].propose is Some,
        outcomes[j].prevote is Some,
    ensures
        i <= j,
{
    lemma_step_properties(states[i], events[i]);
    lemma_step_properties(states[j], events[j]);
    if j < i {
        lemma_phase_never_regresses(states, events, outcomes, j + 1, i);
        assert(progress_rank(states[i].phase) >= 2);
    }
}

/// A run returns only when its final step said so, and a step says so
/// exactly when the ledger is completable and — unless no previous-round
/// snapshot was ever supplied — the previous round's estimate is
/// finalized in one of the two rounds. This is the completion safety
/// condition, restated over a whole run.
pub proof fn lemma_finish_condition(
    states: Seq<VotingRoundModel>,
    events: Seq<Event>,
    outcomes: Seq<StepOutcome>,
    i: int,
)
    requires
        run_trace(states, events, outcomes),
        0 <= i < outcomes.len(),
        outcomes[i].finished,
    ensures
        states[i + 1].ledger.completable,
        crate::driver::last_estimate_finalized(
            states[i + 1].last_round_state,
            states[i + 1].ledger.finalized,
        ),
{
    lemma_step_properties(states[i], events[i]);
    assert(step_spec(states[i], events[i]) == (
        states[i + 1],
        Ok::<StepOutcome, RoundError>(outcomes[i]),
    ));
}

/// For a pair of conflicting same-kind votes from one signer, the second
/// import yields the equivocation evidence exactly once: a third
/// conflicting vote from the same signer is recorded as evidence but does
/// not report the pair again.
pub proof fn lemma_equivocation_reported_once(
    log: VoteLogModel,
    voters: Seq<u64>,
    round_number: u64,
    a: Cast,
    b: Cast,
    c: Cast,
)
    requires
        voters.contains(a.voter),
        first_cast(log.votes, a.voter) is None,
        !log.equivocators.contains(a.voter),
        b.voter == a.voter,
        c.voter == a.voter,
        (b.target_hash, b.target_number) != (a.target_hash, a.target_number),
        (c.target_hash, c.target_number) != (a.target_hash, a.target_number),
    ensures
        ({
            let (l1, r1) = import_spec(log, voters, round_number, a);
            let (l2, r2) = import_spec(l1, voters, round_number, b);
            let (l3, r3) = import_spec(l2, voters, round_number, c);
            &&& r1 == Ok::<Option<Equivocation>, RoundError>(None)
            &&& r2 == Ok::<Option<Equivocation>, RoundError>(
                Some(
                    Equivocation {
                        round_number,
                        identity: a.voter,
                        first_target_hash: a.target_hash,
                        first_target_number: a.target_number,
                        first_signature: a.signature,
                        second_target_hash: b.target_hash,
                        second_target_number: b.target_number,
                        second_signature: b.signature,
                    },
                ),
            )
            &&& r3 == Ok::<Option<Equivocation>, RoundError>(None)
            &&& l3.votes == log.votes.push(a).push(b).push(c)
        }),
{
    let (l1, r1) = import_spec(log, voters, round_number, a);
    lemma_first_cast_push(log.votes, a, a.voter);
    let (l2, r2) = import_spec(l1, voters, round_number, b);
    lemma_first_cast_push(l1.votes, b, a.voter);
    let (l3, r3) = import_spec(l2, voters, round_number, c);
    assert(l2.equivocators == log.equivocators.push(a.voter));
    assert(l2.equivocators[log.equivocators.len() as int] == a.voter);
    assert(l2.equivocators.contains(a.voter));
}

} // verus!
