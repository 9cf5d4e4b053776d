//! End-to-end exercises of the round driver: vote intake, the base
//! filter, equivocation reporting, the primary hint, phase progression,
//! and the completion check.

use voting_round::data::{
    Message, Phase, Precommit, Prevote, PrimaryPropose, RoundError, RoundState, SignedMessage,
    Voting,
};
use voting_round::driver::{Event, VotingRound};
use voting_round::ledger::Ledger;

/// A ledger for round 1 based at block 10 (hash 100), with voters 1..=4
/// and voter 1 as the designated primary.
fn test_ledger() -> Ledger {
    Ledger::new(100, 10, 1, 1, vec![1, 2, 3, 4])
}

fn prevote_msg(id: u64, signature: u64, hash: u64, number: u64) -> SignedMessage {
    SignedMessage {
        message: Message::Prevote(Prevote { target_hash: hash, target_number: number }),
        signature,
        id,
    }
}

fn precommit_msg(id: u64, signature: u64, hash: u64, number: u64) -> SignedMessage {
    SignedMessage {
        message: Message::Precommit(Precommit { target_hash: hash, target_number: number }),
        signature,
        id,
    }
}

#[test]
fn vote_below_base_is_dropped_without_effect() {
    // A vote targeting block 5 arrives with the base at block 10 and no
    // common ancestry: ignored, ledger unchanged, no error.
    let mut driver = VotingRound::new(Voting::Yes, test_ledger(), None);
    let out = driver.handle_vote(prevote_msg(2, 7, 50, 5), false).unwrap();
    assert_eq!(out.prevote_equivocation, None);
    assert_eq!(out.precommit_equivocation, None);
    assert_eq!(driver.ledger.prevotes.votes.len(), 0);
    assert_eq!(driver.ledger.precommits.votes.len(), 0);
    assert_eq!(driver.primary_block, None);
}

#[test]
fn prevote_from_unknown_voter_is_a_fatal_error() {
    let mut driver = VotingRound::new(Voting::Yes, test_ledger(), None);
    let res = driver.handle_vote(prevote_msg(9, 7, 200, 20), true);
    assert_eq!(res, Err(RoundError::UnknownVoter));
    assert_eq!(driver.ledger.prevotes.votes.len(), 0);
}

#[test]
fn first_prevote_is_recorded_without_report() {
    let mut driver = VotingRound::new(Voting::Yes, test_ledger(), None);
    let out = driver.handle_vote(prevote_msg(2, 7, 200, 20), true).unwrap();
    assert_eq!(out.prevote_equivocation, None);
    assert_eq!(driver.ledger.prevotes.votes.len(), 1);
    assert_eq!(driver.ledger.prevotes.votes[0].voter, 2);
    assert_eq!(driver.ledger.prevotes.votes[0].target_hash, 200);
}

#[test]
fn conflicting_prevote_reports_equivocation_once() {
    // Voter 2 signs a prevote for block A, then a prevote for block B in
    // the same round: the second import reports the equivocation for
    // voter 2 and the ledger retains both votes as evidence.
    let mut driver = VotingRound::new(Voting::Yes, test_ledger(), None);
    driver.handle_vote(prevote_msg(2, 7, 200, 20), true).unwrap();
    let out = driver.handle_vote(prevote_msg(2, 8, 300, 30), true).unwrap();
    let ev = out.prevote_equivocation.expect("second conflicting prevote must be reported");
    assert_eq!(ev.identity, 2);
    assert_eq!(ev.round_number, 1);
    assert_eq!(ev.first_target_hash, 200);
    assert_eq!(ev.first_target_number, 20);
    assert_eq!(ev.first_signature, 7);
    assert_eq!(ev.second_target_hash, 300);
    assert_eq!(ev.second_target_number, 30);
    assert_eq!(ev.second_signature, 8);
    assert_eq!(driver.ledger.prevotes.votes.len(), 2);
    assert_eq!(driver.ledger.prevotes.equivocators, vec![2]);
}

#[test]
fn third_conflicting_prevote_is_not_reported_again() {
    let mut driver = VotingRound::new(Voting::Yes, test_ledger(), None);
    driver.handle_vote(prevote_msg(2, 7, 200, 20), true).unwrap();
    assert!(driver.handle_vote(prevote_msg(2, 8, 300, 30), true).unwrap().prevote_equivocation
        .is_some());
    let out = driver.handle_vote(prevote_msg(2, 9, 400, 40), true).unwrap();
    assert_eq!(out.prevote_equivocation, None);
    // The third vote is still retained as evidence.
    assert_eq!(driver.ledger.prevotes.votes.len(), 3);
    assert_eq!(driver.ledger.prevotes.equivocators, vec![2]);
}

#[test]
fn duplicate_of_first_prevote_is_ignored() {
    let mut driver = VotingRound::new(Voting::Yes, test_ledger(), None);
    driver.handle_vote(prevote_msg(2, 7, 200, 20), true).unwrap();
    let out = driver.handle_vote(prevote_msg(2, 7, 200, 20), true).unwrap();
    assert_eq!(out.prevote_equivocation, None);
    assert_eq!(driver.ledger.prevotes.votes.len(), 1);
}

#[test]
fn conflicting_precommits_are_reported_on_their_own_channel() {
    let mut driver = VotingRound::new(Voting::Yes, test_ledger(), None);
    driver.handle_vote(precommit_msg(3, 5, 200, 20), true).unwrap();
    let out = driver.handle_vote(precommit_msg(3, 6, 300, 30), true).unwrap();
    assert!(out.precommit_equivocation.is_some());
    assert_eq!(out.prevote_equivocation, None);
    assert_eq!(out.precommit_equivocation.unwrap().identity, 3);
    // Prevote and precommit logs are independent.
    assert_eq!(driver.ledger.prevotes.votes.len(), 0);
    assert_eq!(driver.ledger.precommits.votes.len(), 2);
}

#[test]
fn primary_hint_is_cached_only_from_the_primary_voter() {
    let mut driver = VotingRound::new(Voting::Yes, test_ledger(), None);
    let from_other = SignedMessage {
        message: Message::PrimaryPropose(PrimaryPropose { target_hash: 200, target_number: 20 }),
        signature: 9,
        id: 2,
    };
    driver.handle_vote(from_other, true).unwrap();
    assert_eq!(driver.primary_block, None);
    let from_primary = SignedMessage {
        message: Message::PrimaryPropose(PrimaryPropose { target_hash: 200, target_number: 20 }),
        signature: 9,
        id: 1,
    };
    driver.handle_vote(from_primary, true).unwrap();
    assert_eq!(driver.primary_block, Some((200, 20)));
}

#[test]
fn primary_sends_hint_for_unfinalized_estimate() {
    // Round base = block 10; previous round estimate = block 20, previous
    // finalized = none; primary role: the driver sends the hint naming
    // block 20 before any prevote.
    let last = RoundState { estimate: Some((200, 20)), finalized: None };
    let mut driver = VotingRound::new(Voting::Primary, test_ledger(), None);
    let out = driver.step(Event::LastRoundState(last)).unwrap();
    assert_eq!(out.propose, Some(PrimaryPropose { target_hash: 200, target_number: 20 }));
    assert_eq!(out.prevote, None);
    assert_eq!(driver.phase, Some(Phase::Proposed));
}

#[test]
fn primary_sends_no_hint_for_finalized_estimate() {
    // Previous round estimate = block 20, previous finalized = block 25;
    // primary role: no proposal is sent and the phase stays at Start.
    let last = RoundState { estimate: Some((200, 20)), finalized: Some((250, 25)) };
    let mut driver = VotingRound::new(Voting::Primary, test_ledger(), None);
    let out = driver.step(Event::LastRoundState(last)).unwrap();
    assert_eq!(out.propose, None);
    assert_eq!(out.prevote, None);
    assert_eq!(driver.phase, Some(Phase::Start));
}

#[test]
fn primary_sends_no_hint_without_estimate() {
    let last = RoundState { estimate: None, finalized: None };
    let driver = VotingRound::new(Voting::Primary, test_ledger(), None);
    assert_eq!(driver.primary_propose(&last), None);
}

#[test]
fn non_primary_never_proposes() {
    let last = RoundState { estimate: Some((200, 20)), finalized: None };
    let driver = VotingRound::new(Voting::Yes, test_ledger(), None);
    assert_eq!(driver.primary_propose(&last), None);
}

#[test]
fn phase_stalls_without_previous_round_snapshot() {
    let mut driver = VotingRound::new(Voting::Yes, test_ledger(), None);
    let out = driver.step(Event::PrevoteTimerElapsed).unwrap();
    assert_eq!(out.prevote, None);
    assert_eq!(driver.phase, Some(Phase::Start));
    assert!(driver.prevote_timer_ready);
}

#[test]
fn timer_forces_prevote_on_the_candidate() {
    let last = RoundState { estimate: None, finalized: None };
    let mut driver = VotingRound::new(Voting::Yes, test_ledger(), Some(last));
    let out = driver.step(Event::PrevoteTimerElapsed).unwrap();
    // The fallback candidate is the round base: hash 100, number 10.
    assert_eq!(out.prevote, Some(Prevote { target_hash: 100, target_number: 10 }));
    assert_eq!(out.propose, None);
    assert_eq!(driver.phase, Some(Phase::Prevoted));
}

#[test]
fn completable_round_prevotes_without_timer() {
    let last = RoundState { estimate: None, finalized: None };
    let mut ledger = test_ledger();
    ledger.set_completable(true);
    ledger.set_candidate(200, 20);
    let mut driver = VotingRound::new(Voting::Yes, ledger, Some(last));
    let out = driver
        .step(Event::Vote { message: prevote_msg(2, 7, 200, 20), target_in_chain: true })
        .unwrap();
    assert_eq!(out.prevote, Some(Prevote { target_hash: 200, target_number: 20 }));
    assert_eq!(driver.phase, Some(Phase::Prevoted));
}

#[test]
fn silent_driver_advances_phases_without_voting() {
    // A silent driver follows the same schedule but never emits a message.
    let last = RoundState { estimate: None, finalized: None };
    let mut driver = VotingRound::new(Voting::No, test_ledger(), Some(last));
    let out = driver.step(Event::PrevoteTimerElapsed).unwrap();
    assert_eq!(out.propose, None);
    assert_eq!(out.prevote, None);
    assert_eq!(driver.phase, Some(Phase::Prevoted));
    let out = driver.step(Event::PrecommitTimerElapsed).unwrap();
    assert_eq!(out.precommit, None);
    assert_eq!(driver.phase, Some(Phase::Precommitted));
}

#[test]
fn full_phase_progression_for_a_voter() {
    let last = RoundState { estimate: None, finalized: None };
    let mut driver = VotingRound::new(Voting::Yes, test_ledger(), Some(last));
    assert_eq!(driver.phase, Some(Phase::Start));
    let out = driver.step(Event::PrevoteTimerElapsed).unwrap();
    assert_eq!(out.prevote, Some(Prevote { target_hash: 100, target_number: 10 }));
    assert_eq!(driver.phase, Some(Phase::Prevoted));
    // The precommit timer has not elapsed and the round is not
    // completable, so the driver waits in Prevoted.
    let out = driver.step(Event::Vote { message: prevote_msg(2, 7, 200, 20), target_in_chain: true })
        .unwrap();
    assert_eq!(out.precommit, None);
    assert_eq!(driver.phase, Some(Phase::Prevoted));
    let out = driver.step(Event::PrecommitTimerElapsed).unwrap();
    assert_eq!(out.precommit, Some(Precommit { target_hash: 100, target_number: 10 }));
    assert_eq!(driver.phase, Some(Phase::Precommitted));
    // Precommitted is terminal for voting: further events change nothing.
    let out = driver.step(Event::Vote { message: prevote_msg(3, 9, 200, 20), target_in_chain: true })
        .unwrap();
    assert_eq!(out.prevote, None);
    assert_eq!(out.precommit, None);
    assert_eq!(driver.phase, Some(Phase::Precommitted));
}

#[test]
fn not_finished_until_completable() {
    let mut driver = VotingRound::new(Voting::Yes, test_ledger(), None);
    let out = driver.step(Event::PrevoteTimerElapsed).unwrap();
    assert!(!out.finished);
    assert!(!driver.round_finishable());
}

#[test]
fn finished_immediately_when_no_snapshot_was_ever_supplied() {
    // A round created via catch-up completes as soon as it is completable.
    let mut ledger = test_ledger();
    ledger.set_completable(true);
    let mut driver = VotingRound::new(Voting::Yes, ledger, None);
    let out = driver.step(Event::PrevoteTimerElapsed).unwrap();
    assert!(out.finished);
}

#[test]
fn not_finished_while_previous_estimate_unfinalized() {
    let last = RoundState { estimate: Some((200, 20)), finalized: None };
    let mut ledger = test_ledger();
    ledger.set_completable(true);
    let mut driver = VotingRound::new(Voting::Yes, ledger, Some(last));
    let out = driver.step(Event::PrevoteTimerElapsed).unwrap();
    assert!(!out.finished);
}

#[test]
fn finished_when_previous_round_finalized_its_estimate() {
    let last = RoundState { estimate: Some((200, 20)), finalized: Some((250, 25)) };
    let mut ledger = test_ledger();
    ledger.set_completable(true);
    let mut driver = VotingRound::new(Voting::Yes, ledger, Some(last));
    let out = driver.step(Event::PrecommitTimerElapsed).unwrap();
    assert!(out.finished);
}

#[test]
fn finished_when_current_round_finalized_the_estimate() {
    // The previous round has not finalized its estimate, but this round's
    // ledger reports a finalized block at or beyond it.
    let last = RoundState { estimate: Some((200, 20)), finalized: None };
    let mut ledger = test_ledger();
    ledger.set_completable(true);
    ledger.set_finalized(250, 25);
    let mut driver = VotingRound::new(Voting::Yes, ledger, Some(last));
    let out = driver.step(Event::PrevoteTimerElapsed).unwrap();
    assert!(out.finished);
}

#[test]
fn snapshot_without_estimate_keeps_the_round_running() {
    let last = RoundState { estimate: None, finalized: None };
    let mut ledger = test_ledger();
    ledger.set_completable(true);
    let mut driver = VotingRound::new(Voting::Yes, ledger, Some(last));
    let out = driver.step(Event::PrevoteTimerElapsed).unwrap();
    assert!(!out.finished);
}

#[test]
fn later_snapshot_replaces_the_cached_one() {
    let stale = RoundState { estimate: Some((200, 20)), finalized: None };
    let mut ledger = test_ledger();
    ledger.set_completable(true);
    let mut driver = VotingRound::new(Voting::Yes, ledger, Some(stale));
    let fresh = RoundState { estimate: Some((200, 20)), finalized: Some((200, 20)) };
    let out = driver.step(Event::LastRoundState(fresh)).unwrap();
    assert_eq!(driver.last_round_state, Some(fresh));
    assert!(out.finished);
}

#[test]
fn message_target_names_the_voted_block() {
    let m = Message::Prevote(Prevote { target_hash: 7, target_number: 70 });
    assert_eq!(m.target(), (7, 70));
    let m = Message::Precommit(Precommit { target_hash: 8, target_number: 80 });
    assert_eq!(m.target(), (8, 80));
    let m = Message::PrimaryPropose(PrimaryPropose { target_hash: 9, target_number: 90 });
    assert_eq!(m.target(), (9, 90));
}

#[test]
fn voting_roles() {
    assert!(!Voting::No.is_active());
    assert!(Voting::Yes.is_active());
    assert!(Voting::Primary.is_active());
    assert!(!Voting::No.is_primary());
    assert!(!Voting::Yes.is_primary());
    assert!(Voting::Primary.is_primary());
}

#[test]
fn phase_names() {
    assert_eq!(Phase::Start.name(), "Start");
    assert_eq!(Phase::Proposed.name(), "Proposed");
    assert_eq!(Phase::Prevoted.name(), "Prevoted");
    assert_eq!(Phase::Precommitted.name(), "Precommitted");
}

#[test]
fn ledger_accessors_report_construction_values() {
    let ledger = test_ledger();
    assert_eq!(ledger.base(), (100, 10));
    assert_eq!(ledger.round_number(), 1);
    assert_eq!(ledger.primary_voter(), 1);
    assert!(!ledger.is_completable());
    assert_eq!(ledger.finalized_block(), None);
}

#[test]
fn import_error_aborts_the_step() {
    let last = RoundState { estimate: None, finalized: None };
    let mut driver = VotingRound::new(Voting::Yes, test_ledger(), Some(last));
    let res = driver.step(Event::Vote { message: prevote_msg(9, 7, 200, 20), target_in_chain: true });
    assert_eq!(res, Err(RoundError::UnknownVoter));
    // The failed step ran no phase logic.
    assert_eq!(driver.phase, Some(Phase::Start));
}
