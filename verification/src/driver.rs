//! The per-round driver: a state machine that sequences the proposal,
//! prevote and precommit phases of one voting round, absorbs incoming
//! votes, and decides when the round may safely terminate.
//!
//! The driver is event-driven. The embedder waits on its timers, its
//! incoming message stream and the previous round's update stream, and
//! hands the driver exactly one [`Event`] at a time; the driver answers
//! with a [`StepOutcome`] naming the messages to send, the equivocations
//! to report, and whether the round is finished. Every transition is
//! pinned down by [`step_spec`].

use vstd::prelude::*;

use crate::data::{
    progress_rank, Commit, Equivocation, Message, Phase, Precommit, Prevote, PrimaryPropose,
    RoundError, RoundState, SignedMessage, SignedPrecommit, Voting,
};
use crate::ledger::{
    import_precommit_spec, import_prevote_spec, Ledger, LedgerModel,
};

verus! {

/// An external happening the round driver reacts to. Exactly one event is
/// consumed per step; the embedder's scheduler picks which source is
/// served first, and correctness does not depend on that order.
#[derive(Clone, Copy, PartialEq, Eq, Debug)]
pub enum Event {
    /// A signed vote arrived. `target_in_chain` is the environment's
    /// answer to the ancestry query: whether the vote's target equals the
    /// round base or descends from it.
    Vote { message: SignedMessage, target_in_chain: bool },
    /// The previous round reported fresh progress.
    LastRoundState(RoundState),
    /// The prevote catch-up timer elapsed.
    PrevoteTimerElapsed,
    /// The precommit catch-up timer elapsed.
    PrecommitTimerElapsed,
}

/// What handling one vote asks of the environment: at most one
/// equivocation report, keyed by the kind of vote that conflicted.
#[derive(Clone, Copy, PartialEq, Eq, Debug)]
pub struct VoteOutcome {
    pub prevote_equivocation: Option<Equivocation>,
    pub precommit_equivocation: Option<Equivocation>,
}

/// A vote outcome that asks for nothing.
pub open spec fn no_report() -> VoteOutcome {
    VoteOutcome { prevote_equivocation: None, precommit_equivocation: None }
}

/// Everything one step asks of the environment, in the order it must be
/// performed: report equivocations, send the primary propose hint (and
/// notify that this node proposed it), send the prevote, send the
/// precommit. `finished` says the round may stop being driven.
#[derive(Clone, Copy, PartialEq, Eq, Debug)]
pub struct StepOutcome {
    pub prevote_equivocation: Option<Equivocation>,
    pub precommit_equivocation: Option<Equivocation>,
    pub propose: Option<PrimaryPropose>,
    pub prevote: Option<Prevote>,
    pub precommit: Option<Precommit>,
    pub finished: bool,
}

/// Mathematical model of a [`Commit`].
#[verifier::ext_equal]
pub struct CommitModel {
    pub target_hash: u64,
    pub target_number: u64,
    pub precommits: Seq<SignedPrecommit>,
}

impl View for Commit {
    type V = CommitModel;

    open spec fn view(&self) -> CommitModel {
        CommitModel {
            target_hash: self.target_hash,
            target_number: self.target_number,
            precommits: self.precommits@,
        }
    }
}

/// Model of an optional best-finalized commit.
pub open spec fn opt_commit_model(c: Option<Commit>) -> Option<CommitModel> {
    match c {
        None => None,
        Some(x) => Some(x@),
    }
}

/// Logic for a voter on a specific round.
pub struct VotingRound {
    /// Whether this node votes, and whether it is the primary proposer.
    pub voting: Voting,
    /// This round's ledger, exclusively owned by the driver.
    pub ledger: Ledger,
    /// The current phase; `None` means the driver only absorbs events and
    /// runs no phase logic.
    pub phase: Option<Phase>,
    /// The primary voter's hint, once one was accepted.
    pub primary_block: Option<(u64, u64)>,
    /// The best commit seen for this round, archived by the orchestrator.
    pub best_finalized: Option<Commit>,
    /// The latest snapshot of the previous round's progress; `None` means
    /// none was ever supplied.
    pub last_round_state: Option<RoundState>,
    /// Whether the prevote catch-up timer has elapsed.
    pub prevote_timer_ready: bool,
    /// Whether the precommit catch-up timer has elapsed.
    pub precommit_timer_ready: bool,
}

/// Mathematical model of a [`VotingRound`].
#[verifier::ext_equal]
pub struct VotingRoundModel {
    pub voting: Voting,
    pub ledger: LedgerModel,
    pub phase: Option<Phase>,
    pub primary_block: Option<(u64, u64)>,
    pub best_finalized: Option<CommitModel>,
    pub last_round_state: Option<RoundState>,
    pub prevote_timer_ready: bool,
    pub precommit_timer_ready: bool,
}

impl View for VotingRound {
    type V = VotingRoundModel;

    open spec fn view(&self) -> VotingRoundModel {
        VotingRoundModel {
            voting: self.voting,
            ledger: self.ledger@,
            phase: self.phase,
            primary_block: self.primary_block,
            best_finalized: opt_commit_model(self.best_finalized),
            last_round_state: self.last_round_state,
            prevote_timer_ready: self.prevote_timer_ready,
            precommit_timer_ready: self.precommit_timer_ready,
        }
    }
}

/// Whether a primary hint is sent, and which: only a primary-role driver
/// sends one, only when the previous round has an estimate, and only when
/// that estimate is not already at or below the previous round's
/// finalized block.
pub open spec fn propose_decision(voting: Voting, last: RoundState) -> Option<PrimaryPropose> {
    if voting is Primary {
        match last.estimate {
            None => None,
            Some(e) => {
                let not_yet_finalized = match last.finalized {
                    None => true,
                    Some(f) => e.1 > f.1,
                };
                if not_yet_finalized {
                    Some(PrimaryPropose { target_hash: e.0, target_number: e.1 })
                } else {
                    None
                }
            },
        }
    } else {
        None
    }
}

/// Whether a prevote is due, and which: the phase advances once the
/// ledger reports the round completable or the catch-up timer elapsed,
/// and an active voter then casts the ledger's current safe candidate.
pub open spec fn prevote_decision(
    voting: Voting,
    completable: bool,
    candidate: (u64, u64),
    timer_ready: bool,
) -> (bool, Option<Prevote>) {
    let advance = timer_ready || completable;
    if advance && voting.active() {
        (true, Some(Prevote { target_hash: candidate.0, target_number: candidate.1 }))
    } else {
        (advance, None)
    }
}

/// The precommit twin of [`prevote_decision`].
pub open spec fn precommit_decision(
    voting: Voting,
    completable: bool,
    candidate: (u64, u64),
    timer_ready: bool,
) -> (bool, Option<Precommit>) {
    let advance = timer_ready || completable;
    if advance && voting.active() {
        (true, Some(Precommit { target_hash: candidate.0, target_number: candidate.1 }))
    } else {
        (advance, None)
    }
}

/// What handling one vote does to the driver. A vote whose target is not
/// in the base's chain is dropped without any effect; prevotes and
/// precommits go to the ledger; a primary propose hint is cached only if
/// its signer is the round's designated primary voter.
pub open spec fn handle_vote_spec(
    d: VotingRoundModel,
    vote: SignedMessage,
    target_in_chain: bool,
) -> (VotingRoundModel, Result<VoteOutcome, RoundError>) {
    if !target_in_chain {
        (d, Ok(no_report()))
    } else {
        match vote.message {
            Message::Prevote(p) => {
                let (l2, r) = import_prevote_spec(d.ledger, p, vote.id, vote.signature);
                match r {
                    Ok(eq) => (
                        (VotingRoundModel { ledger: l2, ..d }),
                        Ok(
                            VoteOutcome {
                                prevote_equivocation: eq,
                                precommit_equivocation: None,
                            },
                        ),
                    ),
                    Err(e) => (d, Err(e)),
                }
            },
            Message::Precommit(p) => {
                let (l2, r) = import_precommit_spec(d.ledger, p, vote.id, vote.signature);
                match r {
                    Ok(eq) => (
                        (VotingRoundModel { ledger: l2, ..d }),
                        Ok(
                            VoteOutcome {
                                prevote_equivocation: None,
                                precommit_equivocation: eq,
                            },
                        ),
                    ),
                    Err(e) => (d, Err(e)),
                }
            },
            Message::PrimaryPropose(pp) => {
                if vote.id == d.ledger.primary {
                    (
                        (VotingRoundModel {
                            primary_block: Some((pp.target_hash, pp.target_number)),
                            ..d
                        }),
                        Ok(no_report()),
                    )
                } else {
                    (d, Ok(no_report()))
                }
            },
        }
    }
}

/// The phase progression run once per step, after the event was absorbed.
/// Without a snapshot of the previous round no phase advances; with one,
/// `Start` may propose and prevote, `Proposed` may prevote, `Prevoted`
/// may precommit, and `Precommitted` only idles.
pub open spec fn phase_logic_spec(d: VotingRoundModel) -> (
    VotingRoundModel,
    Option<PrimaryPropose>,
    Option<Prevote>,
    Option<Precommit>,
) {
    match d.phase {
        Some(Phase::Start) => match d.last_round_state {
            None => (d, None, None, None),
            Some(last) => {
                let propose = propose_decision(d.voting, last);
                let (prevoted, pv) = prevote_decision(
                    d.voting,
                    d.ledger.completable,
                    d.ledger.candidate,
                    d.prevote_timer_ready,
                );
                let phase = if prevoted {
                    Some(Phase::Prevoted)
                } else if propose is Some {
                    Some(Phase::Proposed)
                } else {
                    Some(Phase::Start)
                };
                ((VotingRoundModel { phase, ..d }), propose, pv, None)
            },
        },
        Some(Phase::Proposed) => match d.last_round_state {
            None => (d, None, None, None),
            Some(last) => {
                let (prevoted, pv) = prevote_decision(
                    d.voting,
                    d.ledger.completable,
                    d.ledger.candidate,
                    d.prevote_timer_ready,
                );
                let phase = if prevoted {
                    Some(Phase::Prevoted)
                } else {
                    Some(Phase::Proposed)
                };
                ((VotingRoundModel { phase, ..d }), None, pv, None)
            },
        },
        Some(Phase::Prevoted) => match d.last_round_state {
            None => (d, None, None, None),
            Some(last) => {
                let (precommitted, pc) = precommit_decision(
                    d.voting,
                    d.ledger.completable,
                    d.ledger.candidate,
                    d.precommit_timer_ready,
                );
                let phase = if precommitted {
                    Some(Phase::Precommitted)
                } else {
                    Some(Phase::Prevoted)
                };
                ((VotingRoundModel { phase, ..d }), None, None, pc)
            },
        },
        Some(Phase::Precommitted) => (d, None, None, None),
        None => (d, None, None, None),
    }
}

/// Whether the previous round's estimate is already finalized: trivially
/// so when no snapshot was ever supplied (the round was created via
/// catch-up), otherwise the snapshot must carry an estimate that is at or
/// below either the previous round's finalized block or this round's.
pub open spec fn last_estimate_finalized(
    last: Option<RoundState>,
    current_finalized: Option<(u64, u64)>,
) -> bool {
    match last {
        None => true,
        Some(s) => match s.estimate {
            None => false,
            Some(e) => {
                let in_last_round = match s.finalized {
                    None => false,
                    Some(f) => e.1 <= f.1,
                };
                let in_current_round = match current_finalized {
                    None => false,
                    Some(cf) => e.1 <= cf.1,
                };
                in_last_round || in_current_round
            },
        },
    }
}

/// The round may stop being driven only when the ledger reports it
/// completable and the previous round's estimate is finalized.
pub open spec fn finish_decision(d: VotingRoundModel) -> bool {
    d.ledger.completable && last_estimate_finalized(d.last_round_state, d.ledger.finalized)
}

/// One full step: absorb the event, run the phase logic, and decide
/// completion. An import error aborts the step before any phase logic.
pub open spec fn step_spec(d: VotingRoundModel, ev: Event) -> (
    VotingRoundModel,
    Result<StepOutcome, RoundError>,
) {
    let (d1, vres) = match ev {
        Event::Vote { message, target_in_chain } => handle_vote_spec(d, message, target_in_chain),
        Event::LastRoundState(rs) => (
            (VotingRoundModel { last_round_state: Some(rs), ..d }),
            Ok(no_report()),
        ),
        Event::PrevoteTimerElapsed => (
            (VotingRoundModel { prevote_timer_ready: true, ..d }),
            Ok(no_report()),
        ),
        Event::PrecommitTimerElapsed => (
            (VotingRoundModel { precommit_timer_ready: true, ..d }),
            Ok(no_report()),
        ),
    };
    match vres {
        Err(e) => (d1, Err(e)),
        Ok(vo) => {
            let (d2, propose, prevote, precommit) = phase_logic_spec(d1);
            (
                d2,
                Ok(
                    StepOutcome {
                        prevote_equivocation: vo.prevote_equivocation,
                        precommit_equivocation: vo.precommit_equivocation,
                        propose,
                        prevote,
                        precommit,
                        finished: finish_decision(d2),
                    },
                ),
            )
        },
    }
}

impl VotingRound {
    /// A fresh driver in the `Start` phase, with both timer flags clear.
    pub fn new(voting: Voting, ledger: Ledger, last_round_state: Option<RoundState>) -> (r:
        VotingRound)
        ensures
            r@ == (VotingRoundModel {
                voting,
                ledger: ledger@,
                phase: Some(Phase::Start),
                primary_block: None,
                best_finalized: None,
                last_round_state,
                prevote_timer_ready: false,
                precommit_timer_ready: false,
            }),
    {
        VotingRound {
            voting,
            ledger,
            phase: Some(Phase::Start),
            primary_block: None,
            best_finalized: None,
            last_round_state,
            prevote_timer_ready: false,
            precommit_timer_ready: false,
        }
    }

    /// Handles one incoming signed vote, exactly as [`handle_vote_spec`]
    /// describes. `target_in_chain` is the environment's ancestry answer
    /// for the vote's target against the round base; a vote outside the
    /// base's chain is dropped silently, with no effect at all.
    pub fn handle_vote(&mut self, vote: SignedMessage, target_in_chain: bool) -> (r: Result<
        VoteOutcome,
        RoundError,
    >)
        ensures
            ({
                let (post, res) = handle_vote_spec(old(self)@, vote, target_in_chain);
                final(self)@ == post && r == res
            }),
            !target_in_chain ==> final(self)@ == old(self)@ && r == Ok::<
                VoteOutcome,
                RoundError,
            >(no_report()),
    {
        if !target_in_chain {
            return Ok(VoteOutcome { prevote_equivocation: None, precommit_equivocation: None });
        }
        match vote.message {
            Message::Prevote(p) => {
                match self.ledger.import_prevote(p, vote.id, vote.signature) {
                    Ok(eq) => {
                        Ok(VoteOutcome { prevote_equivocation: eq, precommit_equivocation: None })
                    },
                    Err(e) => {
                        Err(e)
                    },
                }
            },
            Message::Precommit(p) => {
                match self.ledger.import_precommit(p, vote.id, vote.signature) {
                    Ok(eq) => {
                        Ok(VoteOutcome { prevote_equivocation: None, precommit_equivocation: eq })
                    },
                    Err(e) => {
                        Err(e)
                    },
                }
            },
            Message::PrimaryPropose(pp) => {
                let primary_id = self.ledger.primary_voter();
                if vote.id == primary_id {
                    self.primary_block = Some((pp.target_hash, pp.target_number));
                }
                Ok(VoteOutcome { prevote_equivocation: None, precommit_equivocation: None })
            },
        }
    }

    /// Decides whether to send the primary propose hint for the previous
    /// round's estimate. A hint already at or below the previous round's
    /// finalized block is redundant and never sent.
    pub fn primary_propose(&self, last_round_state: &RoundState) -> (r: Option<PrimaryPropose>)
        ensures
            r == propose_decision(self.voting, *last_round_state),
            (last_round_state.estimate matches Some(e) && last_round_state.finalized matches Some(f)
                && e.1 <= f.1) ==> r is None,
    {
        if !self.voting.is_primary() {
            return None;
        }
        match last_round_state.estimate {
            None => None,
            Some(e) => {
                let not_yet_finalized = match last_round_state.finalized {
                    None => true,
                    Some(f) => e.1 > f.1,
                };
                if not_yet_finalized {
                    Some(PrimaryPropose { target_hash: e.0, target_number: e.1 })
                } else {
                    None
                }
            },
        }
    }

    /// Decides whether the prevote stage is over and which prevote, if
    /// any, this node casts. The snapshot parameter is part of the casting
    /// interface; the candidate itself is the ledger's.
    pub fn prevote(&self, prevote_timer_ready: bool, last_round_state: &RoundState) -> (r: (
        bool,
        Option<Prevote>,
    ))
        ensures
            r == prevote_decision(
                self.voting,
                self.ledger@.completable,
                self.ledger@.candidate,
                prevote_timer_ready,
            ),
    {
        let advance = prevote_timer_ready || self.ledger.is_completable();
        if advance && self.voting.is_active() {
            let candidate = self.ledger.candidate;
            (true, Some(Prevote { target_hash: candidate.0, target_number: candidate.1 }))
        } else {
            (advance, None)
        }
    }

    /// The precommit twin of [`VotingRound::prevote`].
    pub fn precommit(&self, precommit_timer_ready: bool, last_round_state: &RoundState) -> (r: (
        bool,
        Option<Precommit>,
    ))
        ensures
            r == precommit_decision(
                self.voting,
                self.ledger@.completable,
                self.ledger@.candidate,
                precommit_timer_ready,
            ),
    {
        let advance = precommit_timer_ready || self.ledger.is_completable();
        if advance && self.voting.is_active() {
            let candidate = self.ledger.candidate;
            (true, Some(Precommit { target_hash: candidate.0, target_number: candidate.1 }))
        } else {
            (advance, None)
        }
    }

    /// Whether the round may stop being driven: the ledger must report it
    /// completable, and the previous round's estimate must be finalized in
    /// either round (or no snapshot was ever supplied).
    pub fn round_finishable(&self) -> (r: bool)
        ensures
            r == finish_decision(self@),
    {
        if !self.ledger.is_completable() {
            return false;
        }
        match self.last_round_state {
            None => true,
            Some(s) => match s.estimate {
                None => false,
                Some(e) => {
                    let in_last_round = match s.finalized {
                        None => false,
                        Some(f) => e.1 <= f.1,
                    };
                    let in_current_round = match self.ledger.finalized {
                        None => false,
                        Some(cf) => e.1 <= cf.1,
                    };
                    in_last_round || in_current_round
                },
            },
        }
    }

    /// Runs one iteration of the round: absorbs exactly one event, runs
    /// the phase logic, and reports what to send and whether the round is
    /// finished — exactly as [`step_spec`] describes.
    pub fn step(&mut self, ev: Event) -> (r: Result<StepOutcome, RoundError>)
        ensures
            ({
                let (post, res) = step_spec(old(self)@, ev);
                final(self)@ == post && r == res
            }),
            progress_rank(old(self)@.phase) <= progress_rank(final(self)@.phase),
            (match r {
                Ok(out) => out.finished == finish_decision(final(self)@) && (out.propose is Some
                    ==> old(self)@.voting is Primary && old(self)@.phase == Some(Phase::Start)
                    && final(self)@.phase != Some(Phase::Start)),
                Err(_) => final(self)@.phase == old(self)@.phase,
            }),
    {
        let mut outcome = StepOutcome {
            prevote_equivocation: None,
            precommit_equivocation: None,
            propose: None,
            prevote: None,
            precommit: None,
            finished: false,
        };
        match ev {
            Event::Vote { message, target_in_chain } => {
                match self.handle_vote(message, target_in_chain) {
                    Ok(vo) => {
                        outcome.prevote_equivocation = vo.prevote_equivocation;
                        outcome.precommit_equivocation = vo.precommit_equivocation;
                    },
                    Err(e) => {
                        return Err(e);
                    },
                }
            },
            Event::LastRoundState(rs) => {
                self.last_round_state = Some(rs);
            },
            Event::PrevoteTimerElapsed => {
                self.prevote_timer_ready = true;
            },
            Event::PrecommitTimerElapsed => {
                self.precommit_timer_ready = true;
            },
        }
        match self.phase {
            Some(Phase::Start) => {
                match self.last_round_state {
                    None => {},
                    Some(last) => {
                        let propose = self.primary_propose(&last);
                        let (prevoted, pv) = self.prevote(self.prevote_timer_ready, &last);
                        if prevoted {
                            self.phase = Some(Phase::Prevoted);
                            outcome.prevote = pv;
                        } else if propose.is_some() {
                            self.phase = Some(Phase::Proposed);
                        }
                        outcome.propose = propose;
                    },
                }
            },
            Some(Phase::Proposed) => {
                match self.last_round_state {
                    None => {},
                    Some(last) => {
                        let (prevoted, pv) = self.prevote(self.prevote_timer_ready, &last);
                        if prevoted {
                            self.phase = Some(Phase::Prevoted);
                            outcome.prevote = pv;
                        }
                    },
                }
            },
            Some(Phase::Prevoted) => {
                match self.last_round_state {
                    None => {},
                    Some(last) => {
                        let (precommitted, pc) = self.precommit(self.precommit_timer_ready, &last);
                        if precommitted {
                            self.phase = Some(Phase::Precommitted);
                            outcome.precommit = pc;
                        }
                    },
                }
            },
            Some(Phase::Precommitted) => {},
            None => {},
        }
        outcome.finished = self.round_finishable();
        Ok(outcome)
    }
}

} // verus!
