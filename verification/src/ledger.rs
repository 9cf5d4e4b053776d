//! The round ledger: it accumulates signed prevotes and precommits,
//! detects equivocations, and carries the round's identity (base, number,
//! primary voter) together with the tallying outcome the driver reads
//! (`completable`, `finalized`, the current safe vote candidate). The
//! threshold arithmetic that produces that outcome is the embedder's
//! concern; the ledger records whatever the tallying reports.

use vstd::prelude::*;

use crate::data::{Equivocation, Precommit, Prevote, RoundError};

verus! {

/// One recorded vote: who cast it, which block it targets, and the
/// signature kept as evidence.
#[derive(Clone, Copy, PartialEq, Eq, Debug)]
pub struct Cast {
    pub voter: u64,
    pub target_hash: u64,
    pub target_number: u64,
    pub signature: u64,
}

/// All votes of one kind seen so far, in arrival order, plus the voters
/// whose equivocation has already been reported.
#[derive(PartialEq, Eq, Debug)]
pub struct VoteLog {
    pub votes: Vec<Cast>,
    pub equivocators: Vec<u64>,
}

/// Mathematical model of a [`VoteLog`].
#[verifier::ext_equal]
pub struct VoteLogModel {
    pub votes: Seq<Cast>,
    pub equivocators: Seq<u64>,
}

impl View for VoteLog {
    type V = VoteLogModel;

    open spec fn view(&self) -> VoteLogModel {
        VoteLogModel { votes: self.votes@, equivocators: self.equivocators@ }
    }
}

/// The first vote the given voter cast in this log, if any.
pub open spec fn first_cast(votes: Seq<Cast>, voter: u64) -> Option<Cast>
    decreases votes.len(),
{
    if votes.len() == 0 {
        None
    } else if votes[0].voter == voter {
        Some(votes[0])
    } else {
        first_cast(votes.drop_first(), voter)
    }
}

/// Appending a vote leaves every voter's first vote unchanged, except that
/// a voter without one gains the appended vote as their first.
pub proof fn lemma_first_cast_push(votes: Seq<Cast>, c: Cast, voter: u64)
    ensures
        first_cast(votes.push(c), voter) == (match first_cast(votes, voter) {
            Some(f) => Some(f),
            None => if c.voter == voter {
                Some(c)
            } else {
                None::<Cast>
            },
        }),
    decreases votes.len(),
{
    if votes.len() == 0 {
        assert(votes.push(c)[0] == c);
        if c.voter != voter {
            assert(votes.push(c).drop_first() =~= Seq::<Cast>::empty());
        }
    } else {
        assert(votes.push(c)[0] == votes[0]);
        assert(votes.push(c).drop_first() =~= votes.drop_first().push(c));
        lemma_first_cast_push(votes.drop_first(), c, voter);
    }
}

/// What importing one vote does to a log: reject a signer outside the
/// voter set; record a first vote; ignore an exact duplicate of the
/// signer's first vote; record a conflicting vote, reporting the
/// equivocation the first time and only recording it afterwards.
pub open spec fn import_spec(
    log: VoteLogModel,
    voters: Seq<u64>,
    round_number: u64,
    c: Cast,
) -> (VoteLogModel, Result<Option<Equivocation>, RoundError>) {
    if !voters.contains(c.voter) {
        (log, Err(RoundError::UnknownVoter))
    } else {
        match first_cast(log.votes, c.voter) {
            None => (
                VoteLogModel { votes: log.votes.push(c), equivocators: log.equivocators },
                Ok(None),
            ),
            Some(f) => {
                if c.target_hash == f.target_hash && c.target_number == f.target_number {
                    (log, Ok(None))
                } else if log.equivocators.contains(c.voter) {
                    (
                        VoteLogModel { votes: log.votes.push(c), equivocators: log.equivocators },
                        Ok(None),
                    )
                } else {
                    (
                        VoteLogModel {
                            votes: log.votes.push(c),
                            equivocators: log.equivocators.push(c.voter),
                        },
                        Ok(
                            Some(
                                Equivocation {
                                    round_number,
                                    identity: c.voter,
                                    first_target_hash: f.target_hash,
                                    first_target_number: f.target_number,
                                    first_signature: f.signature,
                                    second_target_hash: c.target_hash,
                                    second_target_number: c.target_number,
                                    second_signature: c.signature,
                                },
                            ),
                        ),
                    )
                }
            },
        }
    }
}

/// Linear scan for membership of a voter id.
fn contains_id(ids: &Vec<u64>, x: u64) -> (b: bool)
    ensures
        b == ids@.contains(x),
{
    let mut i: usize = 0;
    while i < ids.len()
        invariant
            0 <= i <= ids@.len(),
            forall|j: int| 0 <= j < i ==> ids@[j] != x,
        decreases ids@.len() - i,
    {
        if ids[i] == x {
            return true;
        }
        i += 1;
    }
    false
}

/// Linear scan for the first vote a voter cast.
fn find_first_cast(votes: &Vec<Cast>, voter: u64) -> (r: Option<Cast>)
    ensures
        r == first_cast(votes@, voter),
{
    proof {
        assert(votes@.skip(0) =~= votes@);
    }
    let mut i: usize = 0;
    while i < votes.len()
        invariant
            0 <= i <= votes@.len(),
            first_cast(votes@, voter) == first_cast(votes@.skip(i as int), voter),
        decreases votes@.len() - i,
    {
        let v = votes[i];
        if v.voter == voter {
            proof {
                assert(votes@.skip(i as int)[0] == votes@[i as int]);
            }
            return Some(v);
        }
        proof {
            assert(votes@.skip(i as int).drop_first() =~= votes@.skip(i as int + 1));
        }
        i += 1;
    }
    proof {
        assert(votes@.skip(votes@.len() as int).len() == 0);
    }
    None
}

impl VoteLog {
    /// An empty log: no votes, no reported equivocators.
    pub fn new() -> (r: VoteLog)
        ensures
            r@.votes == Seq::<Cast>::empty(),
            r@.equivocators == Seq::<u64>::empty(),
    {
        VoteLog { votes: Vec::new(), equivocators: Vec::new() }
    }

    /// Imports one vote, exactly as [`import_spec`] describes.
    pub fn import(&mut self, voters: &Vec<u64>, round_number: u64, c: Cast) -> (r: Result<
        Option<Equivocation>,
        RoundError,
    >)
        ensures
            ({
                let (post, res) = import_spec(old(self)@, voters@, round_number, c);
                final(self)@ == post && r == res
            }),
    {
        if !contains_id(voters, c.voter) {
            return Err(RoundError::UnknownVoter);
        }
        match find_first_cast(&self.votes, c.voter) {
            None => {
                self.votes.push(c);
                Ok(None)
            },
            Some(f) => {
                if c.target_hash == f.target_hash && c.target_number == f.target_number {
                    Ok(None)
                } else if contains_id(&self.equivocators, c.voter) {
                    self.votes.push(c);
                    Ok(None)
                } else {
                    self.votes.push(c);
                    self.equivocators.push(c.voter);
                    Ok(
                        Some(
                            Equivocation {
                                round_number,
                                identity: c.voter,
                                first_target_hash: f.target_hash,
                                first_target_number: f.target_number,
                                first_signature: f.signature,
                                second_target_hash: c.target_hash,
                                second_target_number: c.target_number,
                                second_signature: c.signature,
                            },
                        ),
                    )
                }
            },
        }
    }
}

/// The state a round ledger carries.
#[derive(PartialEq, Eq, Debug)]
pub struct Ledger {
    /// The lowest block this round's votes may target.
    pub base_hash: u64,
    pub base_number: u64,
    /// The round's number.
    pub number: u64,
    /// The round's designated primary voter.
    pub primary: u64,
    /// The round's voter set; votes from anyone else are structural faults.
    pub voters: Vec<u64>,
    pub prevotes: VoteLog,
    pub precommits: VoteLog,
    /// Whether the tallying reports that no further vote could change the
    /// round's outcome.
    pub completable: bool,
    /// The block this round's tallying has finalized, if any.
    pub finalized: Option<(u64, u64)>,
    /// The tallying's current safe vote candidate; starts at the base.
    pub candidate: (u64, u64),
}

/// Mathematical model of a [`Ledger`].
#[verifier::ext_equal]
pub struct LedgerModel {
    pub base: (u64, u64),
    pub number: u64,
    pub primary: u64,
    pub voters: Seq<u64>,
    pub prevotes: VoteLogModel,
    pub precommits: VoteLogModel,
    pub completable: bool,
    pub finalized: Option<(u64, u64)>,
    pub candidate: (u64, u64),
}

impl View for Ledger {
    type V = LedgerModel;

    open spec fn view(&self) -> LedgerModel {
        LedgerModel {
            base: (self.base_hash, self.base_number),
            number: self.number,
            primary: self.primary,
            voters: self.voters@,
            prevotes: self.prevotes@,
            precommits: self.precommits@,
            completable: self.completable,
            finalized: self.finalized,
            candidate: self.candidate,
        }
    }
}

/// Importing a prevote touches only the prevote log.
pub open spec fn import_prevote_spec(l: LedgerModel, prevote: Prevote, id: u64, signature: u64) -> (
    LedgerModel,
    Result<Option<Equivocation>, RoundError>,
) {
    let c = Cast {
        voter: id,
        target_hash: prevote.target_hash,
        target_number: prevote.target_number,
        signature,
    };
    let (log, r) = import_spec(l.prevotes, l.voters, l.number, c);
    (LedgerModel { prevotes: log, ..l }, r)
}

/// Importing a precommit touches only the precommit log.
pub open spec fn import_precommit_spec(
    l: LedgerModel,
    precommit: Precommit,
    id: u64,
    signature: u64,
) -> (LedgerModel, Result<Option<Equivocation>, RoundError>) {
    let c = Cast {
        voter: id,
        target_hash: precommit.target_hash,
        target_number: precommit.target_number,
        signature,
    };
    let (log, r) = import_spec(l.precommits, l.voters, l.number, c);
    (LedgerModel { precommits: log, ..l }, r)
}

impl Ledger {
    /// A fresh ledger for one round: empty vote logs, not completable,
    /// nothing finalized, and the base as the initial vote candidate.
    pub fn new(base_hash: u64, base_number: u64, number: u64, primary: u64, voters: Vec<u64>) -> (r:
        Ledger)
        ensures
            r@.base == (base_hash, base_number),
            r@.number == number,
            r@.primary == primary,
            r@.voters == voters@,
            r@.prevotes.votes == Seq::<Cast>::empty(),
            r@.prevotes.equivocators == Seq::<u64>::empty(),
            r@.precommits.votes == Seq::<Cast>::empty(),
            r@.precommits.equivocators == Seq::<u64>::empty(),
            !r@.completable,
            r@.finalized is None,
            r@.candidate == (base_hash, base_number),
    {
        Ledger {
            base_hash,
            base_number,
            number,
            primary,
            voters,
            prevotes: VoteLog::new(),
            precommits: VoteLog::new(),
            completable: false,
            finalized: None,
            candidate: (base_hash, base_number),
        }
    }

    /// Imports one signed prevote; on an equivocation the evidence is
    /// returned once and the vote is still recorded.
    pub fn import_prevote(&mut self, prevote: Prevote, id: u64, signature: u64) -> (r: Result<
        Option<Equivocation>,
        RoundError,
    >)
        ensures
            ({
                let (post, res) = import_prevote_spec(old(self)@, prevote, id, signature);
                final(self)@ == post && r == res
            }),
    {
        let c = Cast {
            voter: id,
            target_hash: prevote.target_hash,
            target_number: prevote.target_number,
            signature,
        };
        let r = self.prevotes.import(&self.voters, self.number, c);
        r
    }

    /// Imports one signed precommit; mirrors [`Ledger::import_prevote`].
    pub fn import_precommit(&mut self, precommit: Precommit, id: u64, signature: u64) -> (r: Result<
        Option<Equivocation>,
        RoundError,
    >)
        ensures
            ({
                let (post, res) = import_precommit_spec(old(self)@, precommit, id, signature);
                final(self)@ == post && r == res
            }),
    {
        let c = Cast {
            voter: id,
            target_hash: precommit.target_hash,
            target_number: precommit.target_number,
            signature,
        };
        let r = self.precommits.import(&self.voters, self.number, c);
        r
    }

    /// The lowest block this round's votes may target.
    pub fn base(&self) -> (r: (u64, u64))
        ensures
            r == self@.base,
    {
        (self.base_hash, self.base_number)
    }

    /// The round's number.
    pub fn round_number(&self) -> (r: u64)
        ensures
            r == self@.number,
    {
        self.number
    }

    /// The round's designated primary voter.
    pub fn primary_voter(&self) -> (r: u64)
        ensures
            r == self@.primary,
    {
        self.primary
    }

    /// Whether no further incoming vote could change the round's outcome.
    pub fn is_completable(&self) -> (r: bool)
        ensures
            r == self@.completable,
    {
        self.completable
    }

    /// The block this round has finalized, if any.
    pub fn finalized_block(&self) -> (r: Option<(u64, u64)>)
        ensures
            r == self@.finalized,
    {
        self.finalized
    }

    /// Records the tallying's verdict that the round became completable.
    pub fn set_completable(&mut self, completable: bool)
        ensures
            final(self)@ == (LedgerModel { completable, ..old(self)@ }),
    {
        self.completable = completable;
    }

    /// Records the block the tallying has finalized.
    pub fn set_finalized(&mut self, hash: u64, number: u64)
        ensures
            final(self)@ == (LedgerModel { finalized: Some((hash, number)), ..old(self)@ }),
    {
        self.finalized = Some((hash, number));
    }

    /// Records the tallying's current safe vote candidate.
    pub fn set_candidate(&mut self, hash: u64, number: u64)
        ensures
            final(self)@ == (LedgerModel { candidate: (hash, number), ..old(self)@ }),
    {
        self.candidate = (hash, number);
    }
}

} // verus!
