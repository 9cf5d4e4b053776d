//! Plain data carried through a voting round: block references, the three
//! message kinds, signed messages, snapshots of another round's progress,
//! voting roles, phases, and the round's error type.

use vstd::prelude::*;

verus! {

/// A prevote names the block the voter believes can be finalized.
#[derive(Clone, Copy, PartialEq, Eq, Debug)]
pub struct Prevote {
    pub target_hash: u64,
    pub target_number: u64,
}

/// A precommit confirms a block once enough prevotes were seen.
#[derive(Clone, Copy, PartialEq, Eq, Debug)]
pub struct Precommit {
    pub target_hash: u64,
    pub target_number: u64,
}

/// The primary voter's hint, sent before prevoting begins, naming the
/// block it suggests the round converge on.
#[derive(Clone, Copy, PartialEq, Eq, Debug)]
pub struct PrimaryPropose {
    pub target_hash: u64,
    pub target_number: u64,
}

/// One of the three message kinds voters exchange within a round.
#[derive(Clone, Copy, PartialEq, Eq, Debug)]
pub enum Message {
    Prevote(Prevote),
    Precommit(Precommit),
    PrimaryPropose(PrimaryPropose),
}

impl Message {
    /// The block a message speaks about, as a (hash, number) pair.
    pub open spec fn target_spec(self) -> (u64, u64) {
        match self {
            Message::Prevote(p) => (p.target_hash, p.target_number),
            Message::Precommit(p) => (p.target_hash, p.target_number),
            Message::PrimaryPropose(p) => (p.target_hash, p.target_number),
        }
    }

    /// Returns the block this message targets.
    pub fn target(&self) -> (t: (u64, u64))
        ensures
            t == self.target_spec(),
    {
        match self {
            Message::Prevote(p) => (p.target_hash, p.target_number),
            Message::Precommit(p) => (p.target_hash, p.target_number),
            Message::PrimaryPropose(p) => (p.target_hash, p.target_number),
        }
    }
}

/// A message together with the signature and the identity of the voter
/// who cast it. Signatures are opaque to the round logic; the ledger's
/// embedder validates them before votes reach the driver.
#[derive(Clone, Copy, PartialEq, Eq, Debug)]
pub struct SignedMessage {
    pub message: Message,
    pub signature: u64,
    pub id: u64,
}

/// A precommit with its signature and signer, as collected in a commit.
#[derive(Clone, Copy, PartialEq, Eq, Debug)]
pub struct SignedPrecommit {
    pub precommit: Precommit,
    pub signature: u64,
    pub id: u64,
}

/// A block target plus the precommits that justify finalizing it.
#[derive(PartialEq, Eq, Debug)]
pub struct Commit {
    pub target_hash: u64,
    pub target_number: u64,
    pub precommits: Vec<SignedPrecommit>,
}

/// A read-only view of another round's progress: its current estimate and
/// its finalized block, each as an optional (hash, number) pair. Used only
/// to decide whether this round's predecessor has caught up.
#[derive(Clone, Copy, PartialEq, Eq, Debug)]
pub struct RoundState {
    pub estimate: Option<(u64, u64)>,
    pub finalized: Option<(u64, u64)>,
}

/// Evidence that one voter signed two conflicting votes of the same kind
/// within this round: the voter's first vote and the conflicting one.
#[derive(Clone, Copy, PartialEq, Eq, Debug)]
pub struct Equivocation {
    pub round_number: u64,
    pub identity: u64,
    pub first_target_hash: u64,
    pub first_target_number: u64,
    pub first_signature: u64,
    pub second_target_hash: u64,
    pub second_target_number: u64,
    pub second_signature: u64,
}

/// A structural fault while importing a vote; it terminates the round.
#[derive(Clone, Copy, PartialEq, Eq, Debug)]
pub enum RoundError {
    /// The vote's signer is not a member of this round's voter set.
    UnknownVoter,
}

/// Whether this node votes in the current round.
#[derive(Clone, Copy, PartialEq, Eq, Debug)]
pub enum Voting {
    /// Voting is disabled for the current round.
    No,
    /// Voting is enabled for the current round (prevotes and precommits).
    Yes,
    /// Voting is enabled and this node is the round's primary proposer,
    /// so it may additionally send a primary propose hint.
    Primary,
}

impl Voting {
    /// Whether this role casts round votes (prevotes and precommits).
    pub open spec fn active(self) -> bool {
        self is Yes || self is Primary
    }

    /// Whether the voter should cast round votes (prevotes and precommits).
    pub fn is_active(&self) -> (r: bool)
        ensures
            r == self.active(),
    {
        match self {
            Voting::Yes => true,
            Voting::Primary => true,
            Voting::No => false,
        }
    }

    /// Whether the voter is the primary proposer.
    pub fn is_primary(&self) -> (r: bool)
        ensures
            r == (self is Primary),
    {
        match self {
            Voting::Primary => true,
            _ => false,
        }
    }
}

/// How far a round has progressed. Phases only ever move forward, in the
/// order `Start`, `Proposed`, `Prevoted`, `Precommitted`; `Proposed`
/// differs from `Start` only in that the primary hint has been sent.
#[derive(Clone, Copy, PartialEq, Eq, Debug)]
pub enum Phase {
    Start,
    Proposed,
    Prevoted,
    Precommitted,
}

impl Phase {
    /// Position of a phase in the round's fixed progression.
    pub open spec fn rank(self) -> int {
        match self {
            Phase::Start => 0,
            Phase::Proposed => 1,
            Phase::Prevoted => 2,
            Phase::Precommitted => 3,
        }
    }

    /// The phase's name, for reporting.
    pub fn name(&self) -> (r: &'static str)
        ensures
            self is Start ==> r@ == "Start"@,
            self is Proposed ==> r@ == "Proposed"@,
            self is Prevoted ==> r@ == "Prevoted"@,
            self is Precommitted ==> r@ == "Precommitted"@,
    {
        match self {
            Phase::Start => "Start",
            Phase::Proposed => "Proposed",
            Phase::Prevoted => "Prevoted",
            Phase::Precommitted => "Precommitted",
        }
    }
}

/// Rank of a driver's phase slot; `None` (phase logic not yet running)
/// sits below every real phase and never changes into one.
pub open spec fn progress_rank(p: Option<Phase>) -> int {
    match p {
        None => -1,
        Some(q) => q.rank(),
    }
}

} // verus!
