//! A driver for one round of a block-finality voting protocol.
//!
//! Weighted voters exchange prevote and precommit messages about blocks,
//! converging on an estimate and, once supermajority agreement is reached,
//! a finalized block. This crate holds the per-round logic: the phase state
//! machine that sequences proposal, prevoting and precommitting, the vote
//! intake with its base filter and equivocation reporting, and the check
//! that decides when the round may safely terminate. The embedder supplies
//! the event loop (timers, network streams) and feeds events in one at a
//! time.


pub mod data;
pub mod driver;
pub mod laws;
pub mod ledger;
