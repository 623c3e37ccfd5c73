//! Claim adjudication over a pooled insurance fund.
//!
//! A singleton pool holds deposited funds and aggregate counters. Claimants
//! open claims against the pool; voters adjudicate each claim during a fixed
//! 72-hour window; after the deadline a claim with a quorum of votes is
//! finalized to Approved or Rejected by a two-thirds approval threshold, and
//! an approved claim can then be paid out from the pool under dual
//! authorization (claimant and pool authority).
//!
//! The host environment supplies the clock and moves real funds; every
//! operation here takes the current time and the acting identities as plain
//! values and is verified against its contract.
use vstd::prelude::*;

pub mod claim;
pub mod engine;
pub mod errors;
pub mod pool;
pub mod votes;

pub use claim::{create_claim, finalize_claim, payout_claim, Claim, ClaimStatus};
pub use engine::AdjudicationEngine;
pub use errors::ErrorCode;
pub use pool::{deposit, initialize, update_coverage_limit, InsurancePool};
pub use votes::{vote_on_claim, Vote, VoteLedger};

verus! {

/// Minimum size of a claim, in the pool's base unit.
pub const MIN_CLAIM_AMOUNT: u64 = 100_000_000;

/// Length of the voting window that starts when a claim is created.
pub const VOTING_PERIOD_SECS: i64 = 72 * 3600;

/// Minimum number of total votes a claim needs before it can be finalized.
pub const QUORUM: u64 = 3;

/// A claim is approved when votes_for / total_votes >= 66 / 100.
pub const APPROVAL_THRESHOLD_NUMERATOR: u64 = 66;

/// Denominator of the approval threshold ratio.
pub const APPROVAL_THRESHOLD_DENOMINATOR: u64 = 100;

/// An identity in the host ledger: a pool authority, claimant, depositor or
/// voter. Opaque to the adjudication logic, which only compares identities.
pub type AccountId = u64;

/// A point in time, in seconds, as handed in by the host clock.
pub type Timestamp = i64;

} // verus!
