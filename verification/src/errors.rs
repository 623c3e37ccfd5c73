//! The error taxonomy of the adjudication engine.
use vstd::prelude::*;

verus! {

/// Why an operation was refused. Every failure leaves all records unchanged.
#[derive(Clone, Copy, Debug, PartialEq, Eq, Structural)]
pub enum ErrorCode {
    /// The claim amount is below the minimum claim size.
    ClaimTooSmall,
    /// The claim amount exceeds the pool's coverage limit.
    ExceedsCoverageLimit,
    /// The claim is not in pending status.
    ClaimNotPending,
    /// The voting period has ended.
    VotingPeriodEnded,
    /// The voting period has not ended yet.
    VotingPeriodNotEnded,
    /// Too few votes were cast to finalize the claim.
    InsufficientVotes,
    /// The claim is not approved.
    ClaimNotApproved,
    /// The pool does not hold enough funds to pay the claim.
    InsufficientPoolBalance,
    /// The caller is not the claimant of the claim.
    InvalidClaimant,
    /// The caller is not the pool authority.
    Unauthorized,
    /// A vote by this voter on this claim already exists.
    DuplicateVote,
}

impl ErrorCode {
    /// A human-readable description, for hosts that report errors as text.
    pub fn message(&self) -> &'static str {
        match self {
            ErrorCode::ClaimTooSmall => "Claim amount is below minimum",
            ErrorCode::ExceedsCoverageLimit => "Claim amount exceeds coverage limit",
            ErrorCode::ClaimNotPending => "Claim is not in pending status",
            ErrorCode::VotingPeriodEnded => "Voting period has ended",
            ErrorCode::VotingPeriodNotEnded => "Voting period has not ended yet",
            ErrorCode::InsufficientVotes => "Insufficient votes to finalize claim",
            ErrorCode::ClaimNotApproved => "Claim is not approved",
            ErrorCode::InsufficientPoolBalance => "Insufficient balance in insurance pool",
            ErrorCode::InvalidClaimant => "Invalid claimant",
            ErrorCode::Unauthorized => "Unauthorized",
            ErrorCode::DuplicateVote => "Vote already cast on this claim",
        }
    }
}

} // verus!
