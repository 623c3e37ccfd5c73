//! The claim registry: one record per claim, with its tally and lifecycle.
use vstd::prelude::*;

use crate::errors::ErrorCode;
use crate::pool::InsurancePool;
use crate::{AccountId, Timestamp};
use crate::{
    APPROVAL_THRESHOLD_DENOMINATOR, APPROVAL_THRESHOLD_NUMERATOR, MIN_CLAIM_AMOUNT, QUORUM,
    VOTING_PERIOD_SECS,
};

verus! {

/// Lifecycle status of a claim. Strictly forward-moving:
/// Pending -> Approved -> Paid, or Pending -> Rejected.
#[derive(Clone, Copy, Debug, PartialEq, Eq, Structural)]
pub enum ClaimStatus {
    /// Created, accepting votes until the deadline, not yet finalized.
    Pending,
    /// Finalized with quorum and a passing approval ratio; payable.
    Approved,
    /// Finalized below the approval ratio; terminal.
    Rejected,
    /// Approved and paid out; terminal.
    Paid,
}

/// Whether the status state machine allows a direct step from `from` to
/// `to`. These are the only edges any operation ever takes.
pub open spec fn status_step_allowed(from: ClaimStatus, to: ClaimStatus) -> bool {
    match (from, to) {
        (ClaimStatus::Pending, ClaimStatus::Approved) => true,
        (ClaimStatus::Pending, ClaimStatus::Rejected) => true,
        (ClaimStatus::Approved, ClaimStatus::Paid) => true,
        _ => false,
    }
}

/// One claim against the pool.
pub struct Claim {
    /// Identity that opened the claim and receives the payout.
    pub claimant: AccountId,
    /// Reference to the external order the claim is about; at most 64
    /// characters.
    pub order_id: String,
    /// Amount claimed from the pool.
    pub amount: u64,
    /// Human-readable justification; at most 500 characters.
    pub reason: String,
    /// Lifecycle status.
    pub status: ClaimStatus,
    /// Number of votes cast in favor.
    pub votes_for: u32,
    /// Number of votes cast against.
    pub votes_against: u32,
    /// When the claim was created.
    pub created_at: Timestamp,
    /// End of the voting window: `created_at` plus the voting period,
    /// fixed at creation.
    pub voting_deadline: Timestamp,
    /// When the claim was finalized; set exactly once, by finalization.
    pub resolved_at: Option<Timestamp>,
}

/// The mathematical value of a claim record.
pub ghost struct ClaimView {
    pub claimant: AccountId,
    pub order_id: Seq<char>,
    pub amount: u64,
    pub reason: Seq<char>,
    pub status: ClaimStatus,
    pub votes_for: u32,
    pub votes_against: u32,
    pub created_at: Timestamp,
    pub voting_deadline: Timestamp,
    pub resolved_at: Option<Timestamp>,
}

impl View for Claim {
    type V = ClaimView;

    open spec fn view(&self) -> ClaimView {
        ClaimView {
            claimant: self.claimant,
            order_id: self.order_id@,
            amount: self.amount,
            reason: self.reason@,
            status: self.status,
            votes_for: self.votes_for,
            votes_against: self.votes_against,
            created_at: self.created_at,
            voting_deadline: self.voting_deadline,
            resolved_at: self.resolved_at,
        }
    }
}

impl Claim {
    /// Well-formedness of a claim record: the stored strings fit the
    /// record layout, the voting deadline is the creation time plus the
    /// voting period (fixed at creation, immutable thereafter), and
    /// `resolved_at` is stamped exactly when the claim has been finalized.
    pub open spec fn wf(&self) -> bool {
        &&& self.order_id@.len() <= 64
        &&& self.reason@.len() <= 500
        &&& self.voting_deadline == self.created_at + VOTING_PERIOD_SECS
        &&& (self.status == ClaimStatus::Pending <==> self.resolved_at is None)
    }
}

/// Whether the total number of votes cast reaches the quorum that
/// finalization demands.
pub open spec fn meets_quorum(votes_for: u32, votes_against: u32) -> bool {
    votes_for + votes_against >= QUORUM
}

/// Whether the tally passes the approval threshold: as a real-valued ratio,
/// votes_for / (votes_for + votes_against) >= 66 / 100, written without
/// division.
pub open spec fn meets_threshold(votes_for: u32, votes_against: u32) -> bool {
    APPROVAL_THRESHOLD_DENOMINATOR * votes_for
        >= APPROVAL_THRESHOLD_NUMERATOR * (votes_for + votes_against)
}

/// The status finalization assigns for a tally that has reached quorum.
pub open spec fn decision(votes_for: u32, votes_against: u32) -> ClaimStatus {
    if meets_threshold(votes_for, votes_against) {
        ClaimStatus::Approved
    } else {
        ClaimStatus::Rejected
    }
}

/// Law: finalization only takes allowed edges out of Pending — for any
/// tally the decision is Approved exactly when the tally passes the
/// approval threshold, and stepping to it is an allowed status move.
pub proof fn lemma_decision_is_allowed_step(votes_for: u32, votes_against: u32)
    ensures
        status_step_allowed(ClaimStatus::Pending, decision(votes_for, votes_against)),
        decision(votes_for, votes_against) == ClaimStatus::Approved <==> meets_threshold(
            votes_for,
            votes_against,
        ),
{
}

/// Open a claim of `amount` against the pool at time `now`.
///
/// Accepts exactly the amounts between the minimum claim size and the
/// pool's coverage limit; on acceptance the claim starts Pending with an
/// empty tally and a voting deadline one voting period after `now`, and the
/// pool's claim counter rises by one. On refusal nothing changes.
pub fn create_claim(
    pool: &mut InsurancePool,
    claimant: AccountId,
    order_id: String,
    amount: u64,
    reason: String,
    now: Timestamp,
) -> (r: Result<Claim, ErrorCode>)
    requires
        old(pool).total_claims < u64::MAX,
        now + VOTING_PERIOD_SECS <= i64::MAX,
        order_id@.len() <= 64,
        reason@.len() <= 500,
    ensures
        amount < MIN_CLAIM_AMOUNT ==> r == Err::<Claim, ErrorCode>(ErrorCode::ClaimTooSmall)
            && *final(pool) == *old(pool),
        amount >= MIN_CLAIM_AMOUNT && amount > old(pool).coverage_limit ==> r
            == Err::<Claim, ErrorCode>(ErrorCode::ExceedsCoverageLimit) && *final(pool) == *old(
            pool,
        ),
        MIN_CLAIM_AMOUNT <= amount <= old(pool).coverage_limit ==> r is Ok && r->Ok_0.wf()
            && r->Ok_0@ == (
        ClaimView {
            claimant,
            order_id: order_id@,
            amount,
            reason: reason@,
            status: ClaimStatus::Pending,
            votes_for: 0,
            votes_against: 0,
            created_at: now,
            voting_deadline: (now + VOTING_PERIOD_SECS) as i64,
            resolved_at: None,
        }) && *final(pool) == (InsurancePool {
            total_claims: (old(pool).total_claims + 1) as u64,
            ..*old(pool)
        }),
{
    if amount < MIN_CLAIM_AMOUNT {
        return Err(ErrorCode::ClaimTooSmall);
    }
    if amount > pool.coverage_limit {
        return Err(ErrorCode::ExceedsCoverageLimit);
    }
    let claim = Claim {
        claimant,
        order_id,
        amount,
        reason,
        status: ClaimStatus::Pending,
        votes_for: 0,
        votes_against: 0,
        created_at: now,
        voting_deadline: now + VOTING_PERIOD_SECS,
        resolved_at: None,
    };
    pool.total_claims = pool.total_claims + 1;
    Ok(claim)
}

/// Finalize a pending claim at time `now`, strictly after its deadline.
///
/// Requires quorum; then approves or rejects by the approval-ratio
/// threshold, stamps `resolved_at`, and bumps the matching pool counter.
/// On any refusal neither the claim nor the pool changes. Note that a
/// claim that never reaches quorum stays Pending forever once its
/// deadline has passed: no operation cancels or unsticks it.
pub fn finalize_claim(
    claim: &mut Claim,
    pool: &mut InsurancePool,
    now: Timestamp,
) -> (r: Result<(), ErrorCode>)
    requires
        old(pool).approved_claims < u64::MAX,
        old(pool).rejected_claims < u64::MAX,
    ensures
        old(claim).wf() ==> final(claim).wf(),
        old(claim).status != ClaimStatus::Pending ==> r == Err::<(), ErrorCode>(
            ErrorCode::ClaimNotPending,
        ) && final(claim)@ == old(claim)@ && *final(pool) == *old(pool),
        old(claim).status == ClaimStatus::Pending && now <= old(claim).voting_deadline ==> r
            == Err::<(), ErrorCode>(ErrorCode::VotingPeriodNotEnded) && final(claim)@ == old(
            claim,
        )@ && *final(pool) == *old(pool),
        old(claim).status == ClaimStatus::Pending && now > old(claim).voting_deadline
            && !meets_quorum(old(claim).votes_for, old(claim).votes_against) ==> r == Err::<
            (),
            ErrorCode,
        >(ErrorCode::InsufficientVotes) && final(claim)@ == old(claim)@ && *final(pool) == *old(
            pool,
        ),
        old(claim).status == ClaimStatus::Pending && now > old(claim).voting_deadline
            && meets_quorum(old(claim).votes_for, old(claim).votes_against) ==> {
            &&& r == Ok::<(), ErrorCode>(())
            &&& final(claim)@ == (ClaimView {
                status: decision(old(claim).votes_for, old(claim).votes_against),
                resolved_at: Some(now),
                ..old(claim)@
            })
            &&& meets_threshold(old(claim).votes_for, old(claim).votes_against) ==> *final(pool)
                == (InsurancePool {
                approved_claims: (old(pool).approved_claims + 1) as u64,
                ..*old(pool)
            })
            &&& !meets_threshold(old(claim).votes_for, old(claim).votes_against) ==> *final(pool)
                == (InsurancePool {
                rejected_claims: (old(pool).rejected_claims + 1) as u64,
                ..*old(pool)
            })
        },
{
    if claim.status != ClaimStatus::Pending {
        return Err(ErrorCode::ClaimNotPending);
    }
    if now <= claim.voting_deadline {
        return Err(ErrorCode::VotingPeriodNotEnded);
    }
    let total_votes: u64 = claim.votes_for as u64 + claim.votes_against as u64;
    if total_votes < QUORUM {
        return Err(ErrorCode::InsufficientVotes);
    }
    let approved = APPROVAL_THRESHOLD_DENOMINATOR * (claim.votes_for as u64)
        >= APPROVAL_THRESHOLD_NUMERATOR * total_votes;
    if approved {
        claim.status = ClaimStatus::Approved;
        pool.approved_claims = pool.approved_claims + 1;
    } else {
        claim.status = ClaimStatus::Rejected;
        pool.rejected_claims = pool.rejected_claims + 1;
    }
    claim.resolved_at = Some(now);
    Ok(())
}

/// Pay an approved claim out of the pool, under dual authorization: the
/// caller must be the claimant, and the authorizer the pool authority.
///
/// On success the pool balance falls by the claim amount, the paid-out
/// counter rises by the same amount, and the claim becomes Paid; the host
/// then credits the claimant's external balance in the same transaction.
/// On any refusal neither record changes.
pub fn payout_claim(
    claim: &mut Claim,
    pool: &mut InsurancePool,
    caller: AccountId,
    authorizer: AccountId,
) -> (r: Result<(), ErrorCode>)
    requires
        caller == old(claim).claimant && authorizer == old(pool).authority && old(claim).status
            == ClaimStatus::Approved && old(pool).total_balance >= old(claim).amount ==> old(
            pool,
        ).total_paid_out + old(claim).amount <= u64::MAX,
    ensures
        old(claim).wf() ==> final(claim).wf(),
        caller != old(claim).claimant ==> r == Err::<(), ErrorCode>(ErrorCode::InvalidClaimant)
            && final(claim)@ == old(claim)@ && *final(pool) == *old(pool),
        caller == old(claim).claimant && authorizer != old(pool).authority ==> r == Err::<
            (),
            ErrorCode,
        >(ErrorCode::Unauthorized) && final(claim)@ == old(claim)@ && *final(pool) == *old(pool),
        caller == old(claim).claimant && authorizer == old(pool).authority && old(claim).status
            != ClaimStatus::Approved ==> r == Err::<(), ErrorCode>(ErrorCode::ClaimNotApproved)
            && final(claim)@ == old(claim)@ && *final(pool) == *old(pool),
        caller == old(claim).claimant && authorizer == old(pool).authority && old(claim).status
            == ClaimStatus::Approved && old(pool).total_balance < old(claim).amount ==> r == Err::<
            (),
            ErrorCode,
        >(ErrorCode::InsufficientPoolBalance) && final(claim)@ == old(claim)@ && *final(pool)
            == *old(pool),
        caller == old(claim).claimant && authorizer == old(pool).authority && old(claim).status
            == ClaimStatus::Approved && old(pool).total_balance >= old(claim).amount ==> {
            &&& r == Ok::<(), ErrorCode>(())
            &&& final(claim)@ == (ClaimView { status: ClaimStatus::Paid, ..old(claim)@ })
            &&& *final(pool) == (InsurancePool {
                total_balance: (old(pool).total_balance - old(claim).amount) as u64,
                total_paid_out: (old(pool).total_paid_out + old(claim).amount) as u64,
                ..*old(pool)
            })
        },
{
    if caller != claim.claimant {
        return Err(ErrorCode::InvalidClaimant);
    }
    if authorizer != pool.authority {
        return Err(ErrorCode::Unauthorized);
    }
    if claim.status != ClaimStatus::Approved {
        return Err(ErrorCode::ClaimNotApproved);
    }
    if pool.total_balance < claim.amount {
        return Err(ErrorCode::InsufficientPoolBalance);
    }
    claim.status = ClaimStatus::Paid;
    pool.total_balance = pool.total_balance - claim.amount;
    pool.total_paid_out = pool.total_paid_out + claim.amount;
    Ok(())
}

} // verus!
