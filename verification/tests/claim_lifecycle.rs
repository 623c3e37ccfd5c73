//! Record-level tests of the pool, claim and vote operations.
use insurance_pool::claim::{create_claim, finalize_claim, payout_claim, Claim, ClaimStatus};
use insurance_pool::errors::ErrorCode;
use insurance_pool::pool::{deposit, initialize, update_coverage_limit, InsurancePool};
use insurance_pool::votes::{vote_on_claim, VoteLedger};
use insurance_pool::{MIN_CLAIM_AMOUNT, VOTING_PERIOD_SECS};

const AUTHORITY: u64 = 1;
const CLAIMANT: u64 = 7;
const LIMIT: u64 = 1_000_000_000;

fn fresh_pool() -> InsurancePool {
    initialize(AUTHORITY, LIMIT)
}

fn pending_claim(pool: &mut InsurancePool, amount: u64, now: i64) -> Claim {
    create_claim(pool, CLAIMANT, "order-1".to_string(), amount, "damaged".to_string(), now)
        .unwrap()
}

/// A pending claim with the given tally, past votes via the ledger.
fn voted_claim(pool: &mut InsurancePool, votes_for: u32, votes_against: u32) -> Claim {
    let mut c = pending_claim(pool, 500_000_000, 0);
    let mut ledger = VoteLedger::new();
    let mut voter: u64 = 100;
    for _ in 0..votes_for {
        vote_on_claim(&mut c, &mut ledger, 0, voter, true, 10).unwrap();
        voter += 1;
    }
    for _ in 0..votes_against {
        vote_on_claim(&mut c, &mut ledger, 0, voter, false, 10).unwrap();
        voter += 1;
    }
    c
}

#[test]
fn initialize_zeroes_everything() {
    let p = fresh_pool();
    assert_eq!(p.authority, AUTHORITY);
    assert_eq!(p.total_balance, 0);
    assert_eq!(p.total_claims, 0);
    assert_eq!(p.approved_claims, 0);
    assert_eq!(p.rejected_claims, 0);
    assert_eq!(p.total_paid_out, 0);
    assert_eq!(p.coverage_limit, LIMIT);
}

#[test]
fn deposit_adds_to_balance() {
    let mut p = fresh_pool();
    deposit(&mut p, 2_000_000_000);
    assert_eq!(p.total_balance, 2_000_000_000);
    deposit(&mut p, 5);
    assert_eq!(p.total_balance, 2_000_000_005);
}

#[test]
fn update_coverage_limit_needs_authority() {
    let mut p = fresh_pool();
    let r = update_coverage_limit(&mut p, AUTHORITY + 1, 5);
    assert_eq!(r, Err(ErrorCode::Unauthorized));
    assert_eq!(p.coverage_limit, LIMIT);
    let r = update_coverage_limit(&mut p, AUTHORITY, 5);
    assert_eq!(r, Ok(()));
    assert_eq!(p.coverage_limit, 5);
}

#[test]
fn create_claim_at_minimum_is_accepted() {
    let mut p = fresh_pool();
    let c = pending_claim(&mut p, MIN_CLAIM_AMOUNT, 42);
    assert_eq!(c.amount, MIN_CLAIM_AMOUNT);
    assert_eq!(c.claimant, CLAIMANT);
    assert!(c.status == ClaimStatus::Pending);
    assert_eq!(c.votes_for, 0);
    assert_eq!(c.votes_against, 0);
    assert_eq!(c.created_at, 42);
    assert_eq!(c.voting_deadline, 42 + VOTING_PERIOD_SECS);
    assert_eq!(c.resolved_at, None);
    assert_eq!(p.total_claims, 1);
}

#[test]
fn create_claim_at_limit_is_accepted() {
    let mut p = fresh_pool();
    let c = pending_claim(&mut p, LIMIT, 0);
    assert_eq!(c.amount, LIMIT);
}

#[test]
fn create_claim_below_minimum_fails() {
    let mut p = fresh_pool();
    let r = create_claim(
        &mut p,
        CLAIMANT,
        "order-1".to_string(),
        MIN_CLAIM_AMOUNT - 1,
        "damaged".to_string(),
        0,
    );
    assert!(matches!(r, Err(ErrorCode::ClaimTooSmall)));
    assert_eq!(p.total_claims, 0);
}

#[test]
fn create_claim_above_limit_fails() {
    let mut p = fresh_pool();
    let r = create_claim(
        &mut p,
        CLAIMANT,
        "order-1".to_string(),
        LIMIT + 1,
        "damaged".to_string(),
        0,
    );
    assert!(matches!(r, Err(ErrorCode::ExceedsCoverageLimit)));
    assert_eq!(p.total_claims, 0);
}

#[test]
fn vote_tallies_by_choice() {
    let mut p = fresh_pool();
    let mut c = pending_claim(&mut p, 500_000_000, 0);
    let mut ledger = VoteLedger::new();
    assert_eq!(vote_on_claim(&mut c, &mut ledger, 0, 11, true, 100), Ok(()));
    assert_eq!(vote_on_claim(&mut c, &mut ledger, 0, 12, false, 200), Ok(()));
    assert_eq!(vote_on_claim(&mut c, &mut ledger, 0, 13, true, 300), Ok(()));
    assert_eq!(c.votes_for, 2);
    assert_eq!(c.votes_against, 1);
    assert_eq!(ledger.len(), 3);
    let v = ledger.get(1);
    assert_eq!(v.voter, 12);
    assert_eq!(v.claim, 0);
    assert!(!v.approved);
    assert_eq!(v.voted_at, 200);
}

#[test]
fn second_vote_by_same_voter_fails_and_changes_nothing() {
    let mut p = fresh_pool();
    let mut c = pending_claim(&mut p, 500_000_000, 0);
    let mut ledger = VoteLedger::new();
    assert_eq!(vote_on_claim(&mut c, &mut ledger, 0, 11, true, 100), Ok(()));
    let r = vote_on_claim(&mut c, &mut ledger, 0, 11, false, 200);
    assert_eq!(r, Err(ErrorCode::DuplicateVote));
    assert_eq!(c.votes_for, 1);
    assert_eq!(c.votes_against, 0);
    assert_eq!(ledger.len(), 1);
}

#[test]
fn same_voter_may_vote_on_distinct_claims() {
    let mut p = fresh_pool();
    let mut c0 = pending_claim(&mut p, 500_000_000, 0);
    let mut c1 = pending_claim(&mut p, 500_000_000, 0);
    let mut ledger = VoteLedger::new();
    assert_eq!(vote_on_claim(&mut c0, &mut ledger, 0, 11, true, 100), Ok(()));
    assert_eq!(vote_on_claim(&mut c1, &mut ledger, 1, 11, true, 100), Ok(()));
    assert_eq!(c0.votes_for, 1);
    assert_eq!(c1.votes_for, 1);
}

#[test]
fn vote_at_deadline_is_accepted_after_it_fails() {
    let mut p = fresh_pool();
    let mut c = pending_claim(&mut p, 500_000_000, 0);
    let mut ledger = VoteLedger::new();
    let deadline = c.voting_deadline;
    assert_eq!(vote_on_claim(&mut c, &mut ledger, 0, 11, true, deadline), Ok(()));
    let r = vote_on_claim(&mut c, &mut ledger, 0, 12, true, deadline + 1);
    assert_eq!(r, Err(ErrorCode::VotingPeriodEnded));
    assert_eq!(c.votes_for, 1);
}

#[test]
fn vote_on_finalized_claim_fails() {
    let mut p = fresh_pool();
    let mut c = voted_claim(&mut p, 3, 0);
    let after = c.voting_deadline + 1;
    assert_eq!(finalize_claim(&mut c, &mut p, after), Ok(()));
    let mut ledger = VoteLedger::new();
    let r = vote_on_claim(&mut c, &mut ledger, 0, 99, true, 10);
    assert_eq!(r, Err(ErrorCode::ClaimNotPending));
}

#[test]
fn finalize_before_deadline_fails() {
    let mut p = fresh_pool();
    let mut c = voted_claim(&mut p, 3, 0);
    let r = finalize_claim(&mut c, &mut p, 3600);
    assert_eq!(r, Err(ErrorCode::VotingPeriodNotEnded));
    assert!(c.status == ClaimStatus::Pending);
    assert_eq!(c.resolved_at, None);
    assert_eq!(p.approved_claims, 0);
}

#[test]
fn finalize_at_deadline_exactly_fails() {
    let mut p = fresh_pool();
    let mut c = voted_claim(&mut p, 3, 0);
    let at = c.voting_deadline;
    let r = finalize_claim(&mut c, &mut p, at);
    assert_eq!(r, Err(ErrorCode::VotingPeriodNotEnded));
    assert!(c.status == ClaimStatus::Pending);
}

#[test]
fn finalize_one_second_after_deadline_succeeds() {
    let mut p = fresh_pool();
    let mut c = voted_claim(&mut p, 3, 0);
    let after = c.voting_deadline + 1;
    let r = finalize_claim(&mut c, &mut p, after);
    assert_eq!(r, Ok(()));
    assert!(c.status == ClaimStatus::Approved);
    assert_eq!(c.resolved_at, Some(c.voting_deadline + 1));
}

#[test]
fn finalize_without_quorum_fails_even_if_unanimous() {
    let mut p = fresh_pool();
    let mut c = voted_claim(&mut p, 2, 0);
    let after = c.voting_deadline + 1;
    let r = finalize_claim(&mut c, &mut p, after);
    assert_eq!(r, Err(ErrorCode::InsufficientVotes));
    assert!(c.status == ClaimStatus::Pending);
    assert_eq!(c.resolved_at, None);
    assert_eq!(p.approved_claims, 0);
    assert_eq!(p.rejected_claims, 0);
}

#[test]
fn finalize_without_any_votes_fails() {
    let mut p = fresh_pool();
    let mut c = pending_claim(&mut p, 500_000_000, 0);
    let after = c.voting_deadline + 1;
    let r = finalize_claim(&mut c, &mut p, after);
    assert_eq!(r, Err(ErrorCode::InsufficientVotes));
}

#[test]
fn finalize_two_for_one_against_approves() {
    // ratio 2/3 = 0.667, just above the 0.66 threshold
    let mut p = fresh_pool();
    let mut c = voted_claim(&mut p, 2, 1);
    let after = c.voting_deadline + 1;
    assert_eq!(finalize_claim(&mut c, &mut p, after), Ok(()));
    assert!(c.status == ClaimStatus::Approved);
    assert_eq!(p.approved_claims, 1);
    assert_eq!(p.rejected_claims, 0);
}

#[test]
fn finalize_two_for_two_against_rejects() {
    // ratio 2/4 = 0.5, below the threshold: ties reject
    let mut p = fresh_pool();
    let mut c = voted_claim(&mut p, 2, 2);
    let after = c.voting_deadline + 1;
    assert_eq!(finalize_claim(&mut c, &mut p, after), Ok(()));
    assert!(c.status == ClaimStatus::Rejected);
    assert_eq!(p.approved_claims, 0);
    assert_eq!(p.rejected_claims, 1);
}

#[test]
fn finalize_exactly_at_threshold_approves() {
    // 33 of 50 is exactly 0.66
    let mut p = fresh_pool();
    let mut c = voted_claim(&mut p, 33, 17);
    let after = c.voting_deadline + 1;
    assert_eq!(finalize_claim(&mut c, &mut p, after), Ok(()));
    assert!(c.status == ClaimStatus::Approved);
}

#[test]
fn finalize_just_below_threshold_rejects() {
    // 65 of 100 is 0.65
    let mut p = fresh_pool();
    let mut c = voted_claim(&mut p, 65, 35);
    let after = c.voting_deadline + 1;
    assert_eq!(finalize_claim(&mut c, &mut p, after), Ok(()));
    assert!(c.status == ClaimStatus::Rejected);
}

#[test]
fn payout_moves_exactly_the_amount() {
    let mut p = fresh_pool();
    deposit(&mut p, 2_000_000_000);
    let mut c = voted_claim(&mut p, 3, 0);
    let after = c.voting_deadline + 1;
    finalize_claim(&mut c, &mut p, after).unwrap();
    let r = payout_claim(&mut c, &mut p, CLAIMANT, AUTHORITY);
    assert_eq!(r, Ok(()));
    assert!(c.status == ClaimStatus::Paid);
    assert_eq!(p.total_balance, 1_500_000_000);
    assert_eq!(p.total_paid_out, 500_000_000);
}

#[test]
fn payout_of_pending_claim_fails() {
    let mut p = fresh_pool();
    deposit(&mut p, 2_000_000_000);
    let mut c = pending_claim(&mut p, 500_000_000, 0);
    let r = payout_claim(&mut c, &mut p, CLAIMANT, AUTHORITY);
    assert_eq!(r, Err(ErrorCode::ClaimNotApproved));
    assert_eq!(p.total_balance, 2_000_000_000);
    assert_eq!(p.total_paid_out, 0);
}

#[test]
fn payout_twice_fails_second_time() {
    let mut p = fresh_pool();
    deposit(&mut p, 2_000_000_000);
    let mut c = voted_claim(&mut p, 3, 0);
    let after = c.voting_deadline + 1;
    finalize_claim(&mut c, &mut p, after).unwrap();
    payout_claim(&mut c, &mut p, CLAIMANT, AUTHORITY).unwrap();
    let r = payout_claim(&mut c, &mut p, CLAIMANT, AUTHORITY);
    assert_eq!(r, Err(ErrorCode::ClaimNotApproved));
    assert_eq!(p.total_balance, 1_500_000_000);
    assert_eq!(p.total_paid_out, 500_000_000);
}

#[test]
fn payout_with_wrong_claimant_fails() {
    let mut p = fresh_pool();
    deposit(&mut p, 2_000_000_000);
    let mut c = voted_claim(&mut p, 3, 0);
    let after = c.voting_deadline + 1;
    finalize_claim(&mut c, &mut p, after).unwrap();
    let r = payout_claim(&mut c, &mut p, CLAIMANT + 1, AUTHORITY);
    assert_eq!(r, Err(ErrorCode::InvalidClaimant));
    assert!(c.status == ClaimStatus::Approved);
    assert_eq!(p.total_balance, 2_000_000_000);
}

#[test]
fn payout_with_wrong_authority_fails() {
    let mut p = fresh_pool();
    deposit(&mut p, 2_000_000_000);
    let mut c = voted_claim(&mut p, 3, 0);
    let after = c.voting_deadline + 1;
    finalize_claim(&mut c, &mut p, after).unwrap();
    let r = payout_claim(&mut c, &mut p, CLAIMANT, AUTHORITY + 1);
    assert_eq!(r, Err(ErrorCode::Unauthorized));
    assert!(c.status == ClaimStatus::Approved);
    assert_eq!(p.total_balance, 2_000_000_000);
}

#[test]
fn payout_with_insufficient_pool_balance_fails() {
    let mut p = fresh_pool();
    deposit(&mut p, 400_000_000);
    let mut c = voted_claim(&mut p, 3, 0);
    let after = c.voting_deadline + 1;
    finalize_claim(&mut c, &mut p, after).unwrap();
    let r = payout_claim(&mut c, &mut p, CLAIMANT, AUTHORITY);
    assert_eq!(r, Err(ErrorCode::InsufficientPoolBalance));
    assert!(c.status == ClaimStatus::Approved);
    assert_eq!(p.total_balance, 400_000_000);
    assert_eq!(p.total_paid_out, 0);
}

#[test]
fn vote_ledger_contains_reports_pairs() {
    let mut ledger = VoteLedger::new();
    assert!(!ledger.contains(0, 11));
    assert_eq!(ledger.record(0, 11, true, 5), Ok(()));
    assert!(ledger.contains(0, 11));
    assert!(!ledger.contains(0, 12));
    assert!(!ledger.contains(1, 11));
    assert_eq!(ledger.record(0, 11, false, 6), Err(ErrorCode::DuplicateVote));
    assert_eq!(ledger.len(), 1);
}

#[test]
fn error_messages_name_each_failure() {
    assert_eq!(ErrorCode::ClaimTooSmall.message(), "Claim amount is below minimum");
    assert_eq!(ErrorCode::Unauthorized.message(), "Unauthorized");
    assert_eq!(ErrorCode::DuplicateVote.message(), "Vote already cast on this claim");
}
