//! The pool ledger: the singleton record of funds and lifecycle counters.
use vstd::prelude::*;

use crate::errors::ErrorCode;
use crate::AccountId;

verus! {

/// The singleton pool: held funds, aggregate counters, and the coverage
/// limit that caps any single claim.
///
/// `total_balance` rises on deposit and falls on payout; the four counters
/// only ever rise, once per corresponding lifecycle event.
#[derive(Clone, Copy, Debug, PartialEq, Eq, Structural)]
pub struct InsurancePool {
    /// Identity permitted to change the coverage limit and to authorize
    /// payouts.
    pub authority: AccountId,
    /// Funds currently held by the pool.
    pub total_balance: u64,
    /// Number of claims ever created against the pool.
    pub total_claims: u64,
    /// Number of claims finalized as approved.
    pub approved_claims: u64,
    /// Number of claims finalized as rejected.
    pub rejected_claims: u64,
    /// Sum of the amounts of all claims ever paid out.
    pub total_paid_out: u64,
    /// Upper bound on the amount of any single claim, checked at creation.
    pub coverage_limit: u64,
}

/// Create the pool record with all funds and counters at zero.
///
/// The host ledger guarantees the pool is a singleton: it refuses to create
/// a second record at the pool's address, so this runs at most once.
pub fn initialize(authority: AccountId, coverage_limit: u64) -> (pool: InsurancePool)
    ensures
        pool == (InsurancePool {
            authority,
            total_balance: 0,
            total_claims: 0,
            approved_claims: 0,
            rejected_claims: 0,
            total_paid_out: 0,
            coverage_limit,
        }),
{
    InsurancePool {
        authority,
        total_balance: 0,
        total_claims: 0,
        approved_claims: 0,
        rejected_claims: 0,
        total_paid_out: 0,
        coverage_limit,
    }
}

/// Record a deposit of `amount` into the pool.
///
/// The host has already moved `amount` from the depositor's external balance
/// into the pool's custody; this books it. Overflow of the running balance is
/// a fatal precondition violation, not a recoverable error, so it is ruled
/// out up front.
pub fn deposit(pool: &mut InsurancePool, amount: u64)
    requires
        old(pool).total_balance + amount <= u64::MAX,
    ensures
        *final(pool) == (InsurancePool {
            total_balance: (old(pool).total_balance + amount) as u64,
            ..*old(pool)
        }),
{
    pool.total_balance = pool.total_balance + amount;
}

/// Set a new coverage limit, permitted to the pool authority alone.
pub fn update_coverage_limit(
    pool: &mut InsurancePool,
    caller: AccountId,
    new_limit: u64,
) -> (r: Result<(), ErrorCode>)
    ensures
        caller != old(pool).authority ==> r == Err::<(), ErrorCode>(ErrorCode::Unauthorized)
            && *final(pool) == *old(pool),
        caller == old(pool).authority ==> r == Ok::<(), ErrorCode>(())
            && *final(pool) == (InsurancePool { coverage_limit: new_limit, ..*old(pool) }),
{
    if caller != pool.authority {
        return Err(ErrorCode::Unauthorized);
    }
    pool.coverage_limit = new_limit;
    Ok(())
}

} // verus!
