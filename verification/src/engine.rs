//! The adjudication engine: the pool, its claim registry and its vote
//! ledger as one state, with the accounting invariant that ties them
//! together and is preserved by every operation.
use vstd::prelude::*;

use crate::claim;
use crate::claim::{Claim, ClaimStatus, ClaimView};
use crate::errors::ErrorCode;
use crate::pool;
use crate::pool::InsurancePool;
use crate::votes;
use crate::votes::{has_vote, Vote, VoteLedger};
use crate::{AccountId, Timestamp, MIN_CLAIM_AMOUNT, VOTING_PERIOD_SECS};

verus! {

/// What a claim contributes to the pool's paid-out accounting: its amount
/// once it is Paid, nothing before.
pub open spec fn paid_contribution(c: Claim) -> int {
    if c.status == ClaimStatus::Paid {
        c.amount as int
    } else {
        0
    }
}

/// The sum of the amounts of all Paid claims in the registry.
pub open spec fn paid_total(claims: Seq<Claim>) -> int
    decreases claims.len(),
{
    if claims.len() == 0 {
        0
    } else {
        paid_total(claims.drop_last()) + paid_contribution(claims.last())
    }
}

/// How many claims in the registry carry the given status.
pub open spec fn status_count(claims: Seq<Claim>, status: ClaimStatus) -> int
    decreases claims.len(),
{
    if claims.len() == 0 {
        0
    } else {
        status_count(claims.drop_last(), status) + if claims.last().status == status {
            1int
        } else {
            0int
        }
    }
}

/// How many votes in the ledger were cast on claim `claim` with choice
/// `approved`.
pub open spec fn vote_count(votes: Seq<Vote>, claim: u64, approved: bool) -> int
    decreases votes.len(),
{
    if votes.len() == 0 {
        0
    } else {
        vote_count(votes.drop_last(), claim, approved) + if votes.last().claim == claim
            && votes.last().approved == approved {
            1int
        } else {
            0int
        }
    }
}

proof fn lemma_paid_total_push(claims: Seq<Claim>, c: Claim)
    ensures
        paid_total(claims.push(c)) == paid_total(claims) + paid_contribution(c),
{
    assert(claims.push(c).drop_last() =~= claims);
}

proof fn lemma_paid_total_update(claims: Seq<Claim>, i: int, c: Claim)
    requires
        0 <= i < claims.len(),
    ensures
        paid_total(claims.update(i, c)) == paid_total(claims) - paid_contribution(claims[i])
            + paid_contribution(c),
    decreases claims.len(),
{
    let updated = claims.update(i, c);
    if i == claims.len() - 1 {
        assert(updated.drop_last() =~= claims.drop_last());
    } else {
        assert(updated.drop_last() =~= claims.drop_last().update(i, c));
        lemma_paid_total_update(claims.drop_last(), i, c);
    }
}

proof fn lemma_status_count_push(claims: Seq<Claim>, c: Claim, status: ClaimStatus)
    ensures
        status_count(claims.push(c), status) == status_count(claims, status) + if c.status
            == status {
            1int
        } else {
            0int
        },
{
    assert(claims.push(c).drop_last() =~= claims);
}

proof fn lemma_status_count_update(claims: Seq<Claim>, i: int, c: Claim, status: ClaimStatus)
    requires
        0 <= i < claims.len(),
    ensures
        status_count(claims.update(i, c), status) == status_count(claims, status) - (
        if claims[i].status == status {
            1int
        } else {
            0int
        }) + (if c.status == status {
            1int
        } else {
            0int
        }),
    decreases claims.len(),
{
    let updated = claims.update(i, c);
    if i == claims.len() - 1 {
        assert(updated.drop_last() =~= claims.drop_last());
    } else {
        assert(updated.drop_last() =~= claims.drop_last().update(i, c));
        lemma_status_count_update(claims.drop_last(), i, c, status);
    }
}

proof fn lemma_vote_count_push(votes: Seq<Vote>, v: Vote, claim: u64, approved: bool)
    ensures
        vote_count(votes.push(v), claim, approved) == vote_count(votes, claim, approved) + (
        if v.claim == claim && v.approved == approved {
            1int
        } else {
            0int
        }),
{
    assert(votes.push(v).drop_last() =~= votes);
}

proof fn lemma_vote_count_absent(votes: Seq<Vote>, claim: u64, approved: bool)
    requires
        forall|k: int| 0 <= k < votes.len() ==> (#[trigger] votes[k]).claim != claim,
    ensures
        vote_count(votes, claim, approved) == 0,
    decreases votes.len(),
{
    if votes.len() > 0 {
        lemma_vote_count_absent(votes.drop_last(), claim, approved);
    }
}

/// The whole adjudicated system: the pool singleton, every claim ever
/// created (a claim's registry identifier is its position), and every vote
/// ever cast.
pub struct AdjudicationEngine {
    /// The pool singleton.
    pub pool: InsurancePool,
    /// All claims, in order of creation.
    pub claims: Vec<Claim>,
    /// All votes, across all claims.
    pub votes: VoteLedger,
}

impl AdjudicationEngine {
    /// The claim with registry identifier `i`.
    pub open spec fn claim_at(&self, i: int) -> Claim {
        self.claims@[i]
    }

    /// The mathematical value of the claim with registry identifier `i`.
    pub open spec fn claim_view_at(&self, i: int) -> ClaimView {
        self.claims@[i]@
    }

    /// Each claim's tally counters agree with the vote ledger.
    pub open spec fn tallies_consistent(&self) -> bool {
        forall|i: int|
            0 <= i < self.claims@.len() ==> {
                &&& (#[trigger] self.claims@[i]).votes_for == vote_count(
                    self.votes@,
                    i as u64,
                    true,
                )
                &&& self.claims@[i].votes_against == vote_count(self.votes@, i as u64, false)
            }
    }

    /// Every vote points at a claim that exists.
    pub open spec fn votes_reference_claims(&self) -> bool {
        forall|k: int|
            0 <= k < self.votes@.len() ==> (#[trigger] self.votes@[k]).claim
                < self.claims@.len()
    }

    /// The system invariant, established by `new` and preserved by every
    /// operation: every claim record is well-formed, the vote ledger holds
    /// at most one vote per (claim, voter) pair and only votes on existing
    /// claims, the tallies agree with the ledger, and the pool counters
    /// are exact — in particular, `total_paid_out` equals the sum of the
    /// amounts of all Paid claims.
    pub open spec fn inv(&self) -> bool {
        &&& forall|i: int| 0 <= i < self.claims@.len() ==> (#[trigger] self.claims@[i]).wf()
        &&& self.votes.wf()
        &&& self.pool.total_claims == self.claims@.len()
        &&& self.pool.total_paid_out == paid_total(self.claims@)
        &&& self.pool.approved_claims == status_count(self.claims@, ClaimStatus::Approved)
            + status_count(self.claims@, ClaimStatus::Paid)
        &&& self.pool.rejected_claims == status_count(self.claims@, ClaimStatus::Rejected)
        &&& self.votes_reference_claims()
        &&& self.tallies_consistent()
    }

    /// Set up the system: a fresh pool under `authority` with the given
    /// coverage limit, no claims and no votes.
    pub fn new(authority: AccountId, coverage_limit: u64) -> (engine: AdjudicationEngine)
        ensures
            engine.inv(),
            engine.pool == (InsurancePool {
                authority,
                total_balance: 0,
                total_claims: 0,
                approved_claims: 0,
                rejected_claims: 0,
                total_paid_out: 0,
                coverage_limit,
            }),
            engine.claims@.len() == 0,
            engine.votes@.len() == 0,
    {
        AdjudicationEngine {
            pool: pool::initialize(authority, coverage_limit),
            claims: Vec::new(),
            votes: VoteLedger::new(),
        }
    }

    /// Book a deposit the host has moved into the pool's custody.
    pub fn deposit(&mut self, amount: u64)
        requires
            old(self).inv(),
            old(self).pool.total_balance + amount <= u64::MAX,
        ensures
            final(self).inv(),
            final(self).pool == (InsurancePool {
                total_balance: (old(self).pool.total_balance + amount) as u64,
                ..old(self).pool
            }),
            final(self).claims@ == old(self).claims@,
            final(self).votes@ == old(self).votes@,
    {
        pool::deposit(&mut self.pool, amount);
    }

    /// Set a new coverage limit, permitted to the pool authority alone.
    pub fn update_coverage_limit(&mut self, caller: AccountId, new_limit: u64) -> (r: Result<
        (),
        ErrorCode,
    >)
        requires
            old(self).inv(),
        ensures
            final(self).inv(),
            final(self).claims@ == old(self).claims@,
            final(self).votes@ == old(self).votes@,
            caller != old(self).pool.authority ==> r == Err::<(), ErrorCode>(
                ErrorCode::Unauthorized,
            ) && final(self).pool == old(self).pool,
            caller == old(self).pool.authority ==> r == Ok::<(), ErrorCode>(())
                && final(self).pool == (InsurancePool {
                coverage_limit: new_limit,
                ..old(self).pool
            }),
    {
        pool::update_coverage_limit(&mut self.pool, caller, new_limit)
    }
    /// Open a claim against the pool; on acceptance its registry
    /// identifier (its position, also the identifier votes carry) is
    /// returned and the new claim starts Pending with an empty tally.
    pub fn create_claim(
        &mut self,
        claimant: AccountId,
        order_id: String,
        amount: u64,
        reason: String,
        now: Timestamp,
    ) -> (r: Result<usize, ErrorCode>)
        requires
            old(self).inv(),
            old(self).pool.total_claims < u64::MAX,
            now + VOTING_PERIOD_SECS <= i64::MAX,
            order_id@.len() <= 64,
            reason@.len() <= 500,
        ensures
            final(self).inv(),
            final(self).votes@ == old(self).votes@,
            amount < MIN_CLAIM_AMOUNT ==> r == Err::<usize, ErrorCode>(ErrorCode::ClaimTooSmall)
                && final(self).pool == old(self).pool && final(self).claims@ == old(self).claims@,
            amount >= MIN_CLAIM_AMOUNT && amount > old(self).pool.coverage_limit ==> r == Err::<
                usize,
                ErrorCode,
            >(ErrorCode::ExceedsCoverageLimit) && final(self).pool == old(self).pool
                && final(self).claims@ == old(self).claims@,
            MIN_CLAIM_AMOUNT <= amount <= old(self).pool.coverage_limit ==> {
                &&& r == Ok::<usize, ErrorCode>(old(self).claims@.len() as usize)
                &&& final(self).pool == (InsurancePool {
                    total_claims: (old(self).pool.total_claims + 1) as u64,
                    ..old(self).pool
                })
                &&& final(self).claims@.len() == old(self).claims@.len() + 1
                &&& forall|k: int|
                    0 <= k < old(self).claims@.len() ==> final(self).claims@[k]
                        == old(self).claims@[k]
                &&& final(self).claims@[old(self).claims@.len() as int]@ == (ClaimView {
                    claimant,
                    order_id: order_id@,
                    amount,
                    reason: reason@,
                    status: ClaimStatus::Pending,
                    votes_for: 0,
                    votes_against: 0,
                    created_at: now,
                    voting_deadline: (now + VOTING_PERIOD_SECS) as i64,
                    resolved_at: None,
                })
            },
    {
        let id = self.claims.len();
        match claim::create_claim(&mut self.pool, claimant, order_id, amount, reason, now) {
            Ok(c) => {
                self.claims.push(c);
                proof {
                    let prior = old(self).claims@;
                    let c_spec = self.claims@.last();
                    lemma_paid_total_push(prior, c_spec);
                    lemma_status_count_push(prior, c_spec, ClaimStatus::Approved);
                    lemma_status_count_push(prior, c_spec, ClaimStatus::Rejected);
                    lemma_status_count_push(prior, c_spec, ClaimStatus::Paid);
                    assert forall|k: int| 0 <= k < self.votes@.len() implies (
                    #[trigger] self.votes@[k]).claim != id as u64 by {
                        assert(self.votes@[k].claim < prior.len());
                    }
                    lemma_vote_count_absent(self.votes@, id as u64, true);
                    lemma_vote_count_absent(self.votes@, id as u64, false);
                    assert forall|i: int| 0 <= i < self.claims@.len() implies {
                        &&& (#[trigger] self.claims@[i]).votes_for == vote_count(
                            self.votes@,
                            i as u64,
                            true,
                        )
                        &&& self.claims@[i].votes_against == vote_count(self.votes@, i as u64, false)
                    } by {
                        if i < prior.len() {
                            assert(self.claims@[i] == prior[i]);
                        }
                    }
                }
                Ok(id)
            },
            Err(e) => Err(e),
        }
    }

    /// Cast `voter`'s vote on the claim with registry identifier
    /// `claim_id`, before that claim's deadline and at most once per voter.
    pub fn vote(
        &mut self,
        claim_id: usize,
        voter: AccountId,
        approve: bool,
        now: Timestamp,
    ) -> (r: Result<(), ErrorCode>)
        requires
            old(self).inv(),
            claim_id < old(self).claims@.len(),
            approve ==> old(self).claim_at(claim_id as int).votes_for < u32::MAX,
            !approve ==> old(self).claim_at(claim_id as int).votes_against < u32::MAX,
        ensures
            final(self).inv(),
            final(self).pool == old(self).pool,
            final(self).claims@.len() == old(self).claims@.len(),
            forall|k: int|
                0 <= k < old(self).claims@.len() && k != claim_id ==> final(self).claims@[k]
                    == old(self).claims@[k],
            old(self).claim_at(claim_id as int).status != ClaimStatus::Pending ==> r == Err::<
                (),
                ErrorCode,
            >(ErrorCode::ClaimNotPending) && final(self).claim_view_at(claim_id as int)
                == old(self).claim_view_at(claim_id as int) && final(self).votes@ == old(self).votes@,
            old(self).claim_at(claim_id as int).status == ClaimStatus::Pending && now > old(self).claim_at(claim_id as int).voting_deadline ==> r == Err::<(), ErrorCode>(
                ErrorCode::VotingPeriodEnded,
            ) && final(self).claim_view_at(claim_id as int) == old(self).claim_view_at(
                claim_id as int,
            ) && final(self).votes@ == old(self).votes@,
            old(self).claim_at(claim_id as int).status == ClaimStatus::Pending && now <= old(self).claim_at(claim_id as int).voting_deadline && has_vote(
                old(self).votes@,
                claim_id as u64,
                voter,
            ) ==> r == Err::<(), ErrorCode>(ErrorCode::DuplicateVote) && final(self).claim_view_at(claim_id as int) == old(self).claim_view_at(claim_id as int) && final(self).votes@ == old(self).votes@,
            old(self).claim_at(claim_id as int).status == ClaimStatus::Pending && now <= old(self).claim_at(claim_id as int).voting_deadline && !has_vote(
                old(self).votes@,
                claim_id as u64,
                voter,
            ) ==> {
                &&& r == Ok::<(), ErrorCode>(())
                &&& final(self).votes@ == old(self).votes@.push(
                    Vote { voter, claim: claim_id as u64, approved: approve, voted_at: now },
                )
                &&& approve ==> final(self).claim_view_at(claim_id as int) == (ClaimView {
                    votes_for: (old(self).claim_at(claim_id as int).votes_for + 1) as u32,
                    ..old(self).claim_view_at(claim_id as int)
                })
                &&& !approve ==> final(self).claim_view_at(claim_id as int) == (ClaimView {
                    votes_against: (old(self).claim_at(claim_id as int).votes_against + 1) as u32,
                    ..old(self).claim_view_at(claim_id as int)
                })
            },
    {
        let ghost prior = *old(self);
        let r = votes::vote_on_claim(
            &mut self.claims[claim_id],
            &mut self.votes,
            claim_id as u64,
            voter,
            approve,
            now,
        );
        proof {
            let i = claim_id as int;
            let updated = self.claims@[i];
            assert(self.claims@ == prior.claims@.update(i, updated));
            lemma_paid_total_update(prior.claims@, i, updated);
            lemma_status_count_update(prior.claims@, i, updated, ClaimStatus::Approved);
            lemma_status_count_update(prior.claims@, i, updated, ClaimStatus::Rejected);
            lemma_status_count_update(prior.claims@, i, updated, ClaimStatus::Paid);
            if self.votes@ != prior.votes@ {
                assert forall|j: int| 0 <= j < self.claims@.len() implies {
                    &&& (#[trigger] self.claims@[j]).votes_for == vote_count(
                        self.votes@,
                        j as u64,
                        true,
                    )
                    &&& self.claims@[j].votes_against == vote_count(self.votes@, j as u64, false)
                } by {
                    let v = Vote { voter, claim: claim_id as u64, approved: approve, voted_at: now };
                    lemma_vote_count_push(prior.votes@, v, j as u64, true);
                    lemma_vote_count_push(prior.votes@, v, j as u64, false);
                    if j != i {
                        assert(self.claims@[j] == prior.claims@[j]);
                        assert(j as u64 != claim_id as u64);
                    }
                }
            }
        }
        r
    }

    /// Finalize the claim with registry identifier `claim_id` at time
    /// `now`, strictly after its deadline and only with a quorum of votes.
    pub fn finalize(&mut self, claim_id: usize, now: Timestamp) -> (r: Result<(), ErrorCode>)
        requires
            old(self).inv(),
            claim_id < old(self).claims@.len(),
            old(self).pool.approved_claims < u64::MAX,
            old(self).pool.rejected_claims < u64::MAX,
        ensures
            final(self).inv(),
            final(self).votes@ == old(self).votes@,
            final(self).claims@.len() == old(self).claims@.len(),
            forall|k: int|
                0 <= k < old(self).claims@.len() && k != claim_id ==> final(self).claims@[k]
                    == old(self).claims@[k],
            old(self).claim_at(claim_id as int).status != ClaimStatus::Pending ==> r == Err::<
                (),
                ErrorCode,
            >(ErrorCode::ClaimNotPending) && final(self).claim_view_at(claim_id as int)
                == old(self).claim_view_at(claim_id as int) && final(self).pool == old(self).pool,
            old(self).claim_at(claim_id as int).status == ClaimStatus::Pending && now
                <= old(self).claim_at(claim_id as int).voting_deadline ==> r == Err::<
                (),
                ErrorCode,
            >(ErrorCode::VotingPeriodNotEnded) && final(self).claim_view_at(claim_id as int)
                == old(self).claim_view_at(claim_id as int) && final(self).pool == old(self).pool,
            old(self).claim_at(claim_id as int).status == ClaimStatus::Pending && now
                > old(self).claim_at(claim_id as int).voting_deadline && !claim::meets_quorum(
                old(self).claim_at(claim_id as int).votes_for,
                old(self).claim_at(claim_id as int).votes_against,
            ) ==> r == Err::<(), ErrorCode>(ErrorCode::InsufficientVotes)
                && final(self).claim_view_at(claim_id as int) == old(self).claim_view_at(
                claim_id as int,
            ) && final(self).pool == old(self).pool,
            old(self).claim_at(claim_id as int).status == ClaimStatus::Pending && now
                > old(self).claim_at(claim_id as int).voting_deadline && claim::meets_quorum(
                old(self).claim_at(claim_id as int).votes_for,
                old(self).claim_at(claim_id as int).votes_against,
            ) ==> {
                &&& r == Ok::<(), ErrorCode>(())
                &&& final(self).claim_view_at(claim_id as int) == (ClaimView {
                    status: claim::decision(
                        old(self).claim_at(claim_id as int).votes_for,
                        old(self).claim_at(claim_id as int).votes_against,
                    ),
                    resolved_at: Some(now),
                    ..old(self).claim_view_at(claim_id as int)
                })
                &&& claim::meets_threshold(
                    old(self).claim_at(claim_id as int).votes_for,
                    old(self).claim_at(claim_id as int).votes_against,
                ) ==> final(self).pool == (InsurancePool {
                    approved_claims: (old(self).pool.approved_claims + 1) as u64,
                    ..old(self).pool
                })
                &&& !claim::meets_threshold(
                    old(self).claim_at(claim_id as int).votes_for,
                    old(self).claim_at(claim_id as int).votes_against,
                ) ==> final(self).pool == (InsurancePool {
                    rejected_claims: (old(self).pool.rejected_claims + 1) as u64,
                    ..old(self).pool
                })
            },
    {
        let ghost prior = *old(self);
        let r = claim::finalize_claim(&mut self.claims[claim_id], &mut self.pool, now);
        proof {
            let i = claim_id as int;
            let updated = self.claims@[i];
            assert(self.claims@ == prior.claims@.update(i, updated));
            lemma_paid_total_update(prior.claims@, i, updated);
            lemma_status_count_update(prior.claims@, i, updated, ClaimStatus::Approved);
            lemma_status_count_update(prior.claims@, i, updated, ClaimStatus::Rejected);
            lemma_status_count_update(prior.claims@, i, updated, ClaimStatus::Paid);
            assert forall|j: int| 0 <= j < self.claims@.len() && j != i implies #[trigger] self
                .claims@[j] == prior.claims@[j] by {}
        }
        r
    }

    /// Pay the approved claim with registry identifier `claim_id` out of
    /// the pool, under dual authorization by claimant and pool authority.
    pub fn payout(&mut self, claim_id: usize, caller: AccountId, authorizer: AccountId) -> (r:
        Result<(), ErrorCode>)
        requires
            old(self).inv(),
            claim_id < old(self).claims@.len(),
            caller == old(self).claim_at(claim_id as int).claimant && authorizer == old(
                self,
            ).pool.authority && old(self).claim_at(claim_id as int).status == ClaimStatus::Approved
                && old(self).pool.total_balance >= old(self).claim_at(claim_id as int).amount
                ==> old(self).pool.total_paid_out + old(self).claim_at(claim_id as int).amount
                <= u64::MAX,
        ensures
            final(self).inv(),
            final(self).votes@ == old(self).votes@,
            final(self).claims@.len() == old(self).claims@.len(),
            forall|k: int|
                0 <= k < old(self).claims@.len() && k != claim_id ==> final(self).claims@[k]
                    == old(self).claims@[k],
            caller != old(self).claim_at(claim_id as int).claimant ==> r == Err::<(), ErrorCode>(
                ErrorCode::InvalidClaimant,
            ) && final(self).claim_view_at(claim_id as int) == old(self).claim_view_at(
                claim_id as int,
            ) && final(self).pool == old(self).pool,
            caller == old(self).claim_at(claim_id as int).claimant && authorizer != old(
                self,
            ).pool.authority ==> r == Err::<(), ErrorCode>(ErrorCode::Unauthorized)
                && final(self).claim_view_at(claim_id as int) == old(self).claim_view_at(
                claim_id as int,
            ) && final(self).pool == old(self).pool,
            caller == old(self).claim_at(claim_id as int).claimant && authorizer == old(
                self,
            ).pool.authority && old(self).claim_at(claim_id as int).status != ClaimStatus::Approved
                ==> r == Err::<(), ErrorCode>(ErrorCode::ClaimNotApproved)
                && final(self).claim_view_at(claim_id as int) == old(self).claim_view_at(
                claim_id as int,
            ) && final(self).pool == old(self).pool,
            caller == old(self).claim_at(claim_id as int).claimant && authorizer == old(
                self,
            ).pool.authority && old(self).claim_at(claim_id as int).status == ClaimStatus::Approved
                && old(self).pool.total_balance < old(self).claim_at(claim_id as int).amount ==> r
                == Err::<(), ErrorCode>(ErrorCode::InsufficientPoolBalance)
                && final(self).claim_view_at(claim_id as int) == old(self).claim_view_at(
                claim_id as int,
            ) && final(self).pool == old(self).pool,
            caller == old(self).claim_at(claim_id as int).claimant && authorizer == old(
                self,
            ).pool.authority && old(self).claim_at(claim_id as int).status == ClaimStatus::Approved
                && old(self).pool.total_balance >= old(self).claim_at(claim_id as int).amount
                ==> {
                &&& r == Ok::<(), ErrorCode>(())
                &&& final(self).claim_view_at(claim_id as int) == (ClaimView {
                    status: ClaimStatus::Paid,
                    ..old(self).claim_view_at(claim_id as int)
                })
                &&& final(self).pool == (InsurancePool {
                    total_balance: (old(self).pool.total_balance - old(self).claim_at(
                        claim_id as int,
                    ).amount) as u64,
                    total_paid_out: (old(self).pool.total_paid_out + old(self).claim_at(
                        claim_id as int,
                    ).amount) as u64,
                    ..old(self).pool
                })
            },
    {
        let ghost prior = *old(self);
        let r = claim::payout_claim(
            &mut self.claims[claim_id],
            &mut self.pool,
            caller,
            authorizer,
        );
        proof {
            let i = claim_id as int;
            let updated = self.claims@[i];
            assert(self.claims@ == prior.claims@.update(i, updated));
            lemma_paid_total_update(prior.claims@, i, updated);
            lemma_status_count_update(prior.claims@, i, updated, ClaimStatus::Approved);
            lemma_status_count_update(prior.claims@, i, updated, ClaimStatus::Rejected);
            lemma_status_count_update(prior.claims@, i, updated, ClaimStatus::Paid);
            assert forall|j: int| 0 <= j < self.claims@.len() && j != i implies #[trigger] self
                .claims@[j] == prior.claims@[j] by {}
        }
        r
    }
}

/// The accounting law the invariant carries: in any reachable system
/// state, the pool's `total_paid_out` equals the sum of the amounts of all
/// claims whose status is Paid.
pub proof fn lemma_paid_out_accounting(engine: AdjudicationEngine)
    requires
        engine.inv(),
    ensures
        engine.pool.total_paid_out == paid_total(engine.claims@),
{
}

/// The tally law the invariant carries: in any reachable system state,
/// each claim's counters equal the number of votes the ledger holds for
/// it, by choice.
pub proof fn lemma_tally_accounting(engine: AdjudicationEngine, i: int)
    requires
        engine.inv(),
        0 <= i < engine.claims@.len(),
    ensures
        engine.claim_at(i).votes_for == vote_count(engine.votes@, i as u64, true),
        engine.claim_at(i).votes_against == vote_count(engine.votes@, i as u64, false),
{
}

} // verus!
