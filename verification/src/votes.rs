//! The vote ledger: one immutable record per (claim, voter) pair.
use vstd::prelude::*;

use crate::claim::{Claim, ClaimStatus, ClaimView};
use crate::errors::ErrorCode;
use crate::{AccountId, Timestamp};

verus! {

/// One cast vote. Votes are never changed or removed once recorded.
#[derive(Clone, Copy, Debug, PartialEq, Eq, Structural)]
pub struct Vote {
    /// Identity that cast the vote.
    pub voter: AccountId,
    /// The claim the vote is about, by its registry identifier.
    pub claim: u64,
    /// The choice: in favor when true, against when false.
    pub approved: bool,
    /// When the vote was cast.
    pub voted_at: Timestamp,
}

/// Whether `votes` holds a record for the (claim, voter) pair.
pub open spec fn has_vote(votes: Seq<Vote>, claim: u64, voter: AccountId) -> bool {
    exists|i: int|
        0 <= i < votes.len() && votes[i].claim == claim && votes[i].voter == voter
}

/// The record store for votes, in order of casting.
///
/// Well-formed ledgers hold at most one record per (claim, voter) pair;
/// `record` refuses a second one rather than overwrite the first.
pub struct VoteLedger {
    votes: Vec<Vote>,
}

impl View for VoteLedger {
    type V = Seq<Vote>;

    closed spec fn view(&self) -> Seq<Vote> {
        self.votes@
    }
}

impl VoteLedger {
    /// At most one record exists per (claim, voter) pair.
    pub open spec fn wf(&self) -> bool {
        forall|i: int, j: int|
            0 <= i < self@.len() && 0 <= j < self@.len() && self@[i].claim == self@[j].claim
                && self@[i].voter == self@[j].voter ==> i == j
    }

    /// An empty ledger.
    pub fn new() -> (ledger: VoteLedger)
        ensures
            ledger@ == Seq::<Vote>::empty(),
            ledger.wf(),
    {
        VoteLedger { votes: Vec::new() }
    }

    /// How many votes the ledger holds.
    pub fn len(&self) -> (n: usize)
        ensures
            n == self@.len(),
    {
        self.votes.len()
    }

    /// The vote at position `i`, in order of casting.
    pub fn get(&self, i: usize) -> (v: Vote)
        requires
            i < self@.len(),
        ensures
            v == self@[i as int],
    {
        self.votes[i]
    }

    /// Whether a vote by `voter` on `claim` is already recorded.
    pub fn contains(&self, claim: u64, voter: AccountId) -> (found: bool)
        ensures
            found == has_vote(self@, claim, voter),
    {
        let n = self.votes.len();
        let mut i: usize = 0;
        while i < n
            invariant
                i <= n,
                n == self@.len(),
                forall|k: int|
                    0 <= k < i ==> !(self@[k].claim == claim && self@[k].voter == voter),
            decreases n - i,
        {
            let v = self.votes[i];
            if v.claim == claim && v.voter == voter {
                return true;
            }
            i = i + 1;
        }
        false
    }

    /// Append a vote for the (claim, voter) pair, refusing a duplicate.
    pub fn record(
        &mut self,
        claim: u64,
        voter: AccountId,
        approved: bool,
        voted_at: Timestamp,
    ) -> (r: Result<(), ErrorCode>)
        ensures
            has_vote(old(self)@, claim, voter) ==> r == Err::<(), ErrorCode>(
                ErrorCode::DuplicateVote,
            ) && final(self)@ == old(self)@,
            !has_vote(old(self)@, claim, voter) ==> r == Ok::<(), ErrorCode>(()) && final(self)@
                == old(self)@.push(Vote { voter, claim, approved, voted_at }),
            old(self).wf() ==> final(self).wf(),
    {
        if self.contains(claim, voter) {
            return Err(ErrorCode::DuplicateVote);
        }
        self.votes.push(Vote { voter, claim, approved, voted_at });
        proof {
            if old(self).wf() {
                assert forall|i: int, j: int|
                    0 <= i < self@.len() && 0 <= j < self@.len() && self@[i].claim
                        == self@[j].claim && self@[i].voter == self@[j].voter implies i == j by {
                    if i < old(self)@.len() && j < old(self)@.len() {
                        assert(old(self)@[i] == self@[i] && old(self)@[j] == self@[j]);
                    } else if i < old(self)@.len() && j == old(self)@.len() {
                        assert(has_vote(old(self)@, claim, voter));
                    } else if j < old(self)@.len() && i == old(self)@.len() {
                        assert(has_vote(old(self)@, claim, voter));
                    }
                }
            }
        }
        Ok(())
    }
}

/// Law: a well-formed ledger holds at most one vote record per
/// (claim, voter) pair — any two positions holding the same pair are the
/// same position.
pub proof fn lemma_vote_records_unique(ledger: VoteLedger, i: int, j: int)
    requires
        ledger.wf(),
        0 <= i < ledger@.len(),
        0 <= j < ledger@.len(),
        ledger@[i].claim == ledger@[j].claim,
        ledger@[i].voter == ledger@[j].voter,
    ensures
        i == j,
{
}

/// Cast a vote on a pending claim before its deadline.
///
/// Refuses a claim that is not pending, a vote after the deadline, and a
/// second vote by the same voter on the same claim; on any refusal nothing
/// changes. On success the vote is recorded and exactly one tally counter
/// of the claim rises by one.
pub fn vote_on_claim(
    claim: &mut Claim,
    ledger: &mut VoteLedger,
    claim_id: u64,
    voter: AccountId,
    approve: bool,
    now: Timestamp,
) -> (r: Result<(), ErrorCode>)
    requires
        old(ledger).wf(),
        approve ==> old(claim).votes_for < u32::MAX,
        !approve ==> old(claim).votes_against < u32::MAX,
    ensures
        final(ledger).wf(),
        old(claim).wf() ==> final(claim).wf(),
        old(claim).status != ClaimStatus::Pending ==> r == Err::<(), ErrorCode>(
            ErrorCode::ClaimNotPending,
        ) && final(claim)@ == old(claim)@ && final(ledger)@ == old(ledger)@,
        old(claim).status == ClaimStatus::Pending && now > old(claim).voting_deadline ==> r
            == Err::<(), ErrorCode>(ErrorCode::VotingPeriodEnded) && final(claim)@ == old(claim)@
            && final(ledger)@ == old(ledger)@,
        old(claim).status == ClaimStatus::Pending && now <= old(claim).voting_deadline
            && has_vote(old(ledger)@, claim_id, voter) ==> r == Err::<(), ErrorCode>(
            ErrorCode::DuplicateVote,
        ) && final(claim)@ == old(claim)@ && final(ledger)@ == old(ledger)@,
        old(claim).status == ClaimStatus::Pending && now <= old(claim).voting_deadline
            && !has_vote(old(ledger)@, claim_id, voter) ==> {
            &&& r == Ok::<(), ErrorCode>(())
            &&& final(ledger)@ == old(ledger)@.push(
                Vote { voter, claim: claim_id, approved: approve, voted_at: now },
            )
            &&& approve ==> final(claim)@ == (ClaimView {
                votes_for: (old(claim).votes_for + 1) as u32,
                ..old(claim)@
            })
            &&& !approve ==> final(claim)@ == (ClaimView {
                votes_against: (old(claim).votes_against + 1) as u32,
                ..old(claim)@
            })
        },
{
    if claim.status != ClaimStatus::Pending {
        return Err(ErrorCode::ClaimNotPending);
    }
    if now > claim.voting_deadline {
        return Err(ErrorCode::VotingPeriodEnded);
    }
    let recorded = ledger.record(claim_id, voter, approve, now);
    if recorded.is_err() {
        return Err(ErrorCode::DuplicateVote);
    }
    if approve {
        claim.votes_for = claim.votes_for + 1;
    } else {
        claim.votes_against = claim.votes_against + 1;
    }
    Ok(())
}

} // verus!
