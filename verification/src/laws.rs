use vstd::prelude::*;
use crate::dao::{COOLDOWN_SECONDS, Dao, MAX_BALANCE, cooldown_blocked};
use crate::proposal::ProposalState;
use crate::proposal::tally_outcome;
use crate::records::{MintRecord, acct_index_of, last_mint_time_of};

verus! {

/// For every proposal of a well-formed registry, at every observation
/// point, the yes and no tallies sum to the total vote weight cast.
pub proof fn lemma_tallies_consistent(d: Dao)
    requires
        d.wf(),
    ensures
        forall|i: int|
            0 <= i < d.proposals@.len() ==> (#[trigger] d.proposals@[i]).yes_votes
                + d.proposals@[i].no_votes == d.proposals@[i].total_votes_cast,
{
}

/// At most one vote record exists per `(voter, proposal)` pair in a
/// well-formed registry; a second vote by the same pair is refused before
/// any weight- or support-dependent check runs.
pub proof fn lemma_one_vote_per_pair(d: Dao, i: int, j: int)
    requires
        d.wf(),
        0 <= i < d.vote_records@.len(),
        0 <= j < d.vote_records@.len(),
        i != j,
    ensures
        !(d.vote_records@[i].voter == d.vote_records@[j].voter && d.vote_records@[i].proposal
            == d.vote_records@[j].proposal),
{
}

/// The tally decision rule, case by case: pass needs quorum and a strict
/// yes majority; a missed quorum takes precedence over rejection; anything
/// else is rejected.
pub proof fn lemma_tally_decision(yes: u64, no: u64, total: u64, quorum: u64)
    ensures
        tally_outcome(yes, no, total, quorum) == ProposalState::Passed <==> total >= quorum && yes
            > no,
        tally_outcome(yes, no, total, quorum) == ProposalState::QuorumNotMet <==> total < quorum,
        tally_outcome(yes, no, total, quorum) == ProposalState::Rejected <==> total >= quorum
            && yes <= no,
{
}

/// A tally never leaves a proposal `Active`: every outcome of the decision
/// rule is a decided state, so a proposal can be tallied at most once and a
/// second tally fails with `ProposalNotActive`.
pub proof fn lemma_tally_at_most_once(yes: u64, no: u64, total: u64, quorum: u64)
    ensures
        tally_outcome(yes, no, total, quorum) != ProposalState::Active,
{
}

/// A successful issuance at a positive time `t1` blocks any further
/// issuance to the same member less than `COOLDOWN_SECONDS` later.
pub proof fn lemma_cooldown_blocks_reissue(s: Seq<MintRecord>, member: u64, t1: i64, t2: i64)
    requires
        last_mint_time_of(s, member) == t1,
        t1 > 0,
        t2 - t1 < COOLDOWN_SECONDS,
    ensures
        cooldown_blocked(s, member, t2),
{
}

/// Once the full cooldown has elapsed since the last issuance, the cooldown
/// no longer blocks; whether the issuance then succeeds depends only on the
/// balance threshold and the hard cap.
pub proof fn lemma_cooldown_elapsed_allows(s: Seq<MintRecord>, member: u64, t1: i64, t2: i64)
    requires
        last_mint_time_of(s, member) == t1,
        t2 - t1 >= COOLDOWN_SECONDS,
    ensures
        !cooldown_blocked(s, member, t2),
{
}

/// No member's balance ever exceeds the hard cap in a well-formed registry:
/// issuance cannot push a balance above `MAX_BALANCE`, and voting only
/// burns.
pub proof fn lemma_balances_capped(d: Dao, member: u64)
    requires
        d.wf(),
    ensures
        d.balance(member) <= MAX_BALANCE,
{
    if crate::records::acct_has(d.credit_accounts@, member) {
        let k = acct_index_of(d.credit_accounts@, member);
        assert(0 <= k < d.credit_accounts@.len() && d.credit_accounts@[k].member == member);
    }
}

} // verus!
