use vstd::prelude::*;
use crate::cost::{lemma_vote_cost_positive, quadratic_cost, vote_cost};
use crate::error::ErrorCode;
use crate::proposal::{Proposal, ProposalState, tally_outcome};
use crate::records::{
    CreditAccount, MintRecord, VoteRecord, WhitelistRecord, acct_unique, balance_of,
    find_account, find_mint_record, find_vote_record, find_whitelist, has_vote,
    last_mint_time_of, lemma_acct_at, lemma_acct_push, lemma_acct_update, lemma_mr_at,
    lemma_mr_push, lemma_mr_update, lemma_vr_at, lemma_vr_push, lemma_wl_at, lemma_wl_push,
    lemma_wl_remove, mr_unique, vote_record_of, vr_unique, wl_allowed, wl_has, wl_unique,
};

verus! {

/// Minimum seconds between two credit issuances to the same member.
pub const COOLDOWN_SECONDS: i64 = 86400;

/// Issuance is refused outright once a balance reaches this threshold,
/// before the hard cap is consulted.
pub const BALANCE_SOFT_THRESHOLD: u64 = 50_000_000_000;

/// No issuance may push a balance above this hard cap.
pub const MAX_BALANCE: u64 = 100_000_000_000;

/// Base credit units granted by one successful issuance.
pub const ISSUE_AMOUNT: u64 = 100_000_000_000;

/// Decimal places of the governance credit: one whole credit is
/// `10^MINT_DECIMALS` base units.
pub const MINT_DECIMALS: u8 = 9;

/// Longest accepted proposal title, in characters.
pub const MAX_TITLE_LEN: usize = 200;

/// Longest accepted proposal description, in characters.
pub const MAX_DESCRIPTION_LEN: usize = 1000;

/// Whether the issuance cooldown bars `user` from receiving credits at
/// `now`: a previous issuance exists and lies less than `COOLDOWN_SECONDS`
/// in the past. A `last_mint_time` of 0 means no issuance ever happened and
/// never blocks.
pub open spec fn cooldown_blocked(s: Seq<MintRecord>, user: u64, now: i64) -> bool {
    last_mint_time_of(s, user) > 0 && now - last_mint_time_of(s, user) < COOLDOWN_SECONDS
}

/// One governance registry with everything keyed under it: configuration,
/// proposals, the access whitelist, credit accounts, issuance records and
/// vote records.
#[derive(Debug)]
pub struct Dao {
    /// Identity of this registry, assigned at creation; proposals point back
    /// to it through their `dao` field.
    pub id: u64,
    /// The only identity allowed to whitelist, execute and cancel.
    pub authority: u64,
    /// Identity of the governance credit bound to this registry.
    pub governance_mint: u64,
    pub name: String,
    /// Next proposal sequence number; equals the number of proposals created.
    pub proposal_count: u64,
    /// Minimum total vote weight for a tally to count toward pass or reject.
    pub quorum_threshold: u64,
    pub proposals: Vec<Proposal>,
    pub whitelist: Vec<WhitelistRecord>,
    pub mint_records: Vec<MintRecord>,
    pub credit_accounts: Vec<CreditAccount>,
    pub vote_records: Vec<VoteRecord>,
}

impl Dao {
    /// Well-formedness of a registry and everything keyed under it: each
    /// proposal is well formed, numbered by its position and points back to
    /// this registry; every keyed collection has unique keys; vote records
    /// only reference proposals that exist; and no balance exceeds the hard
    /// cap.
    pub open spec fn wf(self) -> bool {
        &&& self.proposals@.len() == self.proposal_count
        &&& forall|i: int| 0 <= i < self.proposals@.len() ==> (#[trigger] self.proposals@[i]).wf()
        &&& forall|i: int|
            0 <= i < self.proposals@.len() ==> (#[trigger] self.proposals@[i]).proposal_id == i
        &&& forall|i: int|
            0 <= i < self.proposals@.len() ==> (#[trigger] self.proposals@[i]).dao == self.id
        &&& wl_unique(self.whitelist@)
        &&& mr_unique(self.mint_records@)
        &&& acct_unique(self.credit_accounts@)
        &&& vr_unique(self.vote_records@)
        &&& forall|i: int|
            0 <= i < self.vote_records@.len() ==> (#[trigger] self.vote_records@[i]).proposal
                < self.proposal_count
        &&& forall|i: int|
            0 <= i < self.credit_accounts@.len() ==> (#[trigger] self.credit_accounts@[i]).amount
                <= MAX_BALANCE
    }

    /// The registry configuration that no operation but proposal creation
    /// may touch, and proposal creation only through `proposal_count`.
    pub open spec fn same_config(self, other: Dao) -> bool {
        &&& self.id == other.id
        &&& self.authority == other.authority
        &&& self.governance_mint == other.governance_mint
        &&& self.name@ == other.name@
        &&& self.quorum_threshold == other.quorum_threshold
    }

    /// Whether `voter` passes the access gate.
    pub open spec fn may_vote(self, voter: u64) -> bool {
        wl_allowed(self.whitelist@, voter)
    }

    pub open spec fn proposal_exists(self, proposal_id: u64) -> bool {
        proposal_id < self.proposals@.len()
    }

    pub open spec fn proposal_at(self, proposal_id: u64) -> Proposal {
        self.proposals@[proposal_id as int]
    }

    /// Whether `voter` has already voted on `proposal_id`.
    pub open spec fn voted(self, voter: u64, proposal_id: u64) -> bool {
        has_vote(self.vote_records@, voter, proposal_id)
    }

    /// `member`'s credit balance in base units; 0 without an account.
    pub open spec fn balance(self, member: u64) -> u64 {
        balance_of(self.credit_accounts@, member)
    }

    /// Builds a fresh registry with no proposals, whitelist entries,
    /// accounts or records.
    pub fn new(id: u64, authority: u64, governance_mint: u64, name: String, quorum_threshold: u64)
        -> (d: Dao)
        ensures
            d.wf(),
            d.id == id,
            d.authority == authority,
            d.governance_mint == governance_mint,
            d.name@ == name@,
            d.proposal_count == 0,
            d.quorum_threshold == quorum_threshold,
            d.proposals@.len() == 0,
            d.whitelist@.len() == 0,
            d.mint_records@.len() == 0,
            d.credit_accounts@.len() == 0,
            d.vote_records@.len() == 0,
    {
        Dao {
            id,
            authority,
            governance_mint,
            name,
            proposal_count: 0,
            quorum_threshold,
            proposals: Vec::new(),
            whitelist: Vec::new(),
            mint_records: Vec::new(),
            credit_accounts: Vec::new(),
            vote_records: Vec::new(),
        }
    }

    /// Grants `user` access to vote. Only the authority may grant, and at
    /// most one whitelist record per user can ever exist.
    pub fn add_to_whitelist(&mut self, caller: u64, user: u64) -> (r: Result<(), ErrorCode>)
        requires
            old(self).wf(),
        ensures
            final(self).wf(),
            r is Ok <==> caller == old(self).authority && !wl_has(old(self).whitelist@, user),
            r == Err::<(), ErrorCode>(ErrorCode::Unauthorized) <==> caller != old(self).authority,
            r == Err::<(), ErrorCode>(ErrorCode::AlreadyExists) <==> caller == old(self).authority
                && wl_has(old(self).whitelist@, user),
            r is Ok ==> final(self).whitelist@ == old(self).whitelist@.push(
                (WhitelistRecord { user, whitelisted: true }),
            ),
            r is Ok ==> final(self).may_vote(user),
            r is Ok ==> forall|u: u64|
                u != user ==> final(self).may_vote(u) == old(self).may_vote(u),
            r is Err ==> *final(self) == *old(self),
            final(self).same_config(*old(self)),
            final(self).proposal_count == old(self).proposal_count,
            final(self).proposals@ == old(self).proposals@,
            final(self).mint_records@ == old(self).mint_records@,
            final(self).credit_accounts@ == old(self).credit_accounts@,
            final(self).vote_records@ == old(self).vote_records@,
    {
        if caller != self.authority {
            return Err(ErrorCode::Unauthorized);
        }
        match find_whitelist(&self.whitelist, user) {
            Some(_) => Err(ErrorCode::AlreadyExists),
            None => {
                let record = WhitelistRecord { user, whitelisted: true };
                proof {
                    lemma_wl_push(self.whitelist@, record);
                }
                self.whitelist.push(record);
                Ok(())
            },
        }
    }

    /// Revokes `user`'s access by deleting the whitelist record. Only the
    /// authority may revoke; revoking leaves every recorded vote and every
    /// tally untouched.
    pub fn remove_from_whitelist(&mut self, caller: u64, user: u64) -> (r: Result<(), ErrorCode>)
        requires
            old(self).wf(),
        ensures
            final(self).wf(),
            r is Ok <==> caller == old(self).authority && wl_has(old(self).whitelist@, user),
            r == Err::<(), ErrorCode>(ErrorCode::Unauthorized) <==> caller != old(self).authority,
            r == Err::<(), ErrorCode>(ErrorCode::NotWhitelisted) <==> caller == old(self).authority
                && !wl_has(old(self).whitelist@, user),
            r is Ok ==> !wl_has(final(self).whitelist@, user),
            r is Ok ==> !final(self).may_vote(user),
            r is Ok ==> forall|u: u64|
                u != user ==> final(self).may_vote(u) == old(self).may_vote(u),
            r is Err ==> *final(self) == *old(self),
            final(self).same_config(*old(self)),
            final(self).proposal_count == old(self).proposal_count,
            final(self).proposals@ == old(self).proposals@,
            final(self).mint_records@ == old(self).mint_records@,
            final(self).credit_accounts@ == old(self).credit_accounts@,
            final(self).vote_records@ == old(self).vote_records@,
    {
        if caller != self.authority {
            return Err(ErrorCode::Unauthorized);
        }
        match find_whitelist(&self.whitelist, user) {
            None => Err(ErrorCode::NotWhitelisted),
            Some(i) => {
                proof {
                    lemma_wl_at(self.whitelist@, i as int);
                    lemma_wl_remove(self.whitelist@, i as int);
                }
                self.whitelist.remove(i);
                Ok(())
            },
        }
    }

    /// Issues `ISSUE_AMOUNT` base credit units to `recipient`, gated by the
    /// per-member cooldown, the soft balance threshold and the hard cap.
    /// The balance update and the issuance-record update happen together or
    /// not at all.
    pub fn mint_governance_tokens(&mut self, recipient: u64, mint: u64, now: i64) -> (r: Result<
        (),
        ErrorCode,
    >)
        requires
            old(self).wf(),
            now >= 0,
        ensures
            final(self).wf(),
            r == Err::<(), ErrorCode>(ErrorCode::InvalidCreditReference) <==> mint != old(
                self,
            ).governance_mint,
            r == Err::<(), ErrorCode>(ErrorCode::CooldownActive) <==> mint == old(
                self,
            ).governance_mint && cooldown_blocked(old(self).mint_records@, recipient, now),
            r == Err::<(), ErrorCode>(ErrorCode::BalanceTooHigh) <==> mint == old(
                self,
            ).governance_mint && !cooldown_blocked(old(self).mint_records@, recipient, now)
                && old(self).balance(recipient) >= BALANCE_SOFT_THRESHOLD,
            r == Err::<(), ErrorCode>(ErrorCode::MintCapReached) <==> mint == old(
                self,
            ).governance_mint && !cooldown_blocked(old(self).mint_records@, recipient, now)
                && old(self).balance(recipient) < BALANCE_SOFT_THRESHOLD
                && old(self).balance(recipient) + ISSUE_AMOUNT > MAX_BALANCE,
            r is Ok <==> mint == old(self).governance_mint && !cooldown_blocked(
                old(self).mint_records@,
                recipient,
                now,
            ) && old(self).balance(recipient) < BALANCE_SOFT_THRESHOLD
                && old(self).balance(recipient) + ISSUE_AMOUNT <= MAX_BALANCE,
            r is Ok ==> final(self).balance(recipient) == old(self).balance(recipient)
                + ISSUE_AMOUNT,
            r is Ok ==> forall|m: u64|
                m != recipient ==> final(self).balance(m) == old(self).balance(m),
            r is Ok ==> last_mint_time_of(final(self).mint_records@, recipient) == now,
            r is Ok ==> forall|u: u64|
                u != recipient ==> last_mint_time_of(final(self).mint_records@, u)
                    == last_mint_time_of(old(self).mint_records@, u),
            r is Err ==> *final(self) == *old(self),
            final(self).same_config(*old(self)),
            final(self).proposal_count == old(self).proposal_count,
            final(self).proposals@ == old(self).proposals@,
            final(self).whitelist@ == old(self).whitelist@,
            final(self).vote_records@ == old(self).vote_records@,
    {
        if mint != self.governance_mint {
            return Err(ErrorCode::InvalidCreditReference);
        }
        let mr_idx = find_mint_record(&self.mint_records, recipient);
        let last = match mr_idx {
            Some(i) => self.mint_records[i].last_mint_time,
            None => 0,
        };
        proof {
            match mr_idx {
                Some(i) => lemma_mr_at(self.mint_records@, i as int),
                None => (),
            }
        }
        if last > 0 && now - last < COOLDOWN_SECONDS {
            return Err(ErrorCode::CooldownActive);
        }
        let acct_idx = find_account(&self.credit_accounts, recipient);
        let balance = match acct_idx {
            Some(i) => self.credit_accounts[i].amount,
            None => 0,
        };
        proof {
            match acct_idx {
                Some(i) => lemma_acct_at(self.credit_accounts@, i as int),
                None => (),
            }
        }
        if balance >= BALANCE_SOFT_THRESHOLD {
            return Err(ErrorCode::BalanceTooHigh);
        }
        let new_balance = match balance.checked_add(ISSUE_AMOUNT) {
            Some(v) => v,
            None => {
                return Err(ErrorCode::ArithmeticOverflow);
            },
        };
        if new_balance > MAX_BALANCE {
            return Err(ErrorCode::MintCapReached);
        }
        match acct_idx {
            Some(i) => {
                proof {
                    lemma_acct_update(self.credit_accounts@, i as int, new_balance);
                }
                self.credit_accounts.set(i, CreditAccount { member: recipient, amount: new_balance });
            },
            None => {
                proof {
                    lemma_acct_push(
                        self.credit_accounts@,
                        CreditAccount { member: recipient, amount: new_balance },
                    );
                }
                self.credit_accounts.push(CreditAccount { member: recipient, amount: new_balance });
            },
        }
        match mr_idx {
            Some(i) => {
                proof {
                    lemma_mr_update(self.mint_records@, i as int, now);
                }
                self.mint_records.set(i, MintRecord { user: recipient, last_mint_time: now });
            },
            None => {
                proof {
                    lemma_mr_push(
                        self.mint_records@,
                        MintRecord { user: recipient, last_mint_time: now },
                    );
                }
                self.mint_records.push(MintRecord { user: recipient, last_mint_time: now });
            },
        }
        Ok(())
    }

    /// Creates a proposal in the `Active` state whose voting window runs
    /// from `now` to `now + voting_period`, assigns it the registry's next
    /// sequence number, and advances the counter.
    pub fn create_proposal(
        &mut self,
        proposer: u64,
        title: String,
        description: String,
        voting_period: i64,
        now: i64,
    ) -> (r: Result<u64, ErrorCode>)
        requires
            old(self).wf(),
        ensures
            final(self).wf(),
            r == Err::<u64, ErrorCode>(ErrorCode::TitleTooLong) <==> title@.len() > MAX_TITLE_LEN,
            r == Err::<u64, ErrorCode>(ErrorCode::DescriptionTooLong) <==> title@.len()
                <= MAX_TITLE_LEN && description@.len() > MAX_DESCRIPTION_LEN,
            r == Err::<u64, ErrorCode>(ErrorCode::InvalidVotingPeriod) <==> title@.len()
                <= MAX_TITLE_LEN && description@.len() <= MAX_DESCRIPTION_LEN && voting_period
                <= 0,
            r == Err::<u64, ErrorCode>(ErrorCode::ArithmeticOverflow) <==> title@.len()
                <= MAX_TITLE_LEN && description@.len() <= MAX_DESCRIPTION_LEN && voting_period > 0
                && (now + voting_period > i64::MAX || old(self).proposal_count == u64::MAX),
            r is Ok <==> title@.len() <= MAX_TITLE_LEN && description@.len()
                <= MAX_DESCRIPTION_LEN && voting_period > 0 && now + voting_period <= i64::MAX
                && old(self).proposal_count < u64::MAX,
            r matches Ok(id) ==> id == old(self).proposal_count,
            r is Ok ==> final(self).proposal_count == old(self).proposal_count + 1,
            r is Ok ==> final(self).proposals@ == old(self).proposals@.push(
                (Proposal {
                    dao: old(self).id,
                    proposer,
                    title,
                    description,
                    start_time: now,
                    end_time: (now + voting_period) as i64,
                    yes_votes: 0,
                    no_votes: 0,
                    total_votes_cast: 0,
                    state: ProposalState::Active,
                    proposal_id: old(self).proposal_count,
                }),
            ),
            r is Err ==> *final(self) == *old(self),
            final(self).same_config(*old(self)),
            final(self).whitelist@ == old(self).whitelist@,
            final(self).mint_records@ == old(self).mint_records@,
            final(self).credit_accounts@ == old(self).credit_accounts@,
            final(self).vote_records@ == old(self).vote_records@,
    {
        if title.as_str().unicode_len() > MAX_TITLE_LEN {
            return Err(ErrorCode::TitleTooLong);
        }
        if description.as_str().unicode_len() > MAX_DESCRIPTION_LEN {
            return Err(ErrorCode::DescriptionTooLong);
        }
        if voting_period <= 0 {
            return Err(ErrorCode::InvalidVotingPeriod);
        }
        let end_time = match now.checked_add(voting_period) {
            Some(t) => t,
            None => {
                return Err(ErrorCode::ArithmeticOverflow);
            },
        };
        let new_count = match self.proposal_count.checked_add(1) {
            Some(c) => c,
            None => {
                return Err(ErrorCode::ArithmeticOverflow);
            },
        };
        let id = self.proposal_count;
        let proposal = Proposal {
            dao: self.id,
            proposer,
            title,
            description,
            start_time: now,
            end_time,
            yes_votes: 0,
            no_votes: 0,
            total_votes_cast: 0,
            state: ProposalState::Active,
            proposal_id: id,
        };
        self.proposals.push(proposal);
        self.proposal_count = new_count;
        Ok(id)
    }

    /// Casts a vote of `vote_amount` weight for or against a proposal,
    /// burning the quadratic credit cost from the voter's balance, adding
    /// the weight to the tallies, and recording the vote. The burn, the
    /// tally update and the record creation happen together or not at all,
    /// and the existing-record check is the sole double-vote defense.
    pub fn vote(
        &mut self,
        voter: u64,
        proposal_id: u64,
        mint: u64,
        vote_amount: u64,
        support: bool,
        now: i64,
    ) -> (r: Result<(), ErrorCode>)
        requires
            old(self).wf(),
        ensures
            final(self).wf(),
            r == Err::<(), ErrorCode>(ErrorCode::NotWhitelisted) <==> !old(self).may_vote(voter),
            r == Err::<(), ErrorCode>(ErrorCode::AlreadyExists) <==> old(self).may_vote(voter)
                && old(self).proposal_exists(proposal_id) && old(self).voted(voter, proposal_id),
            r == Err::<(), ErrorCode>(ErrorCode::InvalidCreditReference) <==> old(self).may_vote(
                voter,
            ) && old(self).proposal_exists(proposal_id) && !old(self).voted(voter, proposal_id)
                && mint != old(self).governance_mint,
            r == Err::<(), ErrorCode>(ErrorCode::VotingClosed) <==> old(self).may_vote(voter)
                && old(self).proposal_exists(proposal_id) && !old(self).voted(voter, proposal_id)
                && mint == old(self).governance_mint && !old(self).proposal_at(
                proposal_id,
            ).voting_open_at(now),
            r == Err::<(), ErrorCode>(ErrorCode::ProposalNotActive) <==> old(self).may_vote(voter)
                && (!old(self).proposal_exists(proposal_id) || (!old(self).voted(
                voter,
                proposal_id,
            ) && mint == old(self).governance_mint && old(self).proposal_at(
                proposal_id,
            ).voting_open_at(now) && old(self).proposal_at(proposal_id).state
                != ProposalState::Active)),
            r == Err::<(), ErrorCode>(ErrorCode::InvalidVoteAmount) <==> old(self).may_vote(voter)
                && old(self).proposal_exists(proposal_id) && !old(self).voted(voter, proposal_id)
                && mint == old(self).governance_mint && old(self).proposal_at(
                proposal_id,
            ).voting_open_at(now) && old(self).proposal_at(proposal_id).state
                == ProposalState::Active && vote_amount == 0,
            r == Err::<(), ErrorCode>(ErrorCode::ArithmeticOverflow) <==> old(self).may_vote(voter)
                && old(self).proposal_exists(proposal_id) && !old(self).voted(voter, proposal_id)
                && mint == old(self).governance_mint && old(self).proposal_at(
                proposal_id,
            ).voting_open_at(now) && old(self).proposal_at(proposal_id).state
                == ProposalState::Active && vote_amount > 0 && (vote_cost(
                vote_amount,
                MINT_DECIMALS,
            ) > u64::MAX || (vote_cost(vote_amount, MINT_DECIMALS) <= u64::MAX && old(
                self,
            ).balance(voter) >= vote_cost(vote_amount, MINT_DECIMALS) && old(self).proposal_at(
                proposal_id,
            ).total_votes_cast + vote_amount > u64::MAX)),
            r == Err::<(), ErrorCode>(ErrorCode::InsufficientCredits) <==> old(self).may_vote(
                voter,
            ) && old(self).proposal_exists(proposal_id) && !old(self).voted(voter, proposal_id)
                && mint == old(self).governance_mint && old(self).proposal_at(
                proposal_id,
            ).voting_open_at(now) && old(self).proposal_at(proposal_id).state
                == ProposalState::Active && vote_amount > 0 && vote_cost(
                vote_amount,
                MINT_DECIMALS,
            ) <= u64::MAX && old(self).balance(voter) < vote_cost(vote_amount, MINT_DECIMALS),
            r is Ok <==> old(self).may_vote(voter) && old(self).proposal_exists(proposal_id)
                && !old(self).voted(voter, proposal_id) && mint == old(self).governance_mint
                && old(self).proposal_at(proposal_id).voting_open_at(now) && old(self).proposal_at(
                proposal_id,
            ).state == ProposalState::Active && vote_amount > 0 && vote_cost(
                vote_amount,
                MINT_DECIMALS,
            ) <= u64::MAX && old(self).balance(voter) >= vote_cost(vote_amount, MINT_DECIMALS)
                && old(self).proposal_at(proposal_id).total_votes_cast + vote_amount <= u64::MAX,
            r is Ok ==> final(self).proposals@ == old(self).proposals@.update(
                proposal_id as int,
                (Proposal {
                    yes_votes: if support {
                        (old(self).proposal_at(proposal_id).yes_votes + vote_amount) as u64
                    } else {
                        old(self).proposal_at(proposal_id).yes_votes
                    },
                    no_votes: if support {
                        old(self).proposal_at(proposal_id).no_votes
                    } else {
                        (old(self).proposal_at(proposal_id).no_votes + vote_amount) as u64
                    },
                    total_votes_cast: (old(self).proposal_at(proposal_id).total_votes_cast
                        + vote_amount) as u64,
                    ..old(self).proposal_at(proposal_id)
                }),
            ),
            r is Ok ==> final(self).vote_records@ == old(self).vote_records@.push(
                (VoteRecord {
                    voter,
                    proposal: proposal_id,
                    vote_amount,
                    support,
                    timestamp: now,
                    tokens_spent: vote_cost(vote_amount, MINT_DECIMALS) as u64,
                }),
            ),
            r is Ok ==> final(self).voted(voter, proposal_id),
            r is Ok ==> final(self).balance(voter) == old(self).balance(voter) - vote_cost(
                vote_amount,
                MINT_DECIMALS,
            ),
            r is Ok ==> forall|m: u64|
                m != voter ==> final(self).balance(m) == old(self).balance(m),
            r is Err ==> *final(self) == *old(self),
            final(self).same_config(*old(self)),
            final(self).proposal_count == old(self).proposal_count,
            final(self).whitelist@ == old(self).whitelist@,
            final(self).mint_records@ == old(self).mint_records@,
    {
        let wl_idx = find_whitelist(&self.whitelist, voter);
        let allowed = match wl_idx {
            Some(i) => self.whitelist[i].whitelisted,
            None => false,
        };
        proof {
            match wl_idx {
                Some(i) => lemma_wl_at(self.whitelist@, i as int),
                None => (),
            }
        }
        if !allowed {
            return Err(ErrorCode::NotWhitelisted);
        }
        let n = self.proposals.len();
        if proposal_id >= n as u64 {
            return Err(ErrorCode::ProposalNotActive);
        }
        let pid = proposal_id as usize;
        if find_vote_record(&self.vote_records, voter, proposal_id).is_some() {
            return Err(ErrorCode::AlreadyExists);
        }
        if mint != self.governance_mint {
            return Err(ErrorCode::InvalidCreditReference);
        }
        if !(now >= self.proposals[pid].start_time && now <= self.proposals[pid].end_time) {
            return Err(ErrorCode::VotingClosed);
        }
        if self.proposals[pid].state != ProposalState::Active {
            return Err(ErrorCode::ProposalNotActive);
        }
        if vote_amount == 0 {
            return Err(ErrorCode::InvalidVoteAmount);
        }
        let cost = match quadratic_cost(vote_amount, MINT_DECIMALS) {
            Ok(c) => c,
            Err(e) => {
                return Err(e);
            },
        };
        let acct_idx = find_account(&self.credit_accounts, voter);
        let balance = match acct_idx {
            Some(i) => self.credit_accounts[i].amount,
            None => 0,
        };
        proof {
            match acct_idx {
                Some(i) => lemma_acct_at(self.credit_accounts@, i as int),
                None => (),
            }
        }
        if balance < cost {
            return Err(ErrorCode::InsufficientCredits);
        }
        let total = self.proposals[pid].total_votes_cast;
        let new_total = match total.checked_add(vote_amount) {
            Some(v) => v,
            None => {
                return Err(ErrorCode::ArithmeticOverflow);
            },
        };
        proof {
            assert(self.proposals@[pid as int].wf());
        }
        let yes = self.proposals[pid].yes_votes;
        let no = self.proposals[pid].no_votes;
        let new_yes = if support {
            yes + vote_amount
        } else {
            yes
        };
        let new_no = if support {
            no
        } else {
            no + vote_amount
        };
        match acct_idx {
            Some(i) => {
                proof {
                    lemma_acct_update(self.credit_accounts@, i as int, (balance - cost) as u64);
                }
                self.credit_accounts.set(i, CreditAccount { member: voter, amount: balance - cost });
            },
            None => {
                proof {
                    lemma_vote_cost_positive(vote_amount, MINT_DECIMALS);
                    assert(false);
                }
            },
        }
        let mut updated = Proposal {
            dao: 0,
            proposer: 0,
            title: String::new(),
            description: String::new(),
            start_time: 0,
            end_time: 1,
            yes_votes: 0,
            no_votes: 0,
            total_votes_cast: 0,
            state: ProposalState::Active,
            proposal_id: 0,
        };
        self.proposals.set_and_swap(pid, &mut updated);
        updated.yes_votes = new_yes;
        updated.no_votes = new_no;
        updated.total_votes_cast = new_total;
        self.proposals.set_and_swap(pid, &mut updated);
        proof {
            assert(self.proposals@ =~= old(self).proposals@.update(
                proposal_id as int,
                self.proposals@[proposal_id as int],
            ));
        }
        let record = VoteRecord {
            voter,
            proposal: proposal_id,
            vote_amount,
            support,
            timestamp: now,
            tokens_spent: cost,
        };
        proof {
            lemma_vr_push(self.vote_records@, record);
        }
        self.vote_records.push(record);
        Ok(())
    }

    /// Replaces an updated copy of the proposal at `pid`, leaving every
    /// other proposal untouched.
    fn put_proposal_back(&mut self, pid: usize, updated: &mut Proposal)
        requires
            pid < old(self).proposals@.len(),
        ensures
            final(self).proposals@ == old(self).proposals@.update(pid as int, *old(updated)),
            *final(updated) == old(self).proposals@[pid as int],
            final(self).id == old(self).id,
            final(self).authority == old(self).authority,
            final(self).governance_mint == old(self).governance_mint,
            final(self).name@ == old(self).name@,
            final(self).proposal_count == old(self).proposal_count,
            final(self).quorum_threshold == old(self).quorum_threshold,
            final(self).whitelist@ == old(self).whitelist@,
            final(self).mint_records@ == old(self).mint_records@,
            final(self).credit_accounts@ == old(self).credit_accounts@,
            final(self).vote_records@ == old(self).vote_records@,
    {
        self.proposals.set_and_swap(pid, updated);
    }

    /// Tallies a proposal once its voting window has elapsed: anyone may
    /// call, exactly once per proposal, and the proposal moves from `Active`
    /// to the outcome of the decision rule.
    pub fn tally_proposal(&mut self, proposal_id: u64, now: i64) -> (r: Result<(), ErrorCode>)
        requires
            old(self).wf(),
        ensures
            final(self).wf(),
            r == Err::<(), ErrorCode>(ErrorCode::VotingStillOpen) <==> old(self).proposal_exists(
                proposal_id,
            ) && now <= old(self).proposal_at(proposal_id).end_time,
            r == Err::<(), ErrorCode>(ErrorCode::ProposalNotActive) <==> !old(
                self,
            ).proposal_exists(proposal_id) || (now > old(self).proposal_at(proposal_id).end_time
                && old(self).proposal_at(proposal_id).state != ProposalState::Active),
            r is Ok <==> old(self).proposal_exists(proposal_id) && now > old(self).proposal_at(
                proposal_id,
            ).end_time && old(self).proposal_at(proposal_id).state == ProposalState::Active,
            r is Ok ==> final(self).proposals@ == old(self).proposals@.update(
                proposal_id as int,
                (Proposal {
                    state: tally_outcome(
                        old(self).proposal_at(proposal_id).yes_votes,
                        old(self).proposal_at(proposal_id).no_votes,
                        old(self).proposal_at(proposal_id).total_votes_cast,
                        old(self).quorum_threshold,
                    ),
                    ..old(self).proposal_at(proposal_id)
                }),
            ),
            r is Err ==> *final(self) == *old(self),
            final(self).same_config(*old(self)),
            final(self).proposal_count == old(self).proposal_count,
            final(self).whitelist@ == old(self).whitelist@,
            final(self).mint_records@ == old(self).mint_records@,
            final(self).credit_accounts@ == old(self).credit_accounts@,
            final(self).vote_records@ == old(self).vote_records@,
    {
        let n = self.proposals.len();
        if proposal_id >= n as u64 {
            return Err(ErrorCode::ProposalNotActive);
        }
        let pid = proposal_id as usize;
        if now <= self.proposals[pid].end_time {
            return Err(ErrorCode::VotingStillOpen);
        }
        if self.proposals[pid].state != ProposalState::Active {
            return Err(ErrorCode::ProposalNotActive);
        }
        let quorum_met = self.proposals[pid].total_votes_cast >= self.quorum_threshold;
        let passed = quorum_met && self.proposals[pid].yes_votes > self.proposals[pid].no_votes;
        let outcome = if passed {
            ProposalState::Passed
        } else if !quorum_met {
            ProposalState::QuorumNotMet
        } else {
            ProposalState::Rejected
        };
        let mut updated = self.take_proposal(pid);
        updated.state = outcome;
        self.put_proposal_back(pid, &mut updated);
        proof {
            assert(self.proposals@ =~= old(self).proposals@.update(
                proposal_id as int,
                self.proposals@[proposal_id as int],
            ));
        }
        Ok(())
    }

    /// Marks a passed proposal as executed. Authority-only; legal only from
    /// `Passed`; terminal.
    pub fn execute_proposal(&mut self, caller: u64, proposal_id: u64) -> (r: Result<
        (),
        ErrorCode,
    >)
        requires
            old(self).wf(),
        ensures
            final(self).wf(),
            r == Err::<(), ErrorCode>(ErrorCode::Unauthorized) <==> caller != old(self).authority,
            r == Err::<(), ErrorCode>(ErrorCode::ProposalNotPassed) <==> caller == old(
                self,
            ).authority && (!old(self).proposal_exists(proposal_id) || old(self).proposal_at(
                proposal_id,
            ).state != ProposalState::Passed),
            r is Ok <==> caller == old(self).authority && old(self).proposal_exists(proposal_id)
                && old(self).proposal_at(proposal_id).state == ProposalState::Passed,
            r is Ok ==> final(self).proposals@ == old(self).proposals@.update(
                proposal_id as int,
                (Proposal { state: ProposalState::Executed, ..old(self).proposal_at(proposal_id) }),
            ),
            r is Err ==> *final(self) == *old(self),
            final(self).same_config(*old(self)),
            final(self).proposal_count == old(self).proposal_count,
            final(self).whitelist@ == old(self).whitelist@,
            final(self).mint_records@ == old(self).mint_records@,
            final(self).credit_accounts@ == old(self).credit_accounts@,
            final(self).vote_records@ == old(self).vote_records@,
    {
        if caller != self.authority {
            return Err(ErrorCode::Unauthorized);
        }
        let n = self.proposals.len();
        if proposal_id >= n as u64 {
            return Err(ErrorCode::ProposalNotPassed);
        }
        let pid = proposal_id as usize;
        if self.proposals[pid].state != ProposalState::Passed {
            return Err(ErrorCode::ProposalNotPassed);
        }
        let mut updated = self.take_proposal(pid);
        updated.state = ProposalState::Executed;
        self.put_proposal_back(pid, &mut updated);
        proof {
            assert(self.proposals@ =~= old(self).proposals@.update(
                proposal_id as int,
                self.proposals@[proposal_id as int],
            ));
        }
        Ok(())
    }

    /// Cancels a proposal before it is tallied. Authority-only; legal only
    /// from `Active`; terminal.
    pub fn cancel_proposal(&mut self, caller: u64, proposal_id: u64) -> (r: Result<(), ErrorCode>)
        requires
            old(self).wf(),
        ensures
            final(self).wf(),
            r == Err::<(), ErrorCode>(ErrorCode::Unauthorized) <==> caller != old(self).authority,
            r == Err::<(), ErrorCode>(ErrorCode::ProposalNotActive) <==> caller == old(
                self,
            ).authority && (!old(self).proposal_exists(proposal_id) || old(self).proposal_at(
                proposal_id,
            ).state != ProposalState::Active),
            r is Ok <==> caller == old(self).authority && old(self).proposal_exists(proposal_id)
                && old(self).proposal_at(proposal_id).state == ProposalState::Active,
            r is Ok ==> final(self).proposals@ == old(self).proposals@.update(
                proposal_id as int,
                (Proposal {
                    state: ProposalState::Cancelled,
                    ..old(self).proposal_at(proposal_id)
                }),
            ),
            r is Err ==> *final(self) == *old(self),
            final(self).same_config(*old(self)),
            final(self).proposal_count == old(self).proposal_count,
            final(self).whitelist@ == old(self).whitelist@,
            final(self).mint_records@ == old(self).mint_records@,
            final(self).credit_accounts@ == old(self).credit_accounts@,
            final(self).vote_records@ == old(self).vote_records@,
    {
        if caller != self.authority {
            return Err(ErrorCode::Unauthorized);
        }
        let n = self.proposals.len();
        if proposal_id >= n as u64 {
            return Err(ErrorCode::ProposalNotActive);
        }
        let pid = proposal_id as usize;
        if self.proposals[pid].state != ProposalState::Active {
            return Err(ErrorCode::ProposalNotActive);
        }
        let mut updated = self.take_proposal(pid);
        updated.state = ProposalState::Cancelled;
        self.put_proposal_back(pid, &mut updated);
        proof {
            assert(self.proposals@ =~= old(self).proposals@.update(
                proposal_id as int,
                self.proposals@[proposal_id as int],
            ));
        }
        Ok(())
    }

    /// Whether `user` currently passes the access gate.
    pub fn is_whitelisted(&self, user: u64) -> (r: bool)
        requires
            self.wf(),
        ensures
            r == self.may_vote(user),
    {
        let wl_idx = find_whitelist(&self.whitelist, user);
        proof {
            match wl_idx {
                Some(i) => lemma_wl_at(self.whitelist@, i as int),
                None => (),
            }
        }
        match wl_idx {
            Some(i) => self.whitelist[i].whitelisted,
            None => false,
        }
    }

    /// `member`'s credit balance in base units; 0 without an account.
    pub fn credit_balance(&self, member: u64) -> (r: u64)
        requires
            self.wf(),
        ensures
            r == self.balance(member),
    {
        let acct_idx = find_account(&self.credit_accounts, member);
        proof {
            match acct_idx {
                Some(i) => lemma_acct_at(self.credit_accounts@, i as int),
                None => (),
            }
        }
        match acct_idx {
            Some(i) => self.credit_accounts[i].amount,
            None => 0,
        }
    }

    /// When `member` last received an issuance; 0 means never.
    pub fn last_issuance_time(&self, member: u64) -> (r: i64)
        requires
            self.wf(),
        ensures
            r == last_mint_time_of(self.mint_records@, member),
    {
        let mr_idx = find_mint_record(&self.mint_records, member);
        proof {
            match mr_idx {
                Some(i) => lemma_mr_at(self.mint_records@, i as int),
                None => (),
            }
        }
        match mr_idx {
            Some(i) => self.mint_records[i].last_mint_time,
            None => 0,
        }
    }

    /// The vote `voter` recorded on `proposal_id`, where one exists.
    pub fn get_vote_record(&self, voter: u64, proposal_id: u64) -> (r: Option<VoteRecord>)
        requires
            self.wf(),
        ensures
            r == vote_record_of(self.vote_records@, voter, proposal_id),
    {
        let vr_idx = find_vote_record(&self.vote_records, voter, proposal_id);
        proof {
            match vr_idx {
                Some(i) => lemma_vr_at(self.vote_records@, i as int),
                None => (),
            }
        }
        match vr_idx {
            Some(i) => Some(self.vote_records[i]),
            None => None,
        }
    }

    /// The proposal with sequence number `proposal_id`, where one exists.
    pub fn get_proposal(&self, proposal_id: u64) -> (r: Option<&Proposal>)
        ensures
            r is Some <==> self.proposal_exists(proposal_id),
            r matches Some(p) ==> *p == self.proposal_at(proposal_id),
    {
        let n = self.proposals.len();
        if proposal_id < n as u64 {
            Some(&self.proposals[proposal_id as usize])
        } else {
            None
        }
    }

    /// Swaps the proposal at `pid` out of the collection, leaving a
    /// placeholder behind; `put_proposal_back` restores it.
    fn take_proposal(&mut self, pid: usize) -> (p: Proposal)
        requires
            pid < old(self).proposals@.len(),
        ensures
            p == old(self).proposals@[pid as int],
            final(self).proposals@.len() == old(self).proposals@.len(),
            forall|i: int|
                0 <= i < old(self).proposals@.len() && i != pid ==> final(self).proposals@[i]
                    == old(self).proposals@[i],
            final(self).id == old(self).id,
            final(self).authority == old(self).authority,
            final(self).governance_mint == old(self).governance_mint,
            final(self).name@ == old(self).name@,
            final(self).proposal_count == old(self).proposal_count,
            final(self).quorum_threshold == old(self).quorum_threshold,
            final(self).whitelist@ == old(self).whitelist@,
            final(self).mint_records@ == old(self).mint_records@,
            final(self).credit_accounts@ == old(self).credit_accounts@,
            final(self).vote_records@ == old(self).vote_records@,
    {
        let mut placeholder = Proposal {
            dao: 0,
            proposer: 0,
            title: String::new(),
            description: String::new(),
            start_time: 0,
            end_time: 1,
            yes_votes: 0,
            no_votes: 0,
            total_votes_cast: 0,
            state: ProposalState::Active,
            proposal_id: 0,
        };
        self.proposals.set_and_swap(pid, &mut placeholder);
        placeholder
    }
}

} // verus!
