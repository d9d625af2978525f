use vstd::prelude::*;

verus! {

/// One whitelist entry: whether `user` may vote in the DAO that owns the
/// entry. Keyed uniquely by `user`.
#[derive(Clone, Copy, Debug, PartialEq, Eq, Structural)]
pub struct WhitelistRecord {
    pub user: u64,
    pub whitelisted: bool,
}

/// One credit-issuance record: when `user` last received an issuance.
/// Keyed uniquely by `user`; a `last_mint_time` of 0 means never.
#[derive(Clone, Copy, Debug, PartialEq, Eq, Structural)]
pub struct MintRecord {
    pub user: u64,
    pub last_mint_time: i64,
}

/// One cast vote. Keyed uniquely by `(voter, proposal)`; its existence is
/// the sole double-vote defense. Immutable once created.
#[derive(Clone, Copy, Debug, PartialEq, Eq, Structural)]
pub struct VoteRecord {
    pub voter: u64,
    pub proposal: u64,
    pub vote_amount: u64,
    pub support: bool,
    pub timestamp: i64,
    pub tokens_spent: u64,
}

/// One member's governance-credit balance. Keyed uniquely by `member`.
#[derive(Clone, Copy, Debug, PartialEq, Eq, Structural)]
pub struct CreditAccount {
    pub member: u64,
    pub amount: u64,
}

// ---------------------------------------------------------------------------
// Whitelist entries as a map from user to allowance.

pub open spec fn wl_unique(s: Seq<WhitelistRecord>) -> bool {
    forall|i: int, j: int|
        0 <= i < s.len() && 0 <= j < s.len() && i != j ==> s[i].user != s[j].user
}

pub open spec fn wl_has(s: Seq<WhitelistRecord>, user: u64) -> bool {
    exists|i: int| 0 <= i < s.len() && s[i].user == user
}

pub open spec fn wl_index_of(s: Seq<WhitelistRecord>, user: u64) -> int {
    choose|i: int| 0 <= i < s.len() && s[i].user == user
}

/// Whether `user` passes the access gate: a record exists and is marked
/// allowed. An absent record denies access.
pub open spec fn wl_allowed(s: Seq<WhitelistRecord>, user: u64) -> bool {
    wl_has(s, user) && s[wl_index_of(s, user)].whitelisted
}

pub proof fn lemma_wl_at(s: Seq<WhitelistRecord>, j: int)
    requires
        wl_unique(s),
        0 <= j < s.len(),
    ensures
        wl_has(s, s[j].user),
        wl_index_of(s, s[j].user) == j,
        wl_allowed(s, s[j].user) == s[j].whitelisted,
{
    assert(0 <= j < s.len() && s[j].user == s[j].user);
    let k = wl_index_of(s, s[j].user);
    assert(0 <= k < s.len() && s[k].user == s[j].user);
}

pub proof fn lemma_wl_push(s: Seq<WhitelistRecord>, r: WhitelistRecord)
    requires
        wl_unique(s),
        !wl_has(s, r.user),
    ensures
        wl_unique(s.push(r)),
        wl_allowed(s.push(r), r.user) == r.whitelisted,
        forall|u: u64| u != r.user ==> wl_allowed(s.push(r), u) == wl_allowed(s, u),
        forall|u: u64| u != r.user ==> wl_has(s.push(r), u) == wl_has(s, u),
{
    let s2 = s.push(r);
    assert forall|i: int, j: int|
        0 <= i < s2.len() && 0 <= j < s2.len() && i != j implies s2[i].user != s2[j].user by {
        if i < s.len() && j < s.len() {
        } else if i < s.len() {
            assert(s2[j] == r);
            assert(s[i].user != r.user) by {
                if s[i].user == r.user {
                    assert(wl_has(s, r.user));
                }
            }
        } else {
            assert(s2[i] == r);
            assert(s[j].user != r.user) by {
                if s[j].user == r.user {
                    assert(wl_has(s, r.user));
                }
            }
        }
    }
    assert(s2[s.len() as int] == r);
    lemma_wl_at(s2, s.len() as int);
    assert forall|u: u64| u != r.user implies wl_allowed(s2, u) == wl_allowed(s, u)
        && wl_has(s2, u) == wl_has(s, u) by {
        if wl_has(s, u) {
            let k = wl_index_of(s, u);
            assert(s2[k] == s[k]);
            lemma_wl_at(s2, k);
            lemma_wl_at(s, k);
        } else if wl_has(s2, u) {
            let k = choose|i: int| 0 <= i < s2.len() && s2[i].user == u;
            assert(k < s.len() || s2[k] == r);
            assert(0 <= k < s.len() && s[k].user == u);
        }
    }
}

pub proof fn lemma_wl_remove(s: Seq<WhitelistRecord>, j: int)
    requires
        wl_unique(s),
        0 <= j < s.len(),
    ensures
        wl_unique(s.remove(j)),
        !wl_has(s.remove(j), s[j].user),
        forall|u: u64| u != s[j].user ==> wl_allowed(s.remove(j), u) == wl_allowed(s, u),
        forall|u: u64| u != s[j].user ==> wl_has(s.remove(j), u) == wl_has(s, u),
{
    let s2 = s.remove(j);
    assert forall|i: int, k: int|
        0 <= i < s2.len() && 0 <= k < s2.len() && i != k implies s2[i].user != s2[k].user by {
        let i0: int = if i < j { i } else { i + 1 };
        let k0: int = if k < j { k } else { k + 1 };
        assert(s2[i] == s[i0] && s2[k] == s[k0]);
    }
    assert(!wl_has(s2, s[j].user)) by {
        if wl_has(s2, s[j].user) {
            let k = choose|i: int| 0 <= i < s2.len() && s2[i].user == s[j].user;
            let k0: int = if k < j { k } else { k + 1 };
            assert(s2[k] == s[k0]);
            assert(k0 != j);
        }
    }
    assert forall|u: u64| u != s[j].user implies wl_allowed(s2, u) == wl_allowed(s, u)
        && wl_has(s2, u) == wl_has(s, u) by {
        if wl_has(s, u) {
            let k = wl_index_of(s, u);
            assert(0 <= k < s.len() && s[k].user == u);
            assert(k != j);
            let k2: int = if k < j { k } else { k - 1 };
            assert(s2[k2] == s[k]);
            lemma_wl_at(s2, k2);
            lemma_wl_at(s, k);
        } else if wl_has(s2, u) {
            let k = choose|i: int| 0 <= i < s2.len() && s2[i].user == u;
            let k0: int = if k < j { k } else { k + 1 };
            assert(s2[k] == s[k0]);
        }
    }
}

/// Finds the index of `user`'s whitelist entry by linear search.
pub fn find_whitelist(records: &Vec<WhitelistRecord>, user: u64) -> (r: Option<usize>)
    ensures
        r matches Some(i) ==> i < records@.len() && records@[i as int].user == user,
        r is Some <==> wl_has(records@, user),
{
    let n = records.len();
    let mut i: usize = 0;
    while i < n
        invariant
            n == records@.len(),
            i <= n,
            forall|j: int| 0 <= j < i ==> records@[j].user != user,
        decreases n - i,
    {
        if records[i].user == user {
            return Some(i);
        }
        i = i + 1;
    }
    None
}

// ---------------------------------------------------------------------------
// Issuance records as a map from user to last issuance time.

pub open spec fn mr_unique(s: Seq<MintRecord>) -> bool {
    forall|i: int, j: int|
        0 <= i < s.len() && 0 <= j < s.len() && i != j ==> s[i].user != s[j].user
}

pub open spec fn mr_has(s: Seq<MintRecord>, user: u64) -> bool {
    exists|i: int| 0 <= i < s.len() && s[i].user == user
}

pub open spec fn mr_index_of(s: Seq<MintRecord>, user: u64) -> int {
    choose|i: int| 0 <= i < s.len() && s[i].user == user
}

/// When `user` last received an issuance; 0 where no record exists, meaning
/// never.
pub open spec fn last_mint_time_of(s: Seq<MintRecord>, user: u64) -> i64 {
    if mr_has(s, user) {
        s[mr_index_of(s, user)].last_mint_time
    } else {
        0
    }
}

pub proof fn lemma_mr_at(s: Seq<MintRecord>, j: int)
    requires
        mr_unique(s),
        0 <= j < s.len(),
    ensures
        mr_has(s, s[j].user),
        mr_index_of(s, s[j].user) == j,
        last_mint_time_of(s, s[j].user) == s[j].last_mint_time,
{
    assert(0 <= j < s.len() && s[j].user == s[j].user);
    let k = mr_index_of(s, s[j].user);
    assert(0 <= k < s.len() && s[k].user == s[j].user);
}

pub proof fn lemma_mr_push(s: Seq<MintRecord>, r: MintRecord)
    requires
        mr_unique(s),
        !mr_has(s, r.user),
    ensures
        mr_unique(s.push(r)),
        last_mint_time_of(s.push(r), r.user) == r.last_mint_time,
        forall|u: u64| u != r.user ==> last_mint_time_of(s.push(r), u) == last_mint_time_of(s, u),
{
    let s2 = s.push(r);
    assert forall|i: int, j: int|
        0 <= i < s2.len() && 0 <= j < s2.len() && i != j implies s2[i].user != s2[j].user by {
        if i < s.len() && j < s.len() {
        } else if i < s.len() {
            assert(s2[j] == r);
            if s[i].user == r.user {
                assert(mr_has(s, r.user));
            }
        } else {
            assert(s2[i] == r);
            if s[j].user == r.user {
                assert(mr_has(s, r.user));
            }
        }
    }
    assert(s2[s.len() as int] == r);
    lemma_mr_at(s2, s.len() as int);
    assert forall|u: u64| u != r.user implies last_mint_time_of(s2, u) == last_mint_time_of(s, u) by {
        if mr_has(s, u) {
            let k = mr_index_of(s, u);
            assert(s2[k] == s[k]);
            lemma_mr_at(s2, k);
            lemma_mr_at(s, k);
        } else if mr_has(s2, u) {
            let k = choose|i: int| 0 <= i < s2.len() && s2[i].user == u;
            assert(k < s.len() || s2[k] == r);
            assert(0 <= k < s.len() && s[k].user == u);
        }
    }
}

pub proof fn lemma_mr_update(s: Seq<MintRecord>, j: int, t: i64)
    requires
        mr_unique(s),
        0 <= j < s.len(),
    ensures
        mr_unique(s.update(j, MintRecord { user: s[j].user, last_mint_time: t })),
        last_mint_time_of(
            s.update(j, MintRecord { user: s[j].user, last_mint_time: t }),
            s[j].user,
        ) == t,
        forall|u: u64|
            u != s[j].user ==> last_mint_time_of(
                s.update(j, MintRecord { user: s[j].user, last_mint_time: t }),
                u,
            ) == last_mint_time_of(s, u),
{
    let s2 = s.update(j, MintRecord { user: s[j].user, last_mint_time: t });
    assert(forall|i: int| 0 <= i < s.len() ==> s2[i].user == s[i].user);
    lemma_mr_at(s2, j);
    assert forall|u: u64| u != s[j].user implies last_mint_time_of(s2, u) == last_mint_time_of(s, u) by {
        if mr_has(s, u) {
            let k = mr_index_of(s, u);
            assert(k != j);
            assert(s2[k] == s[k]);
            lemma_mr_at(s2, k);
            lemma_mr_at(s, k);
        } else if mr_has(s2, u) {
            let k = choose|i: int| 0 <= i < s2.len() && s2[i].user == u;
            assert(s[k].user == u);
        }
    }
}

/// Finds the index of `user`'s issuance record by linear search.
pub fn find_mint_record(records: &Vec<MintRecord>, user: u64) -> (r: Option<usize>)
    ensures
        r matches Some(i) ==> i < records@.len() && records@[i as int].user == user,
        r is Some <==> mr_has(records@, user),
{
    let n = records.len();
    let mut i: usize = 0;
    while i < n
        invariant
            n == records@.len(),
            i <= n,
            forall|j: int| 0 <= j < i ==> records@[j].user != user,
        decreases n - i,
    {
        if records[i].user == user {
            return Some(i);
        }
        i = i + 1;
    }
    None
}

// ---------------------------------------------------------------------------
// Credit accounts as a map from member to balance.

pub open spec fn acct_unique(s: Seq<CreditAccount>) -> bool {
    forall|i: int, j: int|
        0 <= i < s.len() && 0 <= j < s.len() && i != j ==> s[i].member != s[j].member
}

pub open spec fn acct_has(s: Seq<CreditAccount>, member: u64) -> bool {
    exists|i: int| 0 <= i < s.len() && s[i].member == member
}

pub open spec fn acct_index_of(s: Seq<CreditAccount>, member: u64) -> int {
    choose|i: int| 0 <= i < s.len() && s[i].member == member
}

/// `member`'s credit balance; 0 where no account exists.
pub open spec fn balance_of(s: Seq<CreditAccount>, member: u64) -> u64 {
    if acct_has(s, member) {
        s[acct_index_of(s, member)].amount
    } else {
        0
    }
}

pub proof fn lemma_acct_at(s: Seq<CreditAccount>, j: int)
    requires
        acct_unique(s),
        0 <= j < s.len(),
    ensures
        acct_has(s, s[j].member),
        acct_index_of(s, s[j].member) == j,
        balance_of(s, s[j].member) == s[j].amount,
{
    assert(0 <= j < s.len() && s[j].member == s[j].member);
    let k = acct_index_of(s, s[j].member);
    assert(0 <= k < s.len() && s[k].member == s[j].member);
}

pub proof fn lemma_acct_push(s: Seq<CreditAccount>, r: CreditAccount)
    requires
        acct_unique(s),
        !acct_has(s, r.member),
    ensures
        acct_unique(s.push(r)),
        balance_of(s.push(r), r.member) == r.amount,
        forall|m: u64| m != r.member ==> balance_of(s.push(r), m) == balance_of(s, m),
{
    let s2 = s.push(r);
    assert forall|i: int, j: int|
        0 <= i < s2.len() && 0 <= j < s2.len() && i != j implies s2[i].member != s2[j].member by {
        if i < s.len() && j < s.len() {
        } else if i < s.len() {
            assert(s2[j] == r);
            if s[i].member == r.member {
                assert(acct_has(s, r.member));
            }
        } else {
            assert(s2[i] == r);
            if s[j].member == r.member {
                assert(acct_has(s, r.member));
            }
        }
    }
    assert(s2[s.len() as int] == r);
    lemma_acct_at(s2, s.len() as int);
    assert forall|m: u64| m != r.member implies balance_of(s2, m) == balance_of(s, m) by {
        if acct_has(s, m) {
            let k = acct_index_of(s, m);
            assert(s2[k] == s[k]);
            lemma_acct_at(s2, k);
            lemma_acct_at(s, k);
        } else if acct_has(s2, m) {
            let k = choose|i: int| 0 <= i < s2.len() && s2[i].member == m;
            assert(k < s.len() || s2[k] == r);
            assert(0 <= k < s.len() && s[k].member == m);
        }
    }
}

pub proof fn lemma_acct_update(s: Seq<CreditAccount>, j: int, v: u64)
    requires
        acct_unique(s),
        0 <= j < s.len(),
    ensures
        acct_unique(s.update(j, CreditAccount { member: s[j].member, amount: v })),
        balance_of(s.update(j, CreditAccount { member: s[j].member, amount: v }), s[j].member)
            == v,
        forall|m: u64|
            m != s[j].member ==> balance_of(
                s.update(j, CreditAccount { member: s[j].member, amount: v }),
                m,
            ) == balance_of(s, m),
{
    let s2 = s.update(j, CreditAccount { member: s[j].member, amount: v });
    assert(forall|i: int| 0 <= i < s.len() ==> s2[i].member == s[i].member);
    lemma_acct_at(s2, j);
    assert forall|m: u64| m != s[j].member implies balance_of(s2, m) == balance_of(s, m) by {
        if acct_has(s, m) {
            let k = acct_index_of(s, m);
            assert(k != j);
            assert(s2[k] == s[k]);
            lemma_acct_at(s2, k);
            lemma_acct_at(s, k);
        } else if acct_has(s2, m) {
            let k = choose|i: int| 0 <= i < s2.len() && s2[i].member == m;
            assert(s[k].member == m);
        }
    }
}

/// Finds the index of `member`'s credit account by linear search.
pub fn find_account(accounts: &Vec<CreditAccount>, member: u64) -> (r: Option<usize>)
    ensures
        r matches Some(i) ==> i < accounts@.len() && accounts@[i as int].member == member,
        r is Some <==> acct_has(accounts@, member),
{
    let n = accounts.len();
    let mut i: usize = 0;
    while i < n
        invariant
            n == accounts@.len(),
            i <= n,
            forall|j: int| 0 <= j < i ==> accounts@[j].member != member,
        decreases n - i,
    {
        if accounts[i].member == member {
            return Some(i);
        }
        i = i + 1;
    }
    None
}

// ---------------------------------------------------------------------------
// Vote records as a map from (voter, proposal) to the recorded vote.

pub open spec fn vr_unique(s: Seq<VoteRecord>) -> bool {
    forall|i: int, j: int|
        0 <= i < s.len() && 0 <= j < s.len() && i != j ==> !(s[i].voter == s[j].voter
            && s[i].proposal == s[j].proposal)
}

pub open spec fn has_vote(s: Seq<VoteRecord>, voter: u64, proposal: u64) -> bool {
    exists|i: int| 0 <= i < s.len() && s[i].voter == voter && s[i].proposal == proposal
}

pub open spec fn vr_index_of(s: Seq<VoteRecord>, voter: u64, proposal: u64) -> int {
    choose|i: int| 0 <= i < s.len() && s[i].voter == voter && s[i].proposal == proposal
}

/// The vote `voter` recorded on `proposal`, where one exists.
pub open spec fn vote_record_of(s: Seq<VoteRecord>, voter: u64, proposal: u64) -> Option<
    VoteRecord,
> {
    if has_vote(s, voter, proposal) {
        Some(s[vr_index_of(s, voter, proposal)])
    } else {
        None
    }
}

pub proof fn lemma_vr_at(s: Seq<VoteRecord>, j: int)
    requires
        vr_unique(s),
        0 <= j < s.len(),
    ensures
        has_vote(s, s[j].voter, s[j].proposal),
        vr_index_of(s, s[j].voter, s[j].proposal) == j,
        vote_record_of(s, s[j].voter, s[j].proposal) == Some(s[j]),
{
    assert(0 <= j < s.len() && s[j].voter == s[j].voter && s[j].proposal == s[j].proposal);
    let k = vr_index_of(s, s[j].voter, s[j].proposal);
    assert(0 <= k < s.len() && s[k].voter == s[j].voter && s[k].proposal == s[j].proposal);
}

pub proof fn lemma_vr_push(s: Seq<VoteRecord>, r: VoteRecord)
    requires
        vr_unique(s),
        !has_vote(s, r.voter, r.proposal),
    ensures
        vr_unique(s.push(r)),
        vote_record_of(s.push(r), r.voter, r.proposal) == Some(r),
        has_vote(s.push(r), r.voter, r.proposal),
        forall|v: u64, p: u64|
            !(v == r.voter && p == r.proposal) ==> vote_record_of(s.push(r), v, p)
                == vote_record_of(s, v, p),
        forall|v: u64, p: u64|
            !(v == r.voter && p == r.proposal) ==> has_vote(s.push(r), v, p) == has_vote(s, v, p),
{
    let s2 = s.push(r);
    assert forall|i: int, j: int|
        0 <= i < s2.len() && 0 <= j < s2.len() && i != j implies !(s2[i].voter == s2[j].voter
        && s2[i].proposal == s2[j].proposal) by {
        if i < s.len() && j < s.len() {
        } else if i < s.len() {
            assert(s2[j] == r);
            if s[i].voter == r.voter && s[i].proposal == r.proposal {
                assert(has_vote(s, r.voter, r.proposal));
            }
        } else {
            assert(s2[i] == r);
            if s[j].voter == r.voter && s[j].proposal == r.proposal {
                assert(has_vote(s, r.voter, r.proposal));
            }
        }
    }
    assert(s2[s.len() as int] == r);
    lemma_vr_at(s2, s.len() as int);
    assert forall|v: u64, p: u64| !(v == r.voter && p == r.proposal) implies vote_record_of(
        s2,
        v,
        p,
    ) == vote_record_of(s, v, p) && has_vote(s2, v, p) == has_vote(s, v, p) by {
        if has_vote(s, v, p) {
            let k = vr_index_of(s, v, p);
            assert(s2[k] == s[k]);
            lemma_vr_at(s2, k);
            lemma_vr_at(s, k);
        } else if has_vote(s2, v, p) {
            let k = choose|i: int| 0 <= i < s2.len() && s2[i].voter == v && s2[i].proposal == p;
            assert(k < s.len() || s2[k] == r);
            assert(0 <= k < s.len() && s[k].voter == v && s[k].proposal == p);
        }
    }
}

/// Finds the index of the vote `voter` cast on `proposal` by linear search.
pub fn find_vote_record(records: &Vec<VoteRecord>, voter: u64, proposal: u64) -> (r: Option<
    usize,
>)
    ensures
        r matches Some(i) ==> i < records@.len() && records@[i as int].voter == voter
            && records@[i as int].proposal == proposal,
        r is Some <==> has_vote(records@, voter, proposal),
{
    let n = records.len();
    let mut i: usize = 0;
    while i < n
        invariant
            n == records@.len(),
            i <= n,
            forall|j: int|
                0 <= j < i ==> !(records@[j].voter == voter && records@[j].proposal == proposal),
        decreases n - i,
    {
        if records[i].voter == voter && records[i].proposal == proposal {
            return Some(i);
        }
        i = i + 1;
    }
    None
}

} // verus!
