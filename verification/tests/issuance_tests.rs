use quadratic_voting_dao::dao::{
    BALANCE_SOFT_THRESHOLD, COOLDOWN_SECONDS, ISSUE_AMOUNT, MAX_BALANCE,
};
use quadratic_voting_dao::{Dao, ErrorCode};

const AUTHORITY: u64 = 1;
const MINT: u64 = 2;
const MEMBER: u64 = 10;

fn issuance_dao() -> Dao {
    Dao::new(0, AUTHORITY, MINT, String::from("dao"), 100)
}

#[test]
fn first_issuance_succeeds_without_cooldown() {
    let mut dao = issuance_dao();
    assert_eq!(dao.mint_governance_tokens(MEMBER, MINT, 1_000), Ok(()));
    assert_eq!(dao.credit_balance(MEMBER), ISSUE_AMOUNT);
    assert_eq!(dao.last_issuance_time(MEMBER), 1_000);
}

#[test]
fn issuance_within_cooldown_rejected() {
    let mut dao = issuance_dao();
    dao.mint_governance_tokens(MEMBER, MINT, 1_000).unwrap();
    let second = dao.mint_governance_tokens(MEMBER, MINT, 1_000 + COOLDOWN_SECONDS - 1);
    assert_eq!(second, Err(ErrorCode::CooldownActive));
    assert_eq!(dao.credit_balance(MEMBER), ISSUE_AMOUNT);
    assert_eq!(dao.last_issuance_time(MEMBER), 1_000);
}

#[test]
fn issuance_after_cooldown_succeeds_when_balance_spent() {
    let mut dao = issuance_dao();
    dao.add_to_whitelist(AUTHORITY, MEMBER).unwrap();
    dao.mint_governance_tokens(MEMBER, MINT, 1_000).unwrap();
    // A weight-10 vote costs exactly the full issuance, emptying the balance.
    let pid = dao
        .create_proposal(MEMBER, String::from("t"), String::from("d"), 10, 1_000)
        .unwrap();
    dao.vote(MEMBER, pid, MINT, 10, true, 1_005).unwrap();
    assert_eq!(dao.credit_balance(MEMBER), 0);
    let second = dao.mint_governance_tokens(MEMBER, MINT, 1_000 + COOLDOWN_SECONDS);
    assert_eq!(second, Ok(()));
    assert_eq!(dao.credit_balance(MEMBER), ISSUE_AMOUNT);
}

#[test]
fn issuance_above_soft_threshold_rejected_below_cap() {
    let mut dao = issuance_dao();
    dao.add_to_whitelist(AUTHORITY, MEMBER).unwrap();
    dao.mint_governance_tokens(MEMBER, MINT, 1_000).unwrap();
    // Burn 49 whole credits: balance becomes 51 * 10^9, above the soft
    // threshold of 50 * 10^9 but below the hard cap of 100 * 10^9.
    let pid = dao
        .create_proposal(MEMBER, String::from("t"), String::from("d"), 10, 1_000)
        .unwrap();
    dao.vote(MEMBER, pid, MINT, 7, true, 1_005).unwrap();
    let balance = dao.credit_balance(MEMBER);
    assert!(balance >= BALANCE_SOFT_THRESHOLD && balance < MAX_BALANCE);
    let second = dao.mint_governance_tokens(MEMBER, MINT, 1_000 + COOLDOWN_SECONDS);
    assert_eq!(second, Err(ErrorCode::BalanceTooHigh));
    assert_eq!(dao.credit_balance(MEMBER), balance);
}

#[test]
fn issuance_that_would_cross_cap_rejected() {
    let mut dao = issuance_dao();
    dao.add_to_whitelist(AUTHORITY, MEMBER).unwrap();
    dao.mint_governance_tokens(MEMBER, MINT, 1_000).unwrap();
    // Burn down to 19 * 10^9: below the soft threshold, but another full
    // issuance would land above the hard cap.
    let first = dao
        .create_proposal(MEMBER, String::from("t"), String::from("d"), 10, 1_000)
        .unwrap();
    dao.vote(MEMBER, first, MINT, 9, true, 1_005).unwrap();
    assert_eq!(dao.credit_balance(MEMBER), 19_000_000_000);
    let second = dao.mint_governance_tokens(MEMBER, MINT, 1_000 + COOLDOWN_SECONDS);
    assert_eq!(second, Err(ErrorCode::MintCapReached));
    assert_eq!(dao.credit_balance(MEMBER), 19_000_000_000);
}

#[test]
fn repeated_issuance_never_exceeds_cap() {
    let mut dao = issuance_dao();
    let mut now: i64 = 1_000;
    let mut successes: u32 = 0;
    for _ in 0..5 {
        if dao.mint_governance_tokens(MEMBER, MINT, now).is_ok() {
            successes += 1;
        }
        assert!(dao.credit_balance(MEMBER) <= MAX_BALANCE);
        now += COOLDOWN_SECONDS;
    }
    assert_eq!(successes, 1);
    assert_eq!(dao.credit_balance(MEMBER), ISSUE_AMOUNT);
}

#[test]
fn issuance_with_wrong_credit_reference_rejected() {
    let mut dao = issuance_dao();
    assert_eq!(
        dao.mint_governance_tokens(MEMBER, MINT + 1, 1_000),
        Err(ErrorCode::InvalidCreditReference)
    );
    assert_eq!(dao.credit_balance(MEMBER), 0);
}
