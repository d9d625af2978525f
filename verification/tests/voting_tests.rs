use quadratic_voting_dao::{Dao, ErrorCode};

const AUTHORITY: u64 = 1;
const MINT: u64 = 2;
const ALICE: u64 = 10;
const BOB: u64 = 11;

fn voting_dao() -> Dao {
    let mut dao = Dao::new(0, AUTHORITY, MINT, String::from("dao"), 3);
    dao.add_to_whitelist(AUTHORITY, ALICE).unwrap();
    dao.add_to_whitelist(AUTHORITY, BOB).unwrap();
    dao.mint_governance_tokens(ALICE, MINT, 500).unwrap();
    dao.mint_governance_tokens(BOB, MINT, 500).unwrap();
    dao
}

fn open_proposal(dao: &mut Dao) -> u64 {
    dao.create_proposal(ALICE, String::from("title"), String::from("body"), 1_000, 1_000)
        .unwrap()
}

#[test]
fn vote_burns_quadratic_cost_and_updates_tallies() {
    let mut dao = voting_dao();
    let pid = open_proposal(&mut dao);
    dao.vote(ALICE, pid, MINT, 3, true, 1_100).unwrap();
    assert_eq!(dao.credit_balance(ALICE), 100_000_000_000 - 9_000_000_000);
    let p = dao.get_proposal(pid).unwrap();
    assert_eq!(p.yes_votes, 3);
    assert_eq!(p.no_votes, 0);
    assert_eq!(p.total_votes_cast, 3);
}

#[test]
fn vote_against_updates_no_tally() {
    let mut dao = voting_dao();
    let pid = open_proposal(&mut dao);
    dao.vote(BOB, pid, MINT, 2, false, 1_100).unwrap();
    let p = dao.get_proposal(pid).unwrap();
    assert_eq!(p.yes_votes, 0);
    assert_eq!(p.no_votes, 2);
    assert_eq!(p.total_votes_cast, 2);
    assert_eq!(dao.credit_balance(BOB), 100_000_000_000 - 4_000_000_000);
}

#[test]
fn tallies_stay_consistent_across_votes() {
    let mut dao = voting_dao();
    let pid = open_proposal(&mut dao);
    dao.vote(ALICE, pid, MINT, 5, true, 1_100).unwrap();
    dao.vote(BOB, pid, MINT, 4, false, 1_200).unwrap();
    let p = dao.get_proposal(pid).unwrap();
    assert_eq!(p.yes_votes + p.no_votes, p.total_votes_cast);
    assert_eq!(p.total_votes_cast, 9);
}

#[test]
fn vote_record_stores_exact_cost() {
    let mut dao = voting_dao();
    let pid = open_proposal(&mut dao);
    dao.vote(ALICE, pid, MINT, 3, true, 1_100).unwrap();
    let record = dao.get_vote_record(ALICE, pid).unwrap();
    assert_eq!(record.voter, ALICE);
    assert_eq!(record.proposal, pid);
    assert_eq!(record.vote_amount, 3);
    assert!(record.support);
    assert_eq!(record.timestamp, 1_100);
    assert_eq!(record.tokens_spent, 9_000_000_000);
}

#[test]
fn second_vote_same_pair_rejected_regardless_of_weight_and_support() {
    let mut dao = voting_dao();
    let pid = open_proposal(&mut dao);
    dao.vote(ALICE, pid, MINT, 3, true, 1_100).unwrap();
    assert_eq!(
        dao.vote(ALICE, pid, MINT, 1, false, 1_200),
        Err(ErrorCode::AlreadyExists)
    );
    assert_eq!(
        dao.vote(ALICE, pid, MINT, 0, true, 1_200),
        Err(ErrorCode::AlreadyExists)
    );
    assert_eq!(
        dao.vote(ALICE, pid, MINT, u64::MAX, true, 1_200),
        Err(ErrorCode::AlreadyExists)
    );
    // The recorded vote and the tallies are untouched.
    let p = dao.get_proposal(pid).unwrap();
    assert_eq!(p.yes_votes, 3);
    assert_eq!(p.total_votes_cast, 3);
    assert_eq!(dao.get_vote_record(ALICE, pid).unwrap().vote_amount, 3);
}

#[test]
fn same_voter_may_vote_on_other_proposals() {
    let mut dao = voting_dao();
    let first = open_proposal(&mut dao);
    let second = open_proposal(&mut dao);
    dao.vote(ALICE, first, MINT, 2, true, 1_100).unwrap();
    assert_eq!(dao.vote(ALICE, second, MINT, 2, false, 1_100), Ok(()));
}

#[test]
fn unwhitelisted_voter_rejected() {
    let mut dao = voting_dao();
    let pid = open_proposal(&mut dao);
    let eve: u64 = 99;
    assert_eq!(
        dao.vote(eve, pid, MINT, 1, true, 1_100),
        Err(ErrorCode::NotWhitelisted)
    );
}

#[test]
fn vote_outside_window_rejected() {
    let mut dao = voting_dao();
    let pid = open_proposal(&mut dao);
    assert_eq!(
        dao.vote(ALICE, pid, MINT, 1, true, 999),
        Err(ErrorCode::VotingClosed)
    );
    assert_eq!(
        dao.vote(ALICE, pid, MINT, 1, true, 2_001),
        Err(ErrorCode::VotingClosed)
    );
    // The window bounds themselves are open for voting.
    assert_eq!(dao.vote(ALICE, pid, MINT, 1, true, 1_000), Ok(()));
    assert_eq!(dao.vote(BOB, pid, MINT, 1, true, 2_000), Ok(()));
}

#[test]
fn vote_on_missing_proposal_rejected() {
    let mut dao = voting_dao();
    assert_eq!(
        dao.vote(ALICE, 0, MINT, 1, true, 1_100),
        Err(ErrorCode::ProposalNotActive)
    );
}

#[test]
fn vote_with_wrong_credit_reference_rejected() {
    let mut dao = voting_dao();
    let pid = open_proposal(&mut dao);
    assert_eq!(
        dao.vote(ALICE, pid, MINT + 1, 1, true, 1_100),
        Err(ErrorCode::InvalidCreditReference)
    );
}

#[test]
fn zero_weight_vote_rejected() {
    let mut dao = voting_dao();
    let pid = open_proposal(&mut dao);
    assert_eq!(
        dao.vote(ALICE, pid, MINT, 0, true, 1_100),
        Err(ErrorCode::InvalidVoteAmount)
    );
}

#[test]
fn unaffordable_vote_rejected() {
    let mut dao = voting_dao();
    let pid = open_proposal(&mut dao);
    // Weight 11 costs 121 whole credits; the balance holds 100.
    assert_eq!(
        dao.vote(ALICE, pid, MINT, 11, true, 1_100),
        Err(ErrorCode::InsufficientCredits)
    );
    assert_eq!(dao.credit_balance(ALICE), 100_000_000_000);
}

#[test]
fn overflowing_vote_cost_rejected() {
    let mut dao = voting_dao();
    let pid = open_proposal(&mut dao);
    assert_eq!(
        dao.vote(ALICE, pid, MINT, u64::MAX, true, 1_100),
        Err(ErrorCode::ArithmeticOverflow)
    );
}
