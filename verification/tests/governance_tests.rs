use quadratic_voting_dao::{Dao, ErrorCode, Governance};

const AUTHORITY: u64 = 1;
const MINT: u64 = 2;
const MEMBER: u64 = 10;

#[test]
fn initialize_creates_registry() {
    let mut gov = Governance::new();
    let id = gov
        .initialize(AUTHORITY, MINT, String::from("community"), 100)
        .unwrap();
    assert_eq!(id, 0);
    let dao = gov.get_dao(id).unwrap();
    assert_eq!(dao.authority, AUTHORITY);
    assert_eq!(dao.governance_mint, MINT);
    assert_eq!(dao.name, "community");
    assert_eq!(dao.proposal_count, 0);
    assert_eq!(dao.quorum_threshold, 100);
}

#[test]
fn initialize_duplicate_name_rejected() {
    let mut gov = Governance::new();
    gov.initialize(AUTHORITY, MINT, String::from("community"), 100)
        .unwrap();
    let second = gov.initialize(7, 8, String::from("community"), 5);
    assert_eq!(second, Err(ErrorCode::AlreadyExists));
    assert_eq!(gov.daos.len(), 1);
}

#[test]
fn initialize_distinct_names_accepted() {
    let mut gov = Governance::new();
    let a = gov.initialize(AUTHORITY, MINT, String::from("alpha"), 1).unwrap();
    let b = gov.initialize(AUTHORITY, MINT, String::from("beta"), 2).unwrap();
    assert_eq!(a, 0);
    assert_eq!(b, 1);
    assert!(gov.get_dao(2).is_none());
}

#[test]
fn grant_access_authority_only() {
    let mut dao = Dao::new(0, AUTHORITY, MINT, String::from("dao"), 10);
    let outsider: u64 = 99;
    assert_eq!(
        dao.add_to_whitelist(outsider, MEMBER),
        Err(ErrorCode::Unauthorized)
    );
    assert!(!dao.is_whitelisted(MEMBER));
    assert_eq!(dao.add_to_whitelist(AUTHORITY, MEMBER), Ok(()));
    assert!(dao.is_whitelisted(MEMBER));
}

#[test]
fn grant_access_twice_rejected() {
    let mut dao = Dao::new(0, AUTHORITY, MINT, String::from("dao"), 10);
    dao.add_to_whitelist(AUTHORITY, MEMBER).unwrap();
    assert_eq!(
        dao.add_to_whitelist(AUTHORITY, MEMBER),
        Err(ErrorCode::AlreadyExists)
    );
}

#[test]
fn revoke_access_authority_only() {
    let mut dao = Dao::new(0, AUTHORITY, MINT, String::from("dao"), 10);
    dao.add_to_whitelist(AUTHORITY, MEMBER).unwrap();
    assert_eq!(
        dao.remove_from_whitelist(77, MEMBER),
        Err(ErrorCode::Unauthorized)
    );
    assert_eq!(dao.remove_from_whitelist(AUTHORITY, MEMBER), Ok(()));
    assert!(!dao.is_whitelisted(MEMBER));
}

#[test]
fn revoke_absent_record_rejected() {
    let mut dao = Dao::new(0, AUTHORITY, MINT, String::from("dao"), 10);
    assert_eq!(
        dao.remove_from_whitelist(AUTHORITY, MEMBER),
        Err(ErrorCode::NotWhitelisted)
    );
}

#[test]
fn regrant_after_revoke_accepted() {
    let mut dao = Dao::new(0, AUTHORITY, MINT, String::from("dao"), 10);
    dao.add_to_whitelist(AUTHORITY, MEMBER).unwrap();
    dao.remove_from_whitelist(AUTHORITY, MEMBER).unwrap();
    assert_eq!(dao.add_to_whitelist(AUTHORITY, MEMBER), Ok(()));
    assert!(dao.is_whitelisted(MEMBER));
}
