//! Token-weighted governance with quadratic-cost voting.
//!
//! A `Governance` value holds a set of uniquely named DAOs. Each `Dao` owns
//! its proposals, whitelist, credit accounts, issuance records and vote
//! records, and exposes the governance operations: whitelisting, rate-limited
//! credit issuance, proposal creation, quadratic-cost voting, tallying, and
//! the administrative execute and cancel transitions. Every operation is
//! all-or-nothing: on any error the state is unchanged.

pub mod cost;
pub mod dao;
pub mod error;
pub mod governance;
pub mod laws;
pub mod proposal;
pub mod records;

pub use cost::{checked_pow10, pow10, quadratic_cost, vote_cost};
pub use dao::Dao;
pub use error::ErrorCode;
pub use governance::Governance;
pub use proposal::{Proposal, ProposalState};
pub use records::{CreditAccount, MintRecord, VoteRecord, WhitelistRecord};
