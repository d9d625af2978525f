use vstd::prelude::*;

verus! {

/// Every way a governance operation can fail. Operations abort with one of
/// these and leave all state unchanged.
#[derive(Clone, Copy, Debug, PartialEq, Eq, Structural)]
pub enum ErrorCode {
    /// A proposal title longer than `MAX_TITLE_LEN` characters.
    TitleTooLong,
    /// A proposal description longer than `MAX_DESCRIPTION_LEN` characters.
    DescriptionTooLong,
    /// A voting period that is not strictly positive.
    InvalidVotingPeriod,
    /// A vote cast outside the proposal's voting window.
    VotingClosed,
    /// The proposal is not in the `Active` state.
    ProposalNotActive,
    /// A vote weight of zero.
    InvalidVoteAmount,
    /// The voter's credit balance does not cover the quadratic cost.
    InsufficientCredits,
    /// A checked addition, multiplication or power would overflow.
    ArithmeticOverflow,
    /// A tally attempted before the voting window has elapsed.
    VotingStillOpen,
    /// An execute attempted on a proposal that has not passed.
    ProposalNotPassed,
    /// A privileged operation attempted by someone other than the authority.
    Unauthorized,
    /// The credit reference handed in does not match the registry's.
    InvalidCreditReference,
    /// Issuance refused because the balance is at or above the soft threshold.
    BalanceTooHigh,
    /// Issuance refused because it would push the balance above the hard cap.
    MintCapReached,
    /// Issuance refused because the per-member cooldown has not elapsed.
    CooldownActive,
    /// The member has no whitelist record marked as allowed.
    NotWhitelisted,
    /// A uniquely keyed record (DAO name, whitelist entry, vote record)
    /// already exists.
    AlreadyExists,
}

} // verus!
