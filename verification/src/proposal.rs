use vstd::prelude::*;

verus! {

/// The lifecycle of a proposal. `Active` is the initial state; a tally moves
/// it to `Passed`, `Rejected` or `QuorumNotMet`; the authority may move
/// `Passed` to `Executed`, or `Active` to `Cancelled`. Every other state is
/// terminal.
#[derive(Clone, Copy, Debug, PartialEq, Eq, Structural)]
pub enum ProposalState {
    Active,
    Passed,
    Rejected,
    Executed,
    Cancelled,
    QuorumNotMet,
}

/// A single proposal: its provenance, text, voting window, running tallies
/// (in vote-weight units, not credit units), lifecycle state and the
/// sequence number its DAO assigned to it.
#[derive(Debug)]
pub struct Proposal {
    pub dao: u64,
    pub proposer: u64,
    pub title: String,
    pub description: String,
    pub start_time: i64,
    pub end_time: i64,
    pub yes_votes: u64,
    pub no_votes: u64,
    pub total_votes_cast: u64,
    pub state: ProposalState,
    pub proposal_id: u64,
}

impl Proposal {
    /// Well-formedness: the voting window is nonempty and the yes and no
    /// tallies always sum to the total weight cast.
    pub open spec fn wf(self) -> bool {
        &&& self.end_time > self.start_time
        &&& self.yes_votes + self.no_votes == self.total_votes_cast
    }

    /// Whether a vote arriving at `now` falls inside the voting window.
    pub open spec fn voting_open_at(self, now: i64) -> bool {
        self.start_time <= now <= self.end_time
    }
}

/// The tally decision rule: a proposal passes when quorum is met and yes
/// strictly outnumbers no; a missed quorum takes precedence over rejection
/// by majority.
pub open spec fn tally_outcome(yes: u64, no: u64, total: u64, quorum: u64) -> ProposalState {
    if total >= quorum && yes > no {
        ProposalState::Passed
    } else if total < quorum {
        ProposalState::QuorumNotMet
    } else {
        ProposalState::Rejected
    }
}

} // verus!
