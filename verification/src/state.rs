//! The stored records and their mathematical views.

use vstd::prelude::*;

verus! {

/// Length of the voting window, in seconds: seven days.
pub const VOTING_PERIOD: u64 = 604800;

/// An address registered with a voting weight.
#[derive(Clone, Debug, PartialEq, Eq)]
pub struct Member {
    pub address: String,
    pub weight: u128,
}

/// What a [`Member`] is, as a value.
pub struct MemberView {
    pub address: Seq<char>,
    pub weight: u128,
}

impl View for Member {
    type V = MemberView;

    open spec fn view(&self) -> MemberView {
        MemberView { address: self.address@, weight: self.weight }
    }
}

/// A request to transfer `amount` from the treasury to `recipient`, with the
/// tallies of the votes cast on it.
#[derive(Clone, Debug, PartialEq, Eq)]
pub struct Proposal {
    pub id: u64,
    pub title: String,
    pub description: String,
    pub votes_for: u128,
    pub votes_against: u128,
    pub executed: bool,
    pub amount: u128,
    pub recipient: String,
    /// End of the voting window, in seconds since the Unix epoch.
    pub voting_end: u64,
}

/// What a [`Proposal`] is, as a value.
pub struct ProposalView {
    pub id: u64,
    pub title: Seq<char>,
    pub description: Seq<char>,
    pub votes_for: u128,
    pub votes_against: u128,
    pub executed: bool,
    pub amount: u128,
    pub recipient: Seq<char>,
    pub voting_end: u64,
}

impl View for Proposal {
    type V = ProposalView;

    open spec fn view(&self) -> ProposalView {
        ProposalView {
            id: self.id,
            title: self.title@,
            description: self.description@,
            votes_for: self.votes_for,
            votes_against: self.votes_against,
            executed: self.executed,
            amount: self.amount,
            recipient: self.recipient@,
            voting_end: self.voting_end,
        }
    }
}

/// Where a proposal stands in its life at a given time.
#[derive(Clone, Copy, Debug, PartialEq, Eq)]
pub enum Phase {
    /// The voting window is open.
    Open,
    /// The voting window has closed with more weight for than against.
    Passed,
    /// The voting window has closed without a majority for. A tie rejects.
    Rejected,
    /// The transfer has been handed out. Nothing follows.
    Executed,
}

/// The phase of `proposal` at time `now`.
pub open spec fn phase_of(proposal: ProposalView, now: u64) -> Phase {
    if proposal.executed {
        Phase::Executed
    } else if now < proposal.voting_end {
        Phase::Open
    } else if proposal.votes_for > proposal.votes_against {
        Phase::Passed
    } else {
        Phase::Rejected
    }
}

impl Proposal {
    /// The phase of the proposal at time `now`, in seconds since the Unix
    /// epoch.
    pub fn phase(&self, now: u64) -> (phase: Phase)
        ensures
            phase == phase_of(self@, now),
    {
        if self.executed {
            Phase::Executed
        } else if now < self.voting_end {
            Phase::Open
        } else if self.votes_for > self.votes_against {
            Phase::Passed
        } else {
            Phase::Rejected
        }
    }
}

/// The views of a sequence of members, in order.
pub open spec fn member_views(members: Seq<Member>) -> Seq<MemberView> {
    members.map_values(|m: Member| m@)
}

/// The views of a sequence of proposals, in order.
pub open spec fn proposal_views(proposals: Seq<Proposal>) -> Seq<ProposalView> {
    proposals.map_values(|p: Proposal| p@)
}

} // verus!
