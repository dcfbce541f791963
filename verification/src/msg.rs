//! The messages the contract takes and the answers it gives.

use vstd::prelude::*;
use crate::state::{Member, MemberView, Proposal};
use crate::treasury::TransferInstruction;

verus! {

/// Setup input: the initial members.
#[derive(Clone, Debug, PartialEq, Eq)]
pub struct InstantiateMsg {
    pub members: Vec<MemberInit>,
}

/// One member of the setup input.
#[derive(Clone, Debug, PartialEq, Eq)]
pub struct MemberInit {
    pub address: String,
    pub weight: u128,
}

impl View for MemberInit {
    type V = MemberView;

    open spec fn view(&self) -> MemberView {
        MemberView { address: self.address@, weight: self.weight }
    }
}

/// The commands, which change state.
#[derive(Clone, Debug, PartialEq, Eq)]
pub enum ExecuteMsg {
    /// Submit a proposal. The recipient defaults to the sender, the amount to
    /// zero.
    Propose { title: String, description: String, recipient: Option<String>, amount: Option<u128> },
    /// Cast the sender's weight for or against a proposal.
    Vote { proposal_id: u64, approve: bool },
    /// Resolve a proposal whose voting window has closed.
    Execute { proposal_id: u64 },
}

/// The queries, which only read.
#[derive(Clone, Debug, PartialEq, Eq)]
pub enum QueryMsg {
    GetProposal { proposal_id: u64 },
    ListProposals {},
    GetMember { address: String },
    ListMembers {},
}

/// What the host tells a call about the chain.
#[derive(Clone, Debug, PartialEq, Eq)]
pub struct Env {
    /// Time of the current block, in seconds since the Unix epoch.
    pub block_time: u64,
    /// The treasury's current balance in the governed denomination.
    pub treasury_balance: u128,
}

/// What the host tells a call about its caller.
#[derive(Clone, Debug, PartialEq, Eq)]
pub struct MessageInfo {
    pub sender: String,
}

/// The result of a command: the transfers the host is to carry out, and the
/// id of the proposal created, if one was.
#[derive(Clone, Debug, PartialEq, Eq)]
pub struct Response {
    pub messages: Vec<TransferInstruction>,
    pub proposal_id: Option<u64>,
}

/// The answer to a query.
#[derive(Clone, Debug, PartialEq, Eq)]
pub enum QueryResponse {
    Proposal(Proposal),
    Proposals(Vec<Proposal>),
    Member(Member),
    Members(Vec<Member>),
}

} // verus!
