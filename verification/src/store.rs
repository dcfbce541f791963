//! The proposal store: proposals by id, and the counter that mints the ids.

use vstd::prelude::*;
use crate::error::ContractError;
use crate::keys::proposal_key;
use crate::ledger::{
    members_intact, read_count, read_proposal, write_count, write_proposal, Ledger, LedgerView,
};
use crate::state::{proposal_views, Proposal, ProposalView};

verus! {

/// A proposal before it has an id: what its author decides.
#[derive(Clone, Debug, PartialEq, Eq)]
pub struct ProposalDraft {
    pub title: String,
    pub description: String,
    pub amount: u128,
    pub recipient: String,
    pub voting_end: u64,
}

/// What a [`ProposalDraft`] is, as a value.
pub struct DraftView {
    pub title: Seq<char>,
    pub description: Seq<char>,
    pub amount: u128,
    pub recipient: Seq<char>,
    pub voting_end: u64,
}

impl View for ProposalDraft {
    type V = DraftView;

    open spec fn view(&self) -> DraftView {
        DraftView {
            title: self.title@,
            description: self.description@,
            amount: self.amount,
            recipient: self.recipient@,
            voting_end: self.voting_end,
        }
    }
}

/// A change to a stored proposal. These are the only two: a vote moves a
/// tally up, and execution sets the flag.
#[derive(Clone, Copy, Debug, PartialEq, Eq)]
pub enum Change {
    /// Add `weight` to the tally for the proposal, or to the one against it.
    Tally { approve: bool, weight: u128 },
    /// Mark the proposal as executed.
    MarkExecuted,
}

/// The next unassigned proposal id: the stored counter, or zero where none
/// is stored.
pub open spec fn next_id(state: LedgerView) -> u64 {
    match state.count {
        Some(n) => n,
        None => 0,
    }
}

/// The proposal that `draft` becomes under `id`: no votes, not executed.
pub open spec fn fresh(id: u64, draft: DraftView) -> ProposalView {
    ProposalView {
        id,
        title: draft.title,
        description: draft.description,
        votes_for: 0,
        votes_against: 0,
        executed: false,
        amount: draft.amount,
        recipient: draft.recipient,
        voting_end: draft.voting_end,
    }
}

/// Whether `change` keeps the tallies of `proposal` within their range.
pub open spec fn fits(proposal: ProposalView, change: Change) -> bool {
    match change {
        Change::Tally { approve, weight } => if approve {
            proposal.votes_for + weight <= u128::MAX
        } else {
            proposal.votes_against + weight <= u128::MAX
        },
        Change::MarkExecuted => true,
    }
}

/// `proposal` after `change`, where the change fits.
pub open spec fn changed(proposal: ProposalView, change: Change) -> ProposalView {
    match change {
        Change::Tally { approve, weight } => if approve {
            ProposalView { votes_for: (proposal.votes_for + weight) as u128, ..proposal }
        } else {
            ProposalView { votes_against: (proposal.votes_against + weight) as u128, ..proposal }
        },
        Change::MarkExecuted => ProposalView { executed: true, ..proposal },
    }
}

/// The stored proposals with an id below `bound`, ascending by id.
pub open spec fn listing(proposals: Map<u64, ProposalView>, bound: u64) -> Seq<ProposalView>
    decreases bound,
{
    if bound == 0 {
        Seq::empty()
    } else {
        let id = (bound - 1) as u64;
        let below = listing(proposals, id);
        if proposals.dom().contains(id) {
            below.push(proposals[id])
        } else {
            below
        }
    }
}

/// The state after a proposal made from `draft` has been stored under the
/// next id and the counter has moved past it.
pub open spec fn created(state: LedgerView, draft: DraftView) -> LedgerView {
    LedgerView {
        count: Some((next_id(state) + 1) as u64),
        proposals: state.proposals.insert(next_id(state), fresh(next_id(state), draft)),
        ..state
    }
}

/// Stores a new proposal under the next unassigned id and returns that id.
/// The counter moves on by one, so no id is handed out twice. Fails with
/// `Overflow`, and stores nothing, once the counter has reached its last
/// value.
pub fn create(ledger: &mut Ledger, draft: ProposalDraft) -> (r: Result<u64, ContractError>)
    ensures
        next_id(old(ledger)@) < u64::MAX ==> ({
            &&& r == Ok::<u64, ContractError>(next_id(old(ledger)@))
            &&& final(ledger)@ == created(old(ledger)@, draft@)
        }),
        next_id(old(ledger)@) == u64::MAX ==> ({
            &&& r matches Err(ContractError::Overflow {})
            &&& *final(ledger) == *old(ledger)
        }),
        members_intact(*final(ledger)) == members_intact(*old(ledger)),
{
    let id = match read_count(ledger) {
        Ok(n) => n,
        Err(_) => 0,
    };
    if id == u64::MAX {
        return Err(ContractError::Overflow {});
    }
    write_count(ledger, id + 1);
    let proposal = Proposal {
        id,
        title: draft.title,
        description: draft.description,
        votes_for: 0,
        votes_against: 0,
        executed: false,
        amount: draft.amount,
        recipient: draft.recipient,
        voting_end: draft.voting_end,
    };
    write_proposal(ledger, proposal_key(id).as_str(), &proposal);
    Ok(id)
}

/// The proposal stored under `id`, or `NotFound`.
pub fn get(ledger: &Ledger, id: u64) -> (r: Result<Proposal, ContractError>)
    ensures
        ledger@.proposals.dom().contains(id) ==> ({
            &&& r matches Ok(p) && p@ == ledger@.proposals[id]
            &&& r matches Ok(p) && p.id == id
        }),
        !ledger@.proposals.dom().contains(id) ==> r matches Err(ContractError::NotFound {}),
{
    match read_proposal(ledger, id, proposal_key(id).as_str()) {
        Ok(p) => Ok(p),
        Err(_) => Err(ContractError::NotFound {}),
    }
}

/// Reads the proposal under `id`, applies `change` and writes it back. Fails
/// with `NotFound` where nothing is stored under `id`, and with `Overflow`
/// where a tally would leave its range; either way nothing is written.
pub fn update(ledger: &mut Ledger, id: u64, change: Change) -> (r: Result<(), ContractError>)
    ensures
        r == update_outcome(old(ledger)@, id, change),
        r is Ok ==> final(ledger)@ == updated(old(ledger)@, id, change),
        r is Err ==> *final(ledger) == *old(ledger),
        members_intact(*final(ledger)) == members_intact(*old(ledger)),
{
    let key = proposal_key(id);
    let mut proposal = match read_proposal(ledger, id, key.as_str()) {
        Ok(p) => p,
        Err(_) => {
            return Err(ContractError::NotFound {});
        },
    };
    match change {
        Change::Tally { approve, weight } => {
            let tally = if approve {
                proposal.votes_for
            } else {
                proposal.votes_against
            };
            match tally.checked_add(weight) {
                Some(sum) => {
                    if approve {
                        proposal.votes_for = sum;
                    } else {
                        proposal.votes_against = sum;
                    }
                },
                None => {
                    return Err(ContractError::Overflow {});
                },
            }
        },
        Change::MarkExecuted => {
            proposal.executed = true;
        },
    }
    write_proposal(ledger, key.as_str(), &proposal);
    Ok(())
}

/// Whether [`update`] succeeds, and the error where it does not.
pub open spec fn update_outcome(state: LedgerView, id: u64, change: Change) -> Result<
    (),
    ContractError,
> {
    if !state.proposals.dom().contains(id) {
        Err(ContractError::NotFound {})
    } else if !fits(state.proposals[id], change) {
        Err(ContractError::Overflow {})
    } else {
        Ok(())
    }
}

/// The state after `change` has been applied to the proposal under `id`.
pub open spec fn updated(state: LedgerView, id: u64, change: Change) -> LedgerView {
    LedgerView {
        proposals: state.proposals.insert(id, changed(state.proposals[id], change)),
        ..state
    }
}

/// Every proposal with an id below the counter, ascending by id.
pub fn list(ledger: &Ledger) -> (proposals: Vec<Proposal>)
    ensures
        proposal_views(proposals@) == listing(ledger@.proposals, next_id(ledger@)),
{
    let bound = match read_count(ledger) {
        Ok(n) => n,
        Err(_) => 0,
    };
    let mut proposals: Vec<Proposal> = Vec::new();
    let mut id: u64 = 0;
    while id < bound
        invariant
            id <= bound,
            proposal_views(proposals@) == listing(ledger@.proposals, id),
        decreases bound - id,
    {
        match read_proposal(ledger, id, proposal_key(id).as_str()) {
            Ok(p) => {
                proposals.push(p);
            },
            Err(_) => {},
        }
        id += 1;
    }
    proposals
}

} // verus!
