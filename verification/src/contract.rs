//! The governance engine: the rules by which proposals are made, voted on
//! and executed, and the entry points that dispatch to them.

use vstd::prelude::*;
use crate::error::ContractError;
use crate::ledger::{
    lists_members, members_intact, read_ballot, write_ballot, write_count, write_version, Ledger,
    LedgerView,
};
use crate::msg::{
    Env, ExecuteMsg, InstantiateMsg, MemberInit, MessageInfo, QueryMsg, QueryResponse, Response,
};
use crate::registry::{
    distinct_addresses, lookup, member, members, register_all, registered, weight_of,
    DUPLICATE_MEMBER,
};
use crate::state::{phase_of, proposal_views, MemberView, Phase, VOTING_PERIOD};
use crate::store::{
    changed, create, created, fits, get, list, listing, next_id, update, updated, Change,
    DraftView, ProposalDraft,
};
use crate::treasury::{build_transfer, TransferInstruction, TransferView};

verus! {

/// The name under which the contract records its version.
pub const CONTRACT_NAME: &'static str = "workshop-dao";

/// The version the contract records.
pub const CONTRACT_VERSION: &'static str = "0.1.0";

/// The denomination the treasury pays in.
pub const DENOM: &'static str = "udevcore";

/// The text of an optional string.
pub open spec fn text_of(text: Option<String>) -> Option<Seq<char>> {
    match text {
        Some(t) => Some(t@),
        None => None,
    }
}

/// What a command gave back, with each transfer as a value.
pub struct ResponseView {
    pub messages: Seq<TransferView>,
    pub proposal_id: Option<u64>,
}

impl View for Response {
    type V = ResponseView;

    open spec fn view(&self) -> ResponseView {
        ResponseView {
            messages: self.messages@.map_values(|t: TransferInstruction| t@),
            proposal_id: self.proposal_id,
        }
    }
}

/// The state after setup: the version is on record, the initial members
/// `inits` are registered and the proposal counter stands at zero.
pub open spec fn instantiated(state: LedgerView, inits: Seq<MemberInit>) -> LedgerView {
    LedgerView {
        version: Some((CONTRACT_NAME@, CONTRACT_VERSION@)),
        count: Some(0),
        members: registered(state.members, inits),
        ..state
    }
}

/// Sets the contract up: records its version, registers the initial members
/// and starts the proposal counter at zero. Fails with `InvalidInput`, and
/// stores nothing, where the input names an address twice.
pub fn instantiate(
    ledger: &mut Ledger,
    _env: Env,
    _info: MessageInfo,
    msg: InstantiateMsg,
) -> (r: Result<Response, ContractError>)
    ensures
        distinct_addresses(msg.members@) ==> ({
            &&& r matches Ok(response) && response@.messages.len() == 0
                && response.proposal_id is None
            &&& final(ledger)@ == instantiated(old(ledger)@, msg.members@)
        }),
        !distinct_addresses(msg.members@) ==> ({
            &&& r matches Err(ContractError::InvalidInput(reason)) && reason@ == DUPLICATE_MEMBER@
            &&& *final(ledger) == *old(ledger)
        }),
        members_intact(*old(ledger)) ==> members_intact(*final(ledger)),
{
    match register_all(ledger, &msg.members) {
        Ok(()) => {},
        Err(e) => {
            return Err(e);
        },
    }
    write_version(ledger, CONTRACT_NAME, CONTRACT_VERSION);
    write_count(ledger, 0);
    Ok(Response { messages: Vec::new(), proposal_id: None })
}

/// The draft that a `Propose` command describes: the recipient defaults to
/// the sender, the amount to zero, and voting ends one voting period after
/// `now`.
pub open spec fn drafted(
    now: u64,
    sender: Seq<char>,
    title: Seq<char>,
    description: Seq<char>,
    recipient: Option<Seq<char>>,
    amount: Option<u128>,
) -> DraftView {
    DraftView {
        title,
        description,
        amount: match amount {
            Some(a) => a,
            None => 0,
        },
        recipient: match recipient {
            Some(r) => r,
            None => sender,
        },
        voting_end: (now + VOTING_PERIOD) as u64,
    }
}

/// What a `Propose` command by `sender` at time `now` returns: the id of the
/// new proposal, or why there is none.
pub open spec fn propose_outcome(state: LedgerView, now: u64, sender: Seq<char>) -> Result<
    u64,
    ContractError,
> {
    if !state.members.dom().contains(sender) {
        Err(ContractError::Unauthorized {})
    } else if now + VOTING_PERIOD > u64::MAX || next_id(state) == u64::MAX {
        Err(ContractError::Overflow {})
    } else {
        Ok(next_id(state))
    }
}

/// The state after a `Propose` command.
pub open spec fn proposed(
    state: LedgerView,
    now: u64,
    sender: Seq<char>,
    title: Seq<char>,
    description: Seq<char>,
    recipient: Option<Seq<char>>,
    amount: Option<u128>,
) -> LedgerView {
    if propose_outcome(state, now, sender) is Ok {
        created(state, drafted(now, sender, title, description, recipient, amount))
    } else {
        state
    }
}

/// Submits a proposal on behalf of the sender and returns its id. Fails with
/// `Unauthorized` unless the sender is a member, and with `Overflow` where
/// the deadline or the counter would leave its range.
pub fn execute_propose(
    ledger: &mut Ledger,
    env: Env,
    info: MessageInfo,
    title: String,
    description: String,
    recipient: Option<String>,
    amount: Option<u128>,
) -> (r: Result<u64, ContractError>)
    ensures
        r == propose_outcome(old(ledger)@, env.block_time, info.sender@),
        final(ledger)@ == proposed(
            old(ledger)@,
            env.block_time,
            info.sender@,
            title@,
            description@,
            text_of(recipient),
            amount,
        ),
        r is Err ==> *final(ledger) == *old(ledger),
        members_intact(*final(ledger)) == members_intact(*old(ledger)),
{
    if lookup(ledger, info.sender.as_str()).is_none() {
        return Err(ContractError::Unauthorized {});
    }
    let voting_end = match env.block_time.checked_add(VOTING_PERIOD) {
        Some(end) => end,
        None => {
            return Err(ContractError::Overflow {});
        },
    };
    let draft = ProposalDraft {
        title,
        description,
        amount: match amount {
            Some(a) => a,
            None => 0,
        },
        recipient: match recipient {
            Some(r) => r,
            None => info.sender,
        },
        voting_end,
    };
    create(ledger, draft)
}

/// What a `Vote` command by `sender` at time `now` returns.
pub open spec fn vote_outcome(
    state: LedgerView,
    now: u64,
    sender: Seq<char>,
    proposal_id: u64,
    approve: bool,
) -> Result<(), ContractError> {
    if !state.members.dom().contains(sender) {
        Err(ContractError::Unauthorized {})
    } else if !state.proposals.dom().contains(proposal_id) {
        Err(ContractError::NotFound {})
    } else if now >= state.proposals[proposal_id].voting_end {
        Err(ContractError::VotingClosed {})
    } else if state.ballots.dom().contains((proposal_id, sender)) {
        Err(ContractError::AlreadyVoted {})
    } else if !fits(
        state.proposals[proposal_id],
        Change::Tally { approve, weight: state.members[sender] },
    ) {
        Err(ContractError::Overflow {})
    } else {
        Ok(())
    }
}

/// The state after a `Vote` command: where the vote counts, the sender's
/// weight is on the chosen tally and the ballot is on record.
pub open spec fn voted(
    state: LedgerView,
    now: u64,
    sender: Seq<char>,
    proposal_id: u64,
    approve: bool,
) -> LedgerView {
    if vote_outcome(state, now, sender, proposal_id, approve) is Ok {
        LedgerView {
            proposals: state.proposals.insert(
                proposal_id,
                changed(
                    state.proposals[proposal_id],
                    Change::Tally { approve, weight: state.members[sender] },
                ),
            ),
            ballots: state.ballots.insert((proposal_id, sender), approve),
            ..state
        }
    } else {
        state
    }
}

/// Casts the sender's weight for or against a proposal. Fails with
/// `Unauthorized` unless the sender is a member, `NotFound` where the
/// proposal does not exist, `VotingClosed` once its deadline has come,
/// `AlreadyVoted` where the sender has voted on it before, and `Overflow`
/// where the tally would leave its range.
pub fn execute_vote(
    ledger: &mut Ledger,
    env: Env,
    info: MessageInfo,
    proposal_id: u64,
    approve: bool,
) -> (r: Result<(), ContractError>)
    ensures
        r == vote_outcome(old(ledger)@, env.block_time, info.sender@, proposal_id, approve),
        final(ledger)@ == voted(old(ledger)@, env.block_time, info.sender@, proposal_id, approve),
        r is Err ==> *final(ledger) == *old(ledger),
        !old(ledger)@.members.dom().contains(info.sender@) ==> ({
            &&& r matches Err(ContractError::Unauthorized {})
            &&& *final(ledger) == *old(ledger)
        }),
        old(ledger)@.members.dom().contains(info.sender@) && !old(ledger)@.proposals.dom().contains(
            proposal_id,
        ) ==> r matches Err(ContractError::NotFound {}),
        members_intact(*final(ledger)) == members_intact(*old(ledger)),
{
    let weight = match lookup(ledger, info.sender.as_str()) {
        Some(w) => w,
        None => {
            return Err(ContractError::Unauthorized {});
        },
    };
    let proposal = match get(ledger, proposal_id) {
        Ok(p) => p,
        Err(e) => {
            return Err(e);
        },
    };
    if env.block_time >= proposal.voting_end {
        return Err(ContractError::VotingClosed {});
    }
    if read_ballot(ledger, proposal_id, info.sender.as_str()).is_ok() {
        return Err(ContractError::AlreadyVoted {});
    }
    match update(ledger, proposal_id, Change::Tally { approve, weight }) {
        Ok(()) => {},
        Err(e) => {
            return Err(e);
        },
    }
    write_ballot(ledger, proposal_id, info.sender.as_str(), approve);
    Ok(())
}

/// What an `Execute` command at time `now`, with the treasury holding
/// `balance`, returns: the transfer to make, none where the proposal was
/// rejected, or why nothing was resolved.
pub open spec fn execute_outcome(
    state: LedgerView,
    now: u64,
    balance: u128,
    proposal_id: u64,
) -> Result<Option<TransferView>, ContractError> {
    if !state.proposals.dom().contains(proposal_id) {
        Err(ContractError::NotFound {})
    } else {
        let proposal = state.proposals[proposal_id];
        match phase_of(proposal, now) {
            Phase::Executed => Err(ContractError::AlreadyExecuted {}),
            Phase::Open => Err(ContractError::VotingNotEnded {}),
            Phase::Rejected => Ok(None),
            Phase::Passed => if balance < proposal.amount {
                Err(ContractError::InsufficientFunds {})
            } else {
                Ok(
                    Some(
                        TransferView {
                            recipient: proposal.recipient,
                            amount: proposal.amount,
                            denom: DENOM@,
                        },
                    ),
                )
            },
        }
    }
}

/// The state after an `Execute` command: the proposal is marked executed
/// where a transfer comes out, and nothing changes otherwise.
pub open spec fn executed(
    state: LedgerView,
    now: u64,
    balance: u128,
    proposal_id: u64,
) -> LedgerView {
    if execute_outcome(state, now, balance, proposal_id) matches Ok(Some(_)) {
        updated(state, proposal_id, Change::MarkExecuted)
    } else {
        state
    }
}

/// The result of [`execute_execute`], with the transfer as a value.
pub open spec fn transfer_view(r: Result<Option<TransferInstruction>, ContractError>) -> Result<
    Option<TransferView>,
    ContractError,
> {
    match r {
        Ok(Some(transfer)) => Ok(Some(transfer@)),
        Ok(None) => Ok(None),
        Err(e) => Err(e),
    }
}

/// Resolves a proposal after its deadline. Where it passed and the treasury
/// can pay, marks it executed and returns the transfer for the host to make;
/// where it did not pass, returns no transfer and changes nothing. Fails with
/// `NotFound`, `AlreadyExecuted`, `VotingNotEnded` or `InsufficientFunds`.
pub fn execute_execute(ledger: &mut Ledger, env: Env, proposal_id: u64) -> (r: Result<
    Option<TransferInstruction>,
    ContractError,
>)
    ensures
        transfer_view(r) == execute_outcome(
            old(ledger)@,
            env.block_time,
            env.treasury_balance,
            proposal_id,
        ),
        final(ledger)@ == executed(
            old(ledger)@,
            env.block_time,
            env.treasury_balance,
            proposal_id,
        ),
        !(r matches Ok(Some(_))) ==> *final(ledger) == *old(ledger),
        old(ledger)@.proposals.dom().contains(proposal_id) ==> ({
            let proposal = old(ledger)@.proposals[proposal_id];
            &&& proposal.votes_for == proposal.votes_against ==> {
                &&& !(r matches Ok(Some(_)))
                &&& *final(ledger) == *old(ledger)
            }
            &&& proposal.executed ==> {
                &&& r matches Err(ContractError::AlreadyExecuted {})
                &&& *final(ledger) == *old(ledger)
            }
        }),
        members_intact(*final(ledger)) == members_intact(*old(ledger)),
{
    let proposal = match get(ledger, proposal_id) {
        Ok(p) => p,
        Err(e) => {
            return Err(e);
        },
    };
    match proposal.phase(env.block_time) {
        Phase::Executed => Err(ContractError::AlreadyExecuted {}),
        Phase::Open => Err(ContractError::VotingNotEnded {}),
        Phase::Rejected => Ok(None),
        Phase::Passed => {
            if env.treasury_balance < proposal.amount {
                return Err(ContractError::InsufficientFunds {});
            }
            let transfer = build_transfer(proposal.recipient.as_str(), proposal.amount, DENOM);
            match update(ledger, proposal_id, Change::MarkExecuted) {
                Ok(()) => Ok(Some(transfer)),
                Err(e) => Err(e),
            }
        },
    }
}

/// The result of [`execute`], with each transfer as a value.
pub open spec fn response_view(r: Result<Response, ContractError>) -> Result<
    ResponseView,
    ContractError,
> {
    match r {
        Ok(response) => Ok(response@),
        Err(e) => Err(e),
    }
}

/// What a command returns: the id for a proposal made, the transfer for a
/// proposal executed, and nothing more for a vote.
pub open spec fn step_outcome(
    state: LedgerView,
    env: Env,
    sender: Seq<char>,
    msg: ExecuteMsg,
) -> Result<ResponseView, ContractError> {
    match msg {
        ExecuteMsg::Propose { .. } => match propose_outcome(state, env.block_time, sender) {
            Ok(id) => Ok(ResponseView { messages: Seq::empty(), proposal_id: Some(id) }),
            Err(e) => Err(e),
        },
        ExecuteMsg::Vote { proposal_id, approve } => match vote_outcome(
            state,
            env.block_time,
            sender,
            proposal_id,
            approve,
        ) {
            Ok(()) => Ok(ResponseView { messages: Seq::empty(), proposal_id: None }),
            Err(e) => Err(e),
        },
        ExecuteMsg::Execute { proposal_id } => match execute_outcome(
            state,
            env.block_time,
            env.treasury_balance,
            proposal_id,
        ) {
            Ok(Some(transfer)) => Ok(
                ResponseView { messages: seq![transfer], proposal_id: None },
            ),
            Ok(None) => Ok(ResponseView { messages: Seq::empty(), proposal_id: None }),
            Err(e) => Err(e),
        },
    }
}

/// The state after a command.
pub open spec fn step(
    state: LedgerView,
    env: Env,
    sender: Seq<char>,
    msg: ExecuteMsg,
) -> LedgerView {
    match msg {
        ExecuteMsg::Propose { title, description, recipient, amount } => proposed(
            state,
            env.block_time,
            sender,
            title@,
            description@,
            text_of(recipient),
            amount,
        ),
        ExecuteMsg::Vote { proposal_id, approve } => voted(
            state,
            env.block_time,
            sender,
            proposal_id,
            approve,
        ),
        ExecuteMsg::Execute { proposal_id } => executed(
            state,
            env.block_time,
            env.treasury_balance,
            proposal_id,
        ),
    }
}

/// Carries out one command on behalf of the sender. A command that fails
/// changes nothing.
pub fn execute(ledger: &mut Ledger, env: Env, info: MessageInfo, msg: ExecuteMsg) -> (r: Result<
    Response,
    ContractError,
>)
    ensures
        response_view(r) == step_outcome(old(ledger)@, env, info.sender@, msg),
        final(ledger)@ == step(old(ledger)@, env, info.sender@, msg),
        r is Err ==> *final(ledger) == *old(ledger),
        members_intact(*final(ledger)) == members_intact(*old(ledger)),
{
    match msg {
        ExecuteMsg::Propose { title, description, recipient, amount } => {
            match execute_propose(ledger, env, info, title, description, recipient, amount) {
                Ok(id) => Ok(respond(None, Some(id))),
                Err(e) => Err(e),
            }
        },
        ExecuteMsg::Vote { proposal_id, approve } => {
            match execute_vote(ledger, env, info, proposal_id, approve) {
                Ok(()) => Ok(respond(None, None)),
                Err(e) => Err(e),
            }
        },
        ExecuteMsg::Execute { proposal_id } => {
            match execute_execute(ledger, env, proposal_id) {
                Ok(transfer) => Ok(respond(transfer, None)),
                Err(e) => Err(e),
            }
        },
    }
}

/// The response that carries `transfer`, where there is one, and
/// `proposal_id`.
fn respond(transfer: Option<TransferInstruction>, proposal_id: Option<u64>) -> (response: Response)
    ensures
        response@ == (ResponseView {
            messages: match transfer {
                Some(t) => seq![t@],
                None => Seq::empty(),
            },
            proposal_id,
        }),
{
    let mut messages: Vec<TransferInstruction> = Vec::new();
    match transfer {
        Some(t) => {
            messages.push(t);
            assert(messages@.map_values(|t: TransferInstruction| t@) =~= seq![t@]);
        },
        None => {
            assert(messages@.map_values(|t: TransferInstruction| t@) =~= Seq::empty());
        },
    }
    Response { messages, proposal_id }
}

/// Whether `r` answers `GetProposal` for `proposal_id`: the stored proposal,
/// or `NotFound`.
pub open spec fn answers_proposal(
    state: LedgerView,
    proposal_id: u64,
    r: Result<QueryResponse, ContractError>,
) -> bool {
    if state.proposals.dom().contains(proposal_id) {
        r matches Ok(QueryResponse::Proposal(p)) && p@ == state.proposals[proposal_id]
    } else {
        r matches Err(ContractError::NotFound {})
    }
}

/// Whether `r` answers `ListProposals`: every proposal below the counter,
/// ascending by id.
pub open spec fn answers_all_proposals(
    state: LedgerView,
    r: Result<QueryResponse, ContractError>,
) -> bool {
    r matches Ok(QueryResponse::Proposals(proposals)) && proposal_views(proposals@) == listing(
        state.proposals,
        next_id(state),
    )
}

/// Whether `r` answers `GetMember` for `address`: the member registered
/// there, or `NotFound`.
pub open spec fn answers_member(
    state: LedgerView,
    address: Seq<char>,
    r: Result<QueryResponse, ContractError>,
) -> bool {
    match weight_of(state, address) {
        Some(weight) => r matches Ok(QueryResponse::Member(m)) && m@ == (MemberView {
            address,
            weight,
        }),
        None => r matches Err(ContractError::NotFound {}),
    }
}

/// Whether `r` answers `ListMembers`: every member, ascending by address,
/// or the storage error where the collection cannot be read back.
pub open spec fn answers_all_members(
    state: LedgerView,
    intact: bool,
    r: Result<QueryResponse, ContractError>,
) -> bool {
    if intact {
        r matches Ok(QueryResponse::Members(listing)) && lists_members(listing@, state.members)
    } else {
        r matches Err(ContractError::Std(_))
    }
}

/// Whether `r` answers the query `msg`.
pub open spec fn answers(
    state: LedgerView,
    intact: bool,
    msg: QueryMsg,
    r: Result<QueryResponse, ContractError>,
) -> bool {
    match msg {
        QueryMsg::GetProposal { proposal_id } => answers_proposal(state, proposal_id, r),
        QueryMsg::ListProposals {  } => answers_all_proposals(state, r),
        QueryMsg::GetMember { address } => answers_member(state, address@, r),
        QueryMsg::ListMembers {  } => answers_all_members(state, intact, r),
    }
}

/// Answers one query. Queries read the storage and never change it.
pub fn query(ledger: &Ledger, _env: Env, msg: QueryMsg) -> (r: Result<QueryResponse, ContractError>)
    ensures
        answers(ledger@, members_intact(*ledger), msg, r),
{
    match msg {
        QueryMsg::GetProposal { proposal_id } => query_proposal(ledger, proposal_id),
        QueryMsg::ListProposals {  } => query_all_proposals(ledger),
        QueryMsg::GetMember { address } => query_member(ledger, address),
        QueryMsg::ListMembers {  } => query_all_members(ledger),
    }
}

/// The proposal stored under `proposal_id`, or `NotFound`.
pub fn query_proposal(ledger: &Ledger, proposal_id: u64) -> (r: Result<
    QueryResponse,
    ContractError,
>)
    ensures
        answers_proposal(ledger@, proposal_id, r),
{
    match get(ledger, proposal_id) {
        Ok(p) => Ok(QueryResponse::Proposal(p)),
        Err(e) => Err(e),
    }
}

/// All proposals, ascending by id.
pub fn query_all_proposals(ledger: &Ledger) -> (r: Result<QueryResponse, ContractError>)
    ensures
        answers_all_proposals(ledger@, r),
{
    Ok(QueryResponse::Proposals(list(ledger)))
}

/// The member registered at `address`, or `NotFound`.
pub fn query_member(ledger: &Ledger, address: String) -> (r: Result<QueryResponse, ContractError>)
    ensures
        answers_member(ledger@, address@, r),
{
    match member(ledger, address.as_str()) {
        Ok(m) => Ok(QueryResponse::Member(m)),
        Err(e) => Err(e),
    }
}

/// All members, ascending by address.
pub fn query_all_members(ledger: &Ledger) -> (r: Result<QueryResponse, ContractError>)
    ensures
        answers_all_members(ledger@, members_intact(*ledger), r),
{
    match members(ledger) {
        Ok(listing) => Ok(QueryResponse::Members(listing)),
        Err(e) => Err(e),
    }
}

} // verus!
