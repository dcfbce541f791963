//! What holds of the contract across calls, proved from the rules in
//! [`crate::contract`].

use vstd::prelude::*;
use crate::contract::{
    answers_proposal, drafted, execute_outcome, executed, instantiated, propose_outcome, proposed,
    step, step_outcome, vote_outcome, voted,
};
use crate::error::ContractError;
use crate::ledger::LedgerView;
use crate::msg::{Env, ExecuteMsg, MemberInit, QueryResponse};
use crate::registry::{distinct_addresses, registered};
use crate::state::{phase_of, Phase, ProposalView};
use crate::store::{fresh, listing, next_id};

verus! {

/// One command, as the host delivers it.
pub struct Call {
    pub env: Env,
    pub sender: Seq<char>,
    pub msg: ExecuteMsg,
}

/// The state after the commands `calls` have run in order from `state`.
pub open spec fn run(state: LedgerView, calls: Seq<Call>) -> LedgerView
    decreases calls.len(),
{
    if calls.len() == 0 {
        state
    } else {
        let call = calls.last();
        step(run(state, calls.drop_last()), call.env, call.sender, call.msg)
    }
}

/// The proposal ids that the commands `calls`, run in order from `state`,
/// hand out.
pub open spec fn minted(state: LedgerView, calls: Seq<Call>) -> Seq<u64>
    decreases calls.len(),
{
    if calls.len() == 0 {
        Seq::empty()
    } else {
        let call = calls.last();
        let earlier = minted(state, calls.drop_last());
        match step_outcome(run(state, calls.drop_last()), call.env, call.sender, call.msg) {
            Ok(response) => match response.proposal_id {
                Some(id) => earlier.push(id),
                None => earlier,
            },
            Err(_) => earlier,
        }
    }
}

/// Whether the store is sound: every stored proposal carries the id it is
/// stored under, and that id has been handed out by the counter.
pub open spec fn consistent(state: LedgerView) -> bool {
    forall|id: u64| #[trigger]
        state.proposals.dom().contains(id) ==> state.proposals[id].id == id && id < next_id(state)
}

/// Whether the ids below the counter are all in use: none was skipped.
pub open spec fn gapless(state: LedgerView) -> bool {
    forall|id: u64| id < next_id(state) ==> #[trigger] state.proposals.dom().contains(id)
}

/// Proposal ids are handed out in order, without repeats and without gaps:
/// whatever commands run, the k-th proposal made gets the k-th id from where
/// the counter stood, and the counter ends just past the last one.
pub proof fn law_ids_are_consecutive(state: LedgerView, calls: Seq<Call>)
    ensures
        next_id(run(state, calls)) == next_id(state) + minted(state, calls).len(),
        forall|k: int|
            0 <= k < minted(state, calls).len() ==> #[trigger] minted(state, calls)[k] == next_id(
                state,
            ) + k,
    decreases calls.len(),
{
    if calls.len() > 0 {
        law_ids_are_consecutive(state, calls.drop_last());
    }
}

/// A sound store stays sound under every command, and a store without gaps
/// stays without gaps.
pub proof fn law_step_keeps_store_sound(
    state: LedgerView,
    env: Env,
    sender: Seq<char>,
    msg: ExecuteMsg,
)
    ensures
        consistent(state) ==> consistent(step(state, env, sender, msg)),
        gapless(state) ==> gapless(step(state, env, sender, msg)),
{
}

/// Setting up a storage that holds no proposal gives a sound store without
/// gaps.
pub proof fn law_instantiate_starts_sound(state: LedgerView, inits: Seq<MemberInit>)
    requires
        state.proposals.dom() =~= Set::empty(),
    ensures
        consistent(instantiated(state, inits)),
        gapless(instantiated(state, inits)),
{
}

/// The membership is fixed at setup: no command adds, removes or reweighs a
/// member, and none touches the recorded version.
pub proof fn law_step_keeps_members(
    state: LedgerView,
    env: Env,
    sender: Seq<char>,
    msg: ExecuteMsg,
)
    ensures
        step(state, env, sender, msg).members == state.members,
        step(state, env, sender, msg).version == state.version,
{
}

/// The counter only moves up.
pub proof fn law_counter_never_goes_back(
    state: LedgerView,
    env: Env,
    sender: Seq<char>,
    msg: ExecuteMsg,
)
    ensures
        next_id(step(state, env, sender, msg)) >= next_id(state),
{
}

/// A proposal just made has an id below the counter.
pub proof fn law_propose_mints_below_the_counter(
    state: LedgerView,
    now: u64,
    sender: Seq<char>,
    title: Seq<char>,
    description: Seq<char>,
    recipient: Option<Seq<char>>,
    amount: Option<u128>,
)
    requires
        propose_outcome(state, now, sender) is Ok,
    ensures
        ({
            let id = propose_outcome(state, now, sender)->Ok_0;
            let after = proposed(state, now, sender, title, description, recipient, amount);
            after.proposals.dom().contains(id) && id < next_id(after)
        }),
{
}

/// No command deletes or rewrites a proposal that the counter has handed
/// out: it keeps its id, texts, amount, recipient and deadline, its tallies
/// never go down, and once executed it stays executed.
pub proof fn law_step_keeps_history(
    state: LedgerView,
    env: Env,
    sender: Seq<char>,
    msg: ExecuteMsg,
    id: u64,
)
    requires
        state.proposals.dom().contains(id),
        id < next_id(state),
    ensures
        step(state, env, sender, msg).proposals.dom().contains(id),
        ({
            let before = state.proposals[id];
            let after = step(state, env, sender, msg).proposals[id];
            &&& after.id == before.id
            &&& after.title == before.title
            &&& after.description == before.description
            &&& after.amount == before.amount
            &&& after.recipient == before.recipient
            &&& after.voting_end == before.voting_end
            &&& after.votes_for >= before.votes_for
            &&& after.votes_against >= before.votes_against
            &&& before.executed ==> after.executed
        }),
{
}

/// Execution happens once: a proposal that the counter has handed out and
/// that is executed stays so whatever commands follow, and every later
/// attempt to execute it fails with `AlreadyExecuted` and changes nothing.
pub proof fn law_executed_is_final(
    state: LedgerView,
    calls: Seq<Call>,
    id: u64,
    now: u64,
    balance: u128,
)
    requires
        state.proposals.dom().contains(id),
        id < next_id(state),
        state.proposals[id].executed,
    ensures
        id < next_id(run(state, calls)),
        run(state, calls).proposals.dom().contains(id),
        run(state, calls).proposals[id].executed,
        execute_outcome(run(state, calls), now, balance, id) matches Err(
            ContractError::AlreadyExecuted {},
        ),
        executed(run(state, calls), now, balance, id) == run(state, calls),
    decreases calls.len(),
{
    if calls.len() > 0 {
        let call = calls.last();
        law_executed_is_final(state, calls.drop_last(), id, now, balance);
        let before = run(state, calls.drop_last());
        law_counter_never_goes_back(before, call.env, call.sender, call.msg);
        law_step_keeps_history(before, call.env, call.sender, call.msg, id);
    }
}

/// Only a passed proposal is executed: where a command turns the flag of a
/// proposal on that the counter has handed out, the command was `Execute`
/// for that proposal, its voting window had closed with a majority for it,
/// and the treasury covered its amount.
pub proof fn law_only_passed_proposals_are_executed(
    state: LedgerView,
    env: Env,
    sender: Seq<char>,
    msg: ExecuteMsg,
    id: u64,
)
    requires
        state.proposals.dom().contains(id),
        id < next_id(state),
        !state.proposals[id].executed,
        step(state, env, sender, msg).proposals[id].executed,
    ensures
        msg matches ExecuteMsg::Execute { proposal_id } && proposal_id == id,
        phase_of(state.proposals[id], env.block_time) == Phase::Passed,
        env.treasury_balance >= state.proposals[id].amount,
{
}

/// Votes count only while the window is open: where a command moves a tally
/// of a proposal that the counter has handed out, the command was `Vote` on
/// that proposal by a member who had not voted on it, before its deadline,
/// and the tally moved by that member's weight.
pub proof fn law_tallies_move_by_votes_only(
    state: LedgerView,
    env: Env,
    sender: Seq<char>,
    msg: ExecuteMsg,
    id: u64,
)
    requires
        state.proposals.dom().contains(id),
        id < next_id(state),
        step(state, env, sender, msg).proposals[id].votes_for != state.proposals[id].votes_for
            || step(state, env, sender, msg).proposals[id].votes_against
            != state.proposals[id].votes_against,
    ensures
        ({
            let before = state.proposals[id];
            let after = step(state, env, sender, msg).proposals[id];
            &&& msg matches ExecuteMsg::Vote { proposal_id, approve } && proposal_id == id && (
            if approve {
                &&& after.votes_for == before.votes_for + state.members[sender]
                &&& after.votes_against == before.votes_against
            } else {
                &&& after.votes_for == before.votes_for
                &&& after.votes_against == before.votes_against + state.members[sender]
            })
            &&& state.members.dom().contains(sender)
            &&& !state.ballots.dom().contains((id, sender))
            &&& env.block_time < before.voting_end
        }),
{
}

/// An execution that hands out a transfer marks the proposal executed.
pub proof fn law_transfer_marks_executed(state: LedgerView, now: u64, balance: u128, id: u64)
    requires
        execute_outcome(state, now, balance, id) matches Ok(Some(_)),
    ensures
        executed(state, now, balance, id).proposals.dom().contains(id),
        executed(state, now, balance, id).proposals[id].executed,
{
}

/// No proposal is paid twice: after an execution that handed out the
/// transfer of a proposal, whatever commands follow, executing it again
/// fails with `AlreadyExecuted`, hands out nothing and changes nothing.
pub proof fn law_no_second_transfer(
    state: LedgerView,
    now: u64,
    balance: u128,
    id: u64,
    calls: Seq<Call>,
    later: u64,
    funds: u128,
)
    requires
        id < next_id(state),
        execute_outcome(state, now, balance, id) matches Ok(Some(_)),
    ensures
        ({
            let after = run(executed(state, now, balance, id), calls);
            &&& execute_outcome(after, later, funds, id) matches Err(
                ContractError::AlreadyExecuted {},
            )
            &&& executed(after, later, funds, id) == after
        }),
{
    law_transfer_marks_executed(state, now, balance, id);
    law_executed_is_final(executed(state, now, balance, id), calls, id, later, funds);
}

/// A proposal reads back as it was made: after a successful `Propose`, the
/// query for the returned id gives the title, description, recipient and
/// amount supplied, with the sender as recipient and zero as amount where
/// they were left out.
pub proof fn law_propose_then_get(
    state: LedgerView,
    now: u64,
    sender: Seq<char>,
    title: Seq<char>,
    description: Seq<char>,
    recipient: Option<Seq<char>>,
    amount: Option<u128>,
    answer: Result<QueryResponse, ContractError>,
)
    requires
        propose_outcome(state, now, sender) is Ok,
        answers_proposal(
            proposed(state, now, sender, title, description, recipient, amount),
            propose_outcome(state, now, sender)->Ok_0,
            answer,
        ),
    ensures
        ({
            let id = propose_outcome(state, now, sender)->Ok_0;
            &&& answer matches Ok(QueryResponse::Proposal(p)) && p@ == fresh(
                id,
                drafted(now, sender, title, description, recipient, amount),
            )
            &&& answer matches Ok(QueryResponse::Proposal(p)) && p@.id == id && p@.title == title
                && p@.description == description && p@.recipient == (match recipient {
                Some(r) => r,
                None => sender,
            }) && p@.amount == (match amount {
                Some(a) => a,
                None => 0,
            })
        }),
{
}

/// A member's weight counts once per proposal: after a vote that counted,
/// whatever commands follow, another vote by the same member on the same
/// proposal is refused, as cast twice or as cast too late, and changes
/// nothing.
pub proof fn law_one_vote_per_member(
    state: LedgerView,
    now: u64,
    sender: Seq<char>,
    id: u64,
    approve: bool,
    calls: Seq<Call>,
    later: u64,
    again: bool,
)
    requires
        vote_outcome(state, now, sender, id, approve) is Ok,
    ensures
        ({
            let after = run(voted(state, now, sender, id, approve), calls);
            &&& vote_outcome(after, later, sender, id, again) matches Err(e) && (e
                == ContractError::AlreadyVoted {} || e == ContractError::VotingClosed {})
            &&& voted(after, later, sender, id, again) == after
        }),
{
    lemma_records_stay(voted(state, now, sender, id, approve), calls, id, sender);
}

/// No command removes a member, a proposal or a ballot.
proof fn lemma_records_stay(state: LedgerView, calls: Seq<Call>, id: u64, voter: Seq<char>)
    ensures
        state.members.dom().contains(voter) ==> run(state, calls).members.dom().contains(voter),
        state.proposals.dom().contains(id) ==> run(state, calls).proposals.dom().contains(id),
        state.ballots.dom().contains((id, voter)) ==> run(state, calls).ballots.dom().contains(
            (id, voter),
        ),
    decreases calls.len(),
{
    if calls.len() > 0 {
        lemma_records_stay(state, calls.drop_last(), id, voter);
    }
}

/// The listing of a sound store is ascending by id.
pub proof fn law_listing_ascends(proposals: Map<u64, ProposalView>, bound: u64)
    requires
        forall|id: u64| #[trigger] proposals.dom().contains(id) ==> proposals[id].id == id,
    ensures
        forall|i: int| 0 <= i < listing(proposals, bound).len() ==> (#[trigger] listing(
            proposals,
            bound,
        )[i]).id < bound,
        forall|i: int, j: int|
            0 <= i < j < listing(proposals, bound).len() ==> (#[trigger] listing(
                proposals,
                bound,
            )[i]).id < (#[trigger] listing(proposals, bound)[j]).id,
    decreases bound,
{
    if bound > 0 {
        let top = (bound - 1) as u64;
        law_listing_ascends(proposals, top);
        let below = listing(proposals, top);
        let all = listing(proposals, bound);
        assert forall|i: int| 0 <= i < all.len() implies (#[trigger] all[i]).id < bound by {
            if i < below.len() {
                assert(all[i] == below[i]);
            }
        }
        assert forall|i: int, j: int| 0 <= i < j < all.len() implies (#[trigger] all[i]).id < (
        #[trigger] all[j]).id by {
            assert(all[i] == below[i]);
            if j < below.len() {
                assert(all[j] == below[j]);
            }
        }
    }
}

/// Whether `proposal` is stored under some id below `bound`.
pub open spec fn stored_below(
    proposals: Map<u64, ProposalView>,
    bound: u64,
    proposal: ProposalView,
) -> bool {
    exists|id: u64|
        id < bound && #[trigger] proposals.dom().contains(id) && proposals[id] == proposal
}

/// The listing holds every stored proposal with an id below the bound, and
/// nothing else.
pub proof fn law_listing_is_complete(proposals: Map<u64, ProposalView>, bound: u64)
    ensures
        forall|p: ProposalView| #[trigger]
            listing(proposals, bound).contains(p) <==> stored_below(proposals, bound, p),
    decreases bound,
{
    if bound > 0 {
        let top = (bound - 1) as u64;
        law_listing_is_complete(proposals, top);
        let below = listing(proposals, top);
        let all = listing(proposals, bound);
        assert forall|p: ProposalView| #[trigger] all.contains(p) implies stored_below(
            proposals,
            bound,
            p,
        ) by {
            let i = choose|i: int| 0 <= i < all.len() && all[i] == p;
            if i < below.len() {
                assert(below.contains(p));
                let id = choose|id: u64|
                    id < top && #[trigger] proposals.dom().contains(id) && proposals[id] == p;
            }
        }
        assert forall|p: ProposalView| stored_below(proposals, bound, p) implies #[trigger]
            all.contains(p) by {
            let id = choose|id: u64|
                id < bound && #[trigger] proposals.dom().contains(id) && proposals[id] == p;
            if id == top {
                assert(all[all.len() - 1] == p);
            } else {
                assert(below.contains(p));
                let i = choose|i: int| 0 <= i < below.len() && below[i] == p;
                assert(all[i] == p);
            }
        }
    }
}

/// In a sound store the listing up to the counter leaves no proposal out.
pub proof fn law_listing_of_a_sound_store(state: LedgerView, id: u64)
    requires
        consistent(state),
        state.proposals.dom().contains(id),
    ensures
        listing(state.proposals, next_id(state)).contains(state.proposals[id]),
{
    law_listing_is_complete(state.proposals, next_id(state));
    assert(stored_below(state.proposals, next_id(state), state.proposals[id]));
}

/// In a store without gaps the listing holds proposal `k` at place `k`.
pub proof fn law_listing_without_gaps(proposals: Map<u64, ProposalView>, bound: u64)
    requires
        forall|id: u64| id < bound ==> #[trigger] proposals.dom().contains(id),
    ensures
        listing(proposals, bound).len() == bound,
        forall|k: u64| k < bound ==> listing(proposals, bound)[k as int] == #[trigger] proposals[k],
    decreases bound,
{
    if bound > 0 {
        law_listing_without_gaps(proposals, (bound - 1) as u64);
    }
}

/// Whether some entry of `inits` has the address `address`.
pub open spec fn named_in(inits: Seq<MemberInit>, address: Seq<char>) -> bool {
    exists|i: int| 0 <= i < inits.len() && (#[trigger] inits[i]).address@ == address
}

/// Registering entries with distinct addresses stores each entry's weight
/// under its address, and leaves every other address as it was.
pub proof fn law_registered_members(members: Map<Seq<char>, u128>, inits: Seq<MemberInit>)
    requires
        distinct_addresses(inits),
    ensures
        forall|i: int|
            0 <= i < inits.len() ==> registered(members, inits).contains_pair(
                (#[trigger] inits[i]).address@,
                inits[i].weight,
            ),
        forall|a: Seq<char>|
            !#[trigger] named_in(inits, a) ==> (registered(members, inits).dom().contains(a)
                <==> members.dom().contains(a)) && (members.dom().contains(a) ==> registered(
                members,
                inits,
            )[a] == members[a]),
    decreases inits.len(),
{
    if inits.len() > 0 {
        let head = inits.drop_last();
        assert(distinct_addresses(head)) by {
            assert forall|i: int, j: int| 0 <= i < j < head.len() implies (
            #[trigger] head[i]).address@ != (#[trigger] head[j]).address@ by {
                assert(head[i] == inits[i] && head[j] == inits[j]);
            }
        }
        law_registered_members(members, head);
        assert forall|i: int| 0 <= i < inits.len() implies registered(members, inits).contains_pair(
            (#[trigger] inits[i]).address@,
            inits[i].weight,
        ) by {
            if i < head.len() {
                assert(head[i] == inits[i]);
            }
        }
        assert forall|a: Seq<char>| !#[trigger] named_in(inits, a) implies (registered(
            members,
            inits,
        ).dom().contains(a) <==> members.dom().contains(a)) && (members.dom().contains(a)
            ==> registered(members, inits)[a] == members[a]) by {
            if named_in(head, a) {
                let i = choose|i: int| 0 <= i < head.len() && (#[trigger] head[i]).address@ == a;
                assert(inits[i] == head[i]);
            }
        }
    }
}

} // verus!
