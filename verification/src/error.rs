//! The ways a call can fail.

use vstd::prelude::*;

verus! {

/// Why a call was refused. A refused call leaves the stored state as it was.
#[derive(Debug)]
pub enum ContractError {
    /// The storage could not be read.
    Std(cosmwasm_std::StdError),
    /// The caller is not a registered member.
    Unauthorized {},
    /// No proposal or member is stored under the given id or address.
    NotFound {},
    /// The setup input is malformed.
    InvalidInput(String),
    /// The proposal has been executed already.
    AlreadyExecuted {},
    /// The voting window of the proposal has closed.
    VotingClosed {},
    /// The voting window of the proposal is still open.
    VotingNotEnded {},
    /// The member has voted on the proposal already.
    AlreadyVoted {},
    /// The treasury holds less than the proposal asks for.
    InsufficientFunds {},
    /// A counter, a tally or a deadline would leave its integer range.
    Overflow {},
}

} // verus!
