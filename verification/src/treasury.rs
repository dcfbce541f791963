//! Outbound transfers, as data for the host to carry out.

use vstd::prelude::*;

verus! {

/// An instruction to send `amount` of `denom` from the treasury to
/// `recipient`.
#[derive(Clone, Debug, PartialEq, Eq)]
pub struct TransferInstruction {
    pub recipient: String,
    pub amount: u128,
    pub denom: String,
}

/// What a [`TransferInstruction`] is, as a value.
pub struct TransferView {
    pub recipient: Seq<char>,
    pub amount: u128,
    pub denom: Seq<char>,
}

impl View for TransferInstruction {
    type V = TransferView;

    open spec fn view(&self) -> TransferView {
        TransferView { recipient: self.recipient@, amount: self.amount, denom: self.denom@ }
    }
}

/// Builds the instruction to send `amount` of `denom` to `recipient`. Nothing
/// is sent: the instruction is handed back for the host to apply.
pub fn build_transfer(recipient: &str, amount: u128, denom: &str) -> (transfer: TransferInstruction)
    ensures
        transfer@ == (TransferView { recipient: recipient@, amount, denom: denom@ }),
{
    TransferInstruction { recipient: recipient.to_owned(), amount, denom: denom.to_owned() }
}

} // verus!
