//! The membership registry: who may act, and with what weight.

use vstd::prelude::*;
use crate::error::ContractError;
use crate::ledger::{
    lists_members, members_intact, read_member, scan_members, write_member, Ledger, LedgerView,
};
use crate::msg::MemberInit;
use crate::state::{Member, MemberView};

verus! {

/// The message of the error for a setup input that names an address twice.
pub const DUPLICATE_MEMBER: &'static str = "duplicate member address";

/// The weight registered for `address`, if any.
pub open spec fn weight_of(state: LedgerView, address: Seq<char>) -> Option<u128> {
    if state.members.dom().contains(address) {
        Some(state.members[address])
    } else {
        None
    }
}

/// Whether no two entries of `inits` share an address.
pub open spec fn distinct_addresses(inits: Seq<MemberInit>) -> bool {
    forall|i: int, j: int|
        0 <= i < j < inits.len() ==> (#[trigger] inits[i]).address@ != (
        #[trigger] inits[j]).address@
}

/// The members after each entry of `inits` has been registered in turn.
pub open spec fn registered(members: Map<Seq<char>, u128>, inits: Seq<MemberInit>) -> Map<
    Seq<char>,
    u128,
>
    decreases inits.len(),
{
    if inits.len() == 0 {
        members
    } else {
        registered(members, inits.drop_last()).insert(inits.last().address@, inits.last().weight)
    }
}

/// The weight of the member at `address`, or `None` where nobody is
/// registered there.
pub fn lookup(ledger: &Ledger, address: &str) -> (weight: Option<u128>)
    ensures
        weight == weight_of(ledger@, address@),
{
    match read_member(ledger, address) {
        Ok(w) => Some(w),
        Err(_) => None,
    }
}

/// Whether some address occurs twice in `inits`.
fn has_duplicate(inits: &Vec<MemberInit>) -> (found: bool)
    ensures
        found == !distinct_addresses(inits@),
{
    let n = inits.len();
    let mut j: usize = 0;
    while j < n
        invariant
            n == inits.len(),
            j <= n,
            forall|a: int, b: int|
                0 <= a < b < j ==> (#[trigger] inits[a]).address@ != (#[trigger] inits[b]).address@,
        decreases n - j,
    {
        let mut i: usize = 0;
        while i < j
            invariant
                n == inits.len(),
                i <= j < n,
                forall|a: int|
                    0 <= a < i ==> (#[trigger] inits[a]).address@ != inits[j as int].address@,
            decreases j - i,
        {
            if inits[i].address == inits[j].address {
                return true;
            }
            i += 1;
        }
        j += 1;
    }
    false
}

/// Loads the initial member set. Fails with `InvalidInput`, and stores
/// nothing, where `inits` names an address twice.
pub fn register_all(ledger: &mut Ledger, inits: &Vec<MemberInit>) -> (r: Result<(), ContractError>)
    ensures
        distinct_addresses(inits@) ==> ({
            &&& r is Ok
            &&& final(ledger)@ == (LedgerView {
                members: registered(old(ledger)@.members, inits@),
                ..old(ledger)@
            })
        }),
        !distinct_addresses(inits@) ==> ({
            &&& r matches Err(ContractError::InvalidInput(reason)) && reason@ == DUPLICATE_MEMBER@
            &&& *final(ledger) == *old(ledger)
        }),
        members_intact(*old(ledger)) ==> members_intact(*final(ledger)),
{
    if has_duplicate(inits) {
        return Err(ContractError::InvalidInput(DUPLICATE_MEMBER.to_owned()));
    }
    let n = inits.len();
    let mut k: usize = 0;
    while k < n
        invariant
            n == inits.len(),
            k <= n,
            ledger@ == (LedgerView {
                members: registered(old(ledger)@.members, inits@.take(k as int)),
                ..old(ledger)@
            }),
            members_intact(*old(ledger)) ==> members_intact(*ledger),
        decreases n - k,
    {
        write_member(ledger, inits[k].address.as_str(), inits[k].weight);
        proof {
            assert(inits@.take(k + 1).drop_last() == inits@.take(k as int));
        }
        k += 1;
    }
    proof {
        assert(inits@.take(n as int) == inits@);
    }
    Ok(())
}

/// The member registered at `address`, or `NotFound`.
pub fn member(ledger: &Ledger, address: &str) -> (r: Result<Member, ContractError>)
    ensures
        weight_of(ledger@, address@) matches Some(weight) ==> r matches Ok(m) && m@
            == (MemberView { address: address@, weight }),
        weight_of(ledger@, address@) is None ==> r matches Err(ContractError::NotFound {}),
{
    match lookup(ledger, address) {
        Some(weight) => Ok(Member { address: address.to_owned(), weight }),
        None => Err(ContractError::NotFound {}),
    }
}

/// All members, ascending by address. Fails where an entry of the collection
/// cannot be read back.
pub fn members(ledger: &Ledger) -> (r: Result<Vec<Member>, ContractError>)
    ensures
        members_intact(*ledger) ==> (r matches Ok(listing) && lists_members(
            listing@,
            ledger@.members,
        )),
        !members_intact(*ledger) ==> r matches Err(ContractError::Std(_)),
{
    match scan_members(ledger) {
        Ok(listing) => Ok(listing),
        Err(e) => Err(ContractError::Std(e)),
    }
}

} // verus!
