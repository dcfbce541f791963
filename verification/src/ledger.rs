//! The storage handle: the host's key-value storage, seen as the governance
//! state it holds.
//!
//! Nothing in this file is proved. Each function below makes one call into
//! `cw_storage_plus` or `cw2`, and its contract states what that call does to
//! what the contract keeps: its version, the proposal counter, the members,
//! the proposals and the ballots.

use vstd::prelude::*;
use crate::keys::decimal;
use crate::state::{Member, Proposal, ProposalView};

verus! {

/// `cosmwasm_std::StdError`, the error of the storage crates. It is carried
/// through as it comes; nothing is read from it.
#[verifier::external_type_specification]
#[verifier::external_body]
pub struct ExStdError(cosmwasm_std::StdError);

/// A handle to the contract's storage, passed to every operation. The host
/// lends the storage for one call: wrap it with `Ledger { store }`.
///
/// The storage is a `cosmwasm_std::Storage` trait object, which Verus does
/// not model, so the handle is opaque in contracts: they speak of what it
/// holds through the functions below. Those contracts hold of a backend that
/// keeps the key-value discipline of the trait, as
/// `cosmwasm_std::MemoryStorage` does: a key reads back the bytes last
/// written under it, and a write touches no other key.
#[verifier::external_body]
pub struct Ledger<'a> {
    pub store: &'a mut dyn cosmwasm_std::Storage,
}

/// The contract name and version recorded in the `contract_info` slot, where
/// it holds a record of the two.
pub uninterp spec fn stored_version(ledger: Ledger) -> Option<(Seq<char>, Seq<char>)>;

/// The value of the `proposal_count` slot, where it holds a `u64`.
pub uninterp spec fn stored_count(ledger: Ledger) -> Option<u64>;

/// The weight stored under each address of the `members` collection.
pub uninterp spec fn stored_members(ledger: Ledger) -> Map<Seq<char>, u128>;

/// Whether every entry of the `members` collection can be read back: its key
/// is text and its value a weight.
pub uninterp spec fn members_intact(ledger: Ledger) -> bool;

/// The proposal stored under the decimal text of each id in the `proposals`
/// collection, carrying that id.
pub uninterp spec fn stored_proposals(ledger: Ledger) -> Map<u64, ProposalView>;

/// The choice stored for each (proposal id, voter) of the `ballots`
/// collection.
pub uninterp spec fn stored_ballots(ledger: Ledger) -> Map<(u64, Seq<char>), bool>;

/// The governance state held in a storage.
#[verifier::ext_equal]
pub struct LedgerView {
    /// The contract name and version on record, if any.
    pub version: Option<(Seq<char>, Seq<char>)>,
    /// The proposal counter, if one is stored.
    pub count: Option<u64>,
    /// Voting weight by member address.
    pub members: Map<Seq<char>, u128>,
    /// Proposals by id.
    pub proposals: Map<u64, ProposalView>,
    /// The choice of each member who has voted, by proposal id and address.
    pub ballots: Map<(u64, Seq<char>), bool>,
}

impl<'a> View for Ledger<'a> {
    type V = LedgerView;

    open spec fn view(&self) -> LedgerView {
        LedgerView {
            version: stored_version(*self),
            count: stored_count(*self),
            members: stored_members(*self),
            proposals: stored_proposals(*self),
            ballots: stored_ballots(*self),
        }
    }
}

/// The fields of a proposal as they are stored under its id.
pub type ProposalRecord = (String, String, u128, u128, bool, u128, String, u64);

/// `cw2::set_contract_version`: the `contract_info` slot then holds `name`
/// and `version`, and no collection changes. The call fails only if
/// serialising fails, which it cannot for two strings.
#[verifier::external_body]
pub(crate) fn write_version(ledger: &mut Ledger, name: &str, version: &str)
    ensures
        stored_version(*final(ledger)) == Some((name@, version@)),
        final(ledger)@ == (LedgerView { version: Some((name@, version@)), ..old(ledger)@ }),
        members_intact(*final(ledger)) == members_intact(*old(ledger)),
{
    cw2::set_contract_version(&mut *ledger.store, name, version).unwrap();
}

/// `Item::load` on the `proposal_count` slot: the stored counter, or an error
/// where the slot is empty or does not hold a `u64`.
#[verifier::external_body]
pub(crate) fn read_count(ledger: &Ledger) -> (r: Result<u64, cosmwasm_std::StdError>)
    ensures
        r matches Ok(n) ==> stored_count(*ledger) == Some(n),
        r is Err ==> stored_count(*ledger) is None,
{
    cw_storage_plus::Item::<u64>::new("proposal_count").load(&*ledger.store)
}

/// `Item::save` on the `proposal_count` slot: the slot then holds `n`, and
/// no collection changes. `save` fails only if serialising fails, which it
/// cannot for an integer.
#[verifier::external_body]
pub(crate) fn write_count(ledger: &mut Ledger, n: u64)
    ensures
        final(ledger)@ == (LedgerView { count: Some(n), ..old(ledger)@ }),
        members_intact(*final(ledger)) == members_intact(*old(ledger)),
{
    cw_storage_plus::Item::<u64>::new("proposal_count").save(&mut *ledger.store, &n).unwrap();
}

/// `Map::load` on the `members` collection: the weight stored under
/// `address`, or an error where there is none that can be read.
#[verifier::external_body]
pub(crate) fn read_member(ledger: &Ledger, address: &str) -> (r: Result<
    u128,
    cosmwasm_std::StdError,
>)
    ensures
        r matches Ok(w) ==> stored_members(*ledger).contains_pair(address@, w),
        r is Err ==> !stored_members(*ledger).dom().contains(address@),
{
    cw_storage_plus::Map::<&str, u128>::new("members").load(&*ledger.store, address)
}

/// `Map::save` on the `members` collection: `address` then maps to `weight`,
/// and nothing else changes. A collection that could be listed before can
/// still be listed.
#[verifier::external_body]
pub(crate) fn write_member(ledger: &mut Ledger, address: &str, weight: u128)
    ensures
        final(ledger)@ == (LedgerView {
            members: old(ledger)@.members.insert(address@, weight),
            ..old(ledger)@
        }),
        members_intact(*old(ledger)) ==> members_intact(*final(ledger)),
{
    cw_storage_plus::Map::<&str, u128>::new("members")
        .save(&mut *ledger.store, address, &weight)
        .unwrap();
}

/// Whether `a` comes before `b` in the order of storage keys: the
/// lexicographic order by code point.
pub open spec fn key_before(a: Seq<char>, b: Seq<char>) -> bool
    decreases a.len(),
{
    if b.len() == 0 {
        false
    } else if a.len() == 0 {
        true
    } else if a[0] != b[0] {
        (a[0] as u32) < (b[0] as u32)
    } else {
        key_before(a.skip(1), b.skip(1))
    }
}

/// Whether `listing` holds exactly the entries of `members`, each once, in
/// ascending order of address.
pub open spec fn lists_members(listing: Seq<Member>, members: Map<Seq<char>, u128>) -> bool {
    &&& forall|i: int, j: int|
        0 <= i < j < listing.len() ==> key_before(
            #[trigger] listing[i].address@,
            #[trigger] listing[j].address@,
        )
    &&& forall|i: int|
        0 <= i < listing.len() ==> members.contains_pair(
            (#[trigger] listing[i]).address@,
            listing[i].weight,
        )
    &&& forall|a: Seq<char>| #[trigger]
        members.dom().contains(a) ==> exists|i: int|
            0 <= i < listing.len() && (#[trigger] listing[i]).address@ == a
}

/// `Map::range` over the whole `members` collection, ascending: every member
/// in the order of the storage keys, or the first error met where an entry
/// cannot be read.
#[verifier::external_body]
pub(crate) fn scan_members(ledger: &Ledger) -> (r: Result<Vec<Member>, cosmwasm_std::StdError>)
    ensures
        r is Ok <==> members_intact(*ledger),
        r matches Ok(listing) ==> lists_members(listing@, stored_members(*ledger)),
{
    cw_storage_plus::Map::<&str, u128>::new("members")
        .range(&*ledger.store, None, None, cosmwasm_std::Order::Ascending)
        .map(|entry| entry.map(|(address, weight)| Member { address, weight }))
        .collect()
}

/// `Map::load` on the `proposals` collection under `key`, the decimal text
/// of `id`: the proposal stored there, or an error where there is none that
/// can be read.
#[verifier::external_body]
pub(crate) fn read_proposal(ledger: &Ledger, id: u64, key: &str) -> (r: Result<
    Proposal,
    cosmwasm_std::StdError,
>)
    requires
        key@ == decimal(id as nat),
    ensures
        r matches Ok(p) ==> p.id == id && stored_proposals(*ledger).contains_pair(id, p@),
        r is Err ==> !stored_proposals(*ledger).dom().contains(id),
{
    let rec =
        cw_storage_plus::Map::<&str, ProposalRecord>::new("proposals").load(&*ledger.store, key)?;
    Ok(Proposal {
        id,
        title: rec.0,
        description: rec.1,
        votes_for: rec.2,
        votes_against: rec.3,
        executed: rec.4,
        amount: rec.5,
        recipient: rec.6,
        voting_end: rec.7,
    })
}

/// `Map::save` on the `proposals` collection under `key`, the decimal text
/// of the proposal's id: that id then maps to `proposal`, and nothing else
/// changes.
#[verifier::external_body]
pub(crate) fn write_proposal(ledger: &mut Ledger, key: &str, proposal: &Proposal)
    requires
        key@ == decimal(proposal.id as nat),
    ensures
        final(ledger)@ == (LedgerView {
            proposals: old(ledger)@.proposals.insert(proposal.id, proposal@),
            ..old(ledger)@
        }),
        members_intact(*final(ledger)) == members_intact(*old(ledger)),
{
    let rec: ProposalRecord = (
        proposal.title.clone(),
        proposal.description.clone(),
        proposal.votes_for,
        proposal.votes_against,
        proposal.executed,
        proposal.amount,
        proposal.recipient.clone(),
        proposal.voting_end,
    );
    cw_storage_plus::Map::<&str, ProposalRecord>::new("proposals")
        .save(&mut *ledger.store, key, &rec)
        .unwrap();
}

/// `Map::load` on the `ballots` collection: the choice stored for `voter` on
/// proposal `id`, or an error where there is none that can be read.
#[verifier::external_body]
pub(crate) fn read_ballot(ledger: &Ledger, id: u64, voter: &str) -> (r: Result<
    bool,
    cosmwasm_std::StdError,
>)
    ensures
        r matches Ok(choice) ==> stored_ballots(*ledger).contains_pair((id, voter@), choice),
        r is Err ==> !stored_ballots(*ledger).dom().contains((id, voter@)),
{
    cw_storage_plus::Map::<(u64, &str), bool>::new("ballots").load(&*ledger.store, (id, voter))
}

/// `Map::save` on the `ballots` collection: (`id`, `voter`) then maps to
/// `approve`, and nothing else changes.
#[verifier::external_body]
pub(crate) fn write_ballot(ledger: &mut Ledger, id: u64, voter: &str, approve: bool)
    ensures
        final(ledger)@ == (LedgerView {
            ballots: old(ledger)@.ballots.insert((id, voter@), approve),
            ..old(ledger)@
        }),
        members_intact(*final(ledger)) == members_intact(*old(ledger)),
{
    cw_storage_plus::Map::<(u64, &str), bool>::new("ballots")
        .save(&mut *ledger.store, (id, voter), &approve)
        .unwrap();
}

} // verus!
