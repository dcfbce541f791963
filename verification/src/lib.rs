//! Weighted-membership governance over a shared treasury.
//!
//! Registered members submit spending proposals, cast votes that count by
//! their weight and, once a proposal's voting window has closed with a
//! majority in favour, trigger a single transfer from the treasury.
//!
//! * [`contract`] holds the rules and the entry points: [`contract::instantiate`],
//!   [`contract::execute`] and [`contract::query`].
//! * [`registry`] answers who is a member and with what weight.
//! * [`store`] keeps the proposals and mints their ids.
//! * [`treasury`] builds the transfer that an executed proposal hands to the
//!   host.
//! * [`ledger`] is the handle to the host's storage that every operation
//!   takes, and the contracts assumed of the storage crates.
//! * [`laws`] proves what holds across calls: ids are handed out in order, a
//!   proposal is paid at most once, a member votes once per proposal, and
//!   what was proposed reads back unchanged.
//!
//! Every operation is total: on an input it refuses it returns the reason as
//! a [`error::ContractError`] and leaves the storage untouched.

pub mod contract;
pub mod error;
pub mod keys;
pub mod laws;
pub mod ledger;
pub mod msg;
pub mod registry;
pub mod state;
pub mod store;
pub mod treasury;
