//! A fungible-token ledger with a fixed total supply.
//!
//! The ledger tracks per-account balances and per-(owner, spender)
//! allowances, and offers the classic operations: `transfer`,
//! `transfer_from` and `approve`. Caller identity is an explicit
//! parameter (authentication is the host's concern), and every state
//! change appends a record to an internal event log.

use vstd::prelude::*;

mod balances;
mod allowances;
mod ledger;
mod laws;

pub use ledger::Erc20;
pub use ledger::new_spec;
pub use ledger::transfer_spec;
pub use ledger::transfer_from_spec;
pub use ledger::approve_spec;
pub use ledger::balances_moved;
pub use ledger::sum_of_balances;
pub use ledger::lemma_supply_conservation;
pub use ledger::lemma_balance_of_in_range;
pub use laws::lemma_approve_overwrites;
pub use laws::lemma_approve_then_transfer_from;

verus! {

/// Opaque 256-bit identifier of an account holding funds, split into
/// two halves so it can be compared field by field.
#[derive(Clone, Copy, PartialEq, Eq, Structural, Hash, Debug)]
pub struct AccountId {
    pub hi: u128,
    pub lo: u128,
}

/// Amount of token units; wide enough to hold any total supply.
pub type Balance = u128;

/// The two recoverable failures of the mutating operations.
#[derive(Clone, Copy, PartialEq, Eq, Structural, Debug)]
pub enum Error {
    /// The requested amount exceeds the source account's balance.
    BalanceTooLow,
    /// The requested amount exceeds the spender's remaining allowance.
    AllowanceTooLow,
}

/// Record of a movement of funds; `from == None` marks the issuance
/// of the initial supply at construction.
#[derive(Clone, Copy, PartialEq, Eq, Debug)]
pub struct Transfer {
    pub from: Option<AccountId>,
    pub to: Option<AccountId>,
    pub value: Balance,
}

/// Record of an allowance being set by `owner` for `spender`.
#[derive(Clone, Copy, PartialEq, Eq, Debug)]
pub struct Approval {
    pub owner: AccountId,
    pub spender: AccountId,
    pub value: Balance,
}

/// One entry of the ledger's append-only event log.
#[derive(Clone, Copy, PartialEq, Eq, Debug)]
pub enum Event {
    Transfer(Transfer),
    Approval(Approval),
}

} // verus!
