//! Laws that relate several ledger operations, proved from the
//! operations' contracts alone.

use vstd::prelude::*;

use crate::AccountId;
use crate::Balance;
use crate::Error;
use crate::ledger::Erc20;
use crate::ledger::approve_spec;
use crate::ledger::transfer_from_spec;

verus! {

/// Approval overwrites: two approvals in a row for the same spender
/// leave the allowance at the second value, not at the sum.
pub proof fn lemma_approve_overwrites(
    l0: Erc20,
    l1: Erc20,
    l2: Erc20,
    owner: AccountId,
    spender: AccountId,
    v1: Balance,
    v2: Balance,
    r1: Result<(), Error>,
    r2: Result<(), Error>,
)
    requires
        approve_spec(l0, l1, owner, spender, v1, r1),
        approve_spec(l1, l2, owner, spender, v2, r2),
    ensures
        l2.spec_allowance(owner, spender) == v2,
{
}

/// Round trip: an approval of `v` followed by a delegated transfer of
/// `v` by that spender succeeds (provided the owner's balance covers
/// `v`), consumes the whole allowance, and moves exactly `v` from the
/// owner to the destination — or moves nothing when the owner is the
/// destination.
pub proof fn lemma_approve_then_transfer_from(
    l0: Erc20,
    l1: Erc20,
    l2: Erc20,
    owner: AccountId,
    spender: AccountId,
    to: AccountId,
    v: Balance,
    r1: Result<(), Error>,
    r2: Result<(), Error>,
)
    requires
        approve_spec(l0, l1, owner, spender, v, r1),
        transfer_from_spec(l1, l2, spender, owner, to, v, r2),
        v <= l0.spec_balance_of(owner),
    ensures
        r2 == Ok::<(), Error>(()),
        l2.spec_allowance(owner, spender) == 0,
        owner != to ==> l2.spec_balance_of(owner) == l0.spec_balance_of(owner) - v,
        owner != to ==> l2.spec_balance_of(to) == l0.spec_balance_of(to) + v,
        owner == to ==> l2.spec_balance_of(owner) == l0.spec_balance_of(owner),
{
    assert(l1.spec_allowance(owner, spender) == v);
    assert(l1.spec_balance_of(owner) == l0.spec_balance_of(owner));
}

} // verus!
