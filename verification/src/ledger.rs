//! The token ledger: a fixed total supply, per-account balances,
//! per-(owner, spender) allowances, and an append-only event log.
//!
//! Every mutating operation either commits in full or fails with an
//! error and leaves the ledger exactly as it was. The well-formedness
//! predicate [`Erc20::wf`] carries the central invariant: the stored
//! balances always sum to the total supply.

use vstd::prelude::*;

use crate::AccountId;
use crate::Approval;
use crate::Balance;
use crate::Error;
use crate::Event;
use crate::Transfer;
use crate::allowances;
use crate::balances;

verus! {

/// A fungible-token ledger with a fixed total supply.
pub struct Erc20 {
    total_supply: Balance,
    balances: Vec<(AccountId, Balance)>,
    allowances: Vec<(AccountId, AccountId, Balance)>,
    events: Vec<Event>,
}

impl Erc20 {
    /// The ledger's internal invariant: unique store keys, and the
    /// stored balances sum exactly to the total supply.
    pub closed spec fn wf(self) -> bool {
        &&& balances::keys_unique(self.balances@)
        &&& allowances::keys_unique(self.allowances@)
        &&& balances::sum_values(self.balances@) == self.total_supply
    }

    /// The fixed total supply.
    pub closed spec fn spec_total_supply(self) -> Balance {
        self.total_supply
    }

    /// The balance of `a`; zero for an account with no history.
    pub closed spec fn spec_balance_of(self, a: AccountId) -> Balance {
        balances::lookup(self.balances@, a)
    }

    /// The allowance granted by `owner` to `spender`; zero when none
    /// was ever set.
    pub closed spec fn spec_allowance(self, owner: AccountId, spender: AccountId) -> Balance {
        allowances::lookup(self.allowances@, owner, spender)
    }

    /// The events emitted so far, oldest first.
    pub closed spec fn spec_events(self) -> Seq<Event> {
        self.events@
    }

    /// The accounts that hold a balance entry, in storage order.
    pub closed spec fn holders(self) -> Seq<AccountId> {
        balances::keys(self.balances@)
    }
}

/// How a successful movement of `value` from `from` to `to` relates
/// the balances after (`post`) to the balances before (`pre`): a
/// self-transfer leaves every balance unchanged, otherwise exactly the
/// two accounts involved change, by `value`.
pub open spec fn balances_moved(
    pre: Erc20,
    post: Erc20,
    from: AccountId,
    to: AccountId,
    value: Balance,
) -> bool {
    &&& (forall|a: AccountId|
        a != from && a != to ==> post.spec_balance_of(a) == pre.spec_balance_of(a))
    &&& (from != to ==> {
        &&& post.spec_balance_of(from) == pre.spec_balance_of(from) - value
        &&& post.spec_balance_of(to) == pre.spec_balance_of(to) + value
    })
    &&& (from == to ==> (forall|a: AccountId|
        post.spec_balance_of(a) == pre.spec_balance_of(a)))
}

/// What construction returns: a well-formed ledger whose whole supply
/// is credited to `caller`, with no allowances, and a single issuance
/// event in the log.
pub open spec fn new_spec(l: Erc20, caller: AccountId, total_supply: Balance) -> bool {
    &&& l.wf()
    &&& l.spec_total_supply() == total_supply
    &&& (forall|a: AccountId| l.spec_balance_of(a) == if a == caller {
        total_supply
    } else {
        0
    })
    &&& (forall|o: AccountId, s: AccountId| l.spec_allowance(o, s) == 0)
    &&& l.spec_events() == seq![
        Event::Transfer(Transfer { from: None, to: Some(caller), value: total_supply }),
    ]
}

/// What `transfer` does: when `value` is covered by the source's
/// balance it succeeds, moves the funds and logs one transfer event;
/// otherwise it fails with `BalanceTooLow` and changes nothing.
/// Total supply and allowances are never touched.
pub open spec fn transfer_spec(
    pre: Erc20,
    post: Erc20,
    caller: AccountId,
    to: AccountId,
    value: Balance,
    r: Result<(), Error>,
) -> bool {
    &&& post.wf()
    &&& post.spec_total_supply() == pre.spec_total_supply()
    &&& (forall|o: AccountId, s: AccountId| post.spec_allowance(o, s) == pre.spec_allowance(o, s))
    &&& if value <= pre.spec_balance_of(caller) {
        &&& r == Ok::<(), Error>(())
        &&& balances_moved(pre, post, caller, to, value)
        &&& post.spec_events() == pre.spec_events().push(
            Event::Transfer(Transfer { from: Some(caller), to: Some(to), value }),
        )
    } else {
        &&& r == Err::<(), Error>(Error::BalanceTooLow)
        &&& post == pre
    }
}

/// What `transfer_from` does: the spender's allowance is checked
/// first, then the owner's balance, both against the state before the
/// call; the first failing check decides the error and nothing
/// changes. On success the allowance is consumed, the funds move, and
/// one transfer event is logged. Total supply is never touched.
pub open spec fn transfer_from_spec(
    pre: Erc20,
    post: Erc20,
    caller: AccountId,
    from: AccountId,
    to: AccountId,
    value: Balance,
    r: Result<(), Error>,
) -> bool {
    &&& post.wf()
    &&& post.spec_total_supply() == pre.spec_total_supply()
    &&& if value > pre.spec_allowance(from, caller) {
        &&& r == Err::<(), Error>(Error::AllowanceTooLow)
        &&& post == pre
    } else if value > pre.spec_balance_of(from) {
        &&& r == Err::<(), Error>(Error::BalanceTooLow)
        &&& post == pre
    } else {
        &&& r == Ok::<(), Error>(())
        &&& balances_moved(pre, post, from, to, value)
        &&& post.spec_allowance(from, caller) == pre.spec_allowance(from, caller) - value
        &&& (forall|o: AccountId, s: AccountId|
            !(o == from && s == caller) ==> post.spec_allowance(o, s) == pre.spec_allowance(o, s))
        &&& post.spec_events() == pre.spec_events().push(
            Event::Transfer(Transfer { from: Some(from), to: Some(to), value }),
        )
    }
}

/// What `approve` does: it always succeeds, overwrites exactly the
/// (caller, spender) allowance with `value`, and logs one approval
/// event. Balances and total supply are never touched.
pub open spec fn approve_spec(
    pre: Erc20,
    post: Erc20,
    caller: AccountId,
    spender: AccountId,
    value: Balance,
    r: Result<(), Error>,
) -> bool {
    &&& post.wf()
    &&& post.spec_total_supply() == pre.spec_total_supply()
    &&& (forall|a: AccountId| post.spec_balance_of(a) == pre.spec_balance_of(a))
    &&& r == Ok::<(), Error>(())
    &&& (forall|o: AccountId, s: AccountId| post.spec_allowance(o, s) == if o == caller && s
        == spender {
        value
    } else {
        pre.spec_allowance(o, s)
    })
    &&& post.spec_events() == pre.spec_events().push(
        Event::Approval(Approval { owner: caller, spender, value }),
    )
}

impl Erc20 {
    /// Creates the ledger, crediting the whole `total_supply` to
    /// `caller` and logging the issuance event. Cannot fail.
    pub fn new(total_supply: Balance, caller: AccountId) -> (l: Erc20)
        ensures
            new_spec(l, caller, total_supply),
    {
        let mut bal: Vec<(AccountId, Balance)> = Vec::new();
        bal.push((caller, total_supply));
        let mut events: Vec<Event> = Vec::new();
        events.push(Event::Transfer(Transfer { from: None, to: Some(caller), value: total_supply }));
        let l = Erc20 { total_supply, balances: bal, allowances: Vec::new(), events };
        proof {
            assert(l.balances@.drop_first() =~= Seq::<(AccountId, Balance)>::empty());
            assert(balances::sum_values(Seq::<(AccountId, Balance)>::empty()) == 0);
            assert(balances::sum_values(l.balances@) == total_supply);
            assert forall|a: AccountId| l.spec_balance_of(a) == (if a == caller {
                total_supply
            } else {
                0
            }) by {
                if a != caller {
                    balances::lemma_lookup_absent(l.balances@, a);
                }
            }
            assert forall|o: AccountId, s: AccountId| l.spec_allowance(o, s) == 0 by {
                allowances::lemma_lookup_absent(l.allowances@, o, s);
            }
            assert(l.spec_events() =~= seq![
                Event::Transfer(Transfer { from: None, to: Some(caller), value: total_supply }),
            ]);
        }
        l
    }

    /// The fixed total supply.
    pub fn total_supply(&self) -> (r: Balance)
        ensures
            r == self.spec_total_supply(),
    {
        self.total_supply
    }

    /// The balance of `who`; zero for an account with no history.
    pub fn balance_of(&self, who: AccountId) -> (r: Balance)
        ensures
            r == self.spec_balance_of(who),
    {
        balances::balance_get(&self.balances, who)
    }

    /// The allowance granted by `owner` to `spender`.
    pub fn allowance(&self, owner: AccountId, spender: AccountId) -> (r: Balance)
        ensures
            r == self.spec_allowance(owner, spender),
    {
        allowances::allowance_get(&self.allowances, owner, spender)
    }

    /// The events emitted so far, oldest first.
    pub fn events(&self) -> (r: &Vec<Event>)
        ensures
            r@ == self.spec_events(),
    {
        &self.events
    }

    /// Moves `value` from `from` to `to` when `from`'s balance covers
    /// it; the shared core of `transfer` and `transfer_from`.
    fn transfer_from_to(&mut self, from: AccountId, to: AccountId, value: Balance) -> (r: Result<
        (),
        Error,
    >)
        requires
            old(self).wf(),
        ensures
            transfer_spec(*old(self), *final(self), from, to, value, r),
    {
        let balance_from = balances::balance_get(&self.balances, from);
        if value > balance_from {
            return Err(Error::BalanceTooLow);
        }
        proof {
            if from != to {
                balances::lemma_lookup_pair_le_sum(self.balances@, from, to);
            } else {
                balances::lemma_lookup_le_sum(self.balances@, from);
            }
        }
        balances::balance_set(&mut self.balances, from, balance_from - value);
        let balance_to = balances::balance_get(&self.balances, to);
        proof {
            balances::lemma_lookup_le_sum(self.balances@, to);
        }
        balances::balance_set(&mut self.balances, to, balance_to + value);
        self.events.push(Event::Transfer(Transfer { from: Some(from), to: Some(to), value }));
        Ok(())
    }

    /// Transfers `value` from the caller to `to`; fails with
    /// `BalanceTooLow` (and changes nothing) when the caller's balance
    /// does not cover `value`. A self-transfer succeeds, leaves every
    /// balance unchanged, and still logs its event.
    pub fn transfer(&mut self, caller: AccountId, to: AccountId, value: Balance) -> (r: Result<
        (),
        Error,
    >)
        requires
            old(self).wf(),
        ensures
            transfer_spec(*old(self), *final(self), caller, to, value, r),
    {
        self.transfer_from_to(caller, to, value)
    }

    /// Transfers `value` from `from` to `to` on behalf of the caller,
    /// consuming that much of the caller's allowance. Both checks are
    /// made against the state before the call; the first failure
    /// aborts with its error and nothing changes.
    pub fn transfer_from(
        &mut self,
        caller: AccountId,
        from: AccountId,
        to: AccountId,
        value: Balance,
    ) -> (r: Result<(), Error>)
        requires
            old(self).wf(),
        ensures
            transfer_from_spec(*old(self), *final(self), caller, from, to, value, r),
    {
        let allowance = allowances::allowance_get(&self.allowances, from, caller);
        if value > allowance {
            return Err(Error::AllowanceTooLow);
        }
        let balance_from = balances::balance_get(&self.balances, from);
        if value > balance_from {
            return Err(Error::BalanceTooLow);
        }
        allowances::allowance_set(&mut self.allowances, from, caller, allowance - value);
        self.transfer_from_to(from, to, value)
    }

    /// Sets the caller's allowance for `spender` to exactly `value`
    /// (an absolute overwrite, never additive) and logs an approval
    /// event. Cannot fail.
    pub fn approve(&mut self, caller: AccountId, spender: AccountId, value: Balance) -> (r: Result<
        (),
        Error,
    >)
        requires
            old(self).wf(),
        ensures
            approve_spec(*old(self), *final(self), caller, spender, value, r),
    {
        allowances::allowance_set(&mut self.allowances, caller, spender, value);
        self.events.push(Event::Approval(Approval { owner: caller, spender, value }));
        Ok(())
    }
}

impl Erc20 {
    /// Rebuilds a ledger from stored entries, as a host's persistent
    /// storage hands them back. Succeeds exactly when the entries are
    /// a well-formed ledger state: unique keys in both stores and
    /// balances that sum to `total_supply`. The event log starts
    /// empty: events belong to the host's transport, not to storage.
    pub fn from_parts(
        total_supply: Balance,
        bal_entries: Vec<(AccountId, Balance)>,
        allow_entries: Vec<(AccountId, AccountId, Balance)>,
    ) -> (r: Option<Erc20>)
        ensures
            match r {
                Some(l) => {
                    &&& l.wf()
                    &&& l.spec_total_supply() == total_supply
                    &&& (forall|a: AccountId|
                        l.spec_balance_of(a) == balances::lookup(bal_entries@, a))
                    &&& (forall|o: AccountId, s: AccountId|
                        l.spec_allowance(o, s) == allowances::lookup(allow_entries@, o, s))
                    &&& l.spec_events() == Seq::<Event>::empty()
                },
                None => !{
                    &&& balances::keys_unique(bal_entries@)
                    &&& allowances::keys_unique(allow_entries@)
                    &&& balances::sum_values(bal_entries@) == total_supply
                },
            },
    {
        if !balances::check_keys_unique(&bal_entries) {
            return None;
        }
        if !allowances::check_keys_unique(&allow_entries) {
            return None;
        }
        let mut acc: u128 = 0;
        let mut i: usize = 0;
        while i < bal_entries.len()
            invariant
                0 <= i <= bal_entries@.len(),
                acc == balances::sum_values(bal_entries@.take(i as int)),
            decreases bal_entries@.len() - i,
        {
            let v = bal_entries[i].1;
            proof {
                balances::lemma_sum_take_step(bal_entries@, i as int);
            }
            if v > u128::MAX - acc {
                // The stored balances sum past the largest possible
                // supply, so they cannot sum to `total_supply`.
                proof {
                    balances::lemma_sum_take_le(bal_entries@, i as int + 1);
                }
                return None;
            }
            acc = acc + v;
            i = i + 1;
        }
        proof {
            assert(bal_entries@.take(bal_entries@.len() as int) =~= bal_entries@);
        }
        if acc != total_supply {
            return None;
        }
        let l = Erc20 {
            total_supply,
            balances: bal_entries,
            allowances: allow_entries,
            events: Vec::new(),
        };
        proof {
            assert(l.spec_events() =~= Seq::<Event>::empty());
        }
        Some(l)
    }

    /// The stored balance entries, for a host to persist. In a
    /// well-formed ledger their keys are unique, they sum to the total
    /// supply, and they record every account's balance.
    pub fn balance_entries(&self) -> (r: &Vec<(AccountId, Balance)>)
        ensures
            self.wf() ==> balances::keys_unique(r@),
            self.wf() ==> balances::sum_values(r@) == self.spec_total_supply(),
            forall|a: AccountId| balances::lookup(r@, a) == self.spec_balance_of(a),
    {
        &self.balances
    }

    /// The stored allowance entries, for a host to persist. In a
    /// well-formed ledger their pairs are unique and they record every
    /// allowance.
    pub fn allowance_entries(&self) -> (r: &Vec<(AccountId, AccountId, Balance)>)
        ensures
            self.wf() ==> allowances::keys_unique(r@),
            forall|o: AccountId, s: AccountId|
                allowances::lookup(r@, o, s) == self.spec_allowance(o, s),
    {
        &self.allowances
    }
}

/// The balances of a list of accounts, summed as mathematical
/// integers.
pub open spec fn sum_of_balances(l: Erc20, accounts: Seq<AccountId>) -> int
    decreases accounts.len(),
{
    if accounts.len() == 0 {
        0
    } else {
        l.spec_balance_of(accounts[0]) + sum_of_balances(l, accounts.drop_first())
    }
}

/// Supply conservation: in a well-formed ledger the holders form a
/// duplicate-free list, every account outside it has balance zero, and
/// the holders' balances sum exactly to the total supply — so the
/// balances of all accounts together always equal the total supply.
/// Construction establishes well-formedness and every operation's
/// contract preserves it, so this holds after every call.
pub proof fn lemma_supply_conservation(l: Erc20)
    requires
        l.wf(),
    ensures
        l.holders().no_duplicates(),
        forall|a: AccountId| !l.holders().contains(a) ==> l.spec_balance_of(a) == 0,
        sum_of_balances(l, l.holders()) == l.spec_total_supply(),
{
    assert(l.holders().no_duplicates()) by {
        assert(forall|i: int|
            0 <= i < l.balances@.len() ==> l.holders()[i] == l.balances@[i].0);
    }
    assert forall|a: AccountId| !l.holders().contains(a) implies l.spec_balance_of(a) == 0 by {
        assert(forall|j: int|
            0 <= j < l.balances@.len() ==> l.holders()[j] == l.balances@[j].0);
        assert forall|j: int| 0 <= j < l.balances@.len() implies l.balances@[j].0 != a by {
            if l.balances@[j].0 == a {
                assert(l.holders()[j] == a);
                assert(l.holders().contains(a));
            }
        }
        balances::lemma_lookup_absent(l.balances@, a);
    }
    lemma_sum_of_balances_is_sum_lookups(l, l.holders());
    balances::lemma_sum_lookups_keys(l.balances@);
}

/// Bridges the ledger-level balance sum to the store-level one.
proof fn lemma_sum_of_balances_is_sum_lookups(l: Erc20, accounts: Seq<AccountId>)
    ensures
        sum_of_balances(l, accounts) == balances::sum_lookups(l.balances@, accounts),
    decreases accounts.len(),
{
    if accounts.len() > 0 {
        lemma_sum_of_balances_is_sum_lookups(l, accounts.drop_first());
    }
}

/// Balance range: in a well-formed ledger every balance lies between
/// zero and the total supply; in particular no balance is negative.
pub proof fn lemma_balance_of_in_range(l: Erc20, a: AccountId)
    requires
        l.wf(),
    ensures
        0 <= l.spec_balance_of(a) <= l.spec_total_supply(),
{
    balances::lemma_lookup_le_sum(l.balances@, a);
}

} // verus!
