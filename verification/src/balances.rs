//! Balance store: an association list from accounts to balances.
//!
//! An absent key reads as zero. The ledger keeps the keys unique, so
//! the sum of the stored values is well defined; that sum is what the
//! supply-conservation invariant speaks of.

use vstd::prelude::*;

use crate::AccountId;
use crate::Balance;

verus! {

/// No account appears twice among the entries.
pub open spec fn keys_unique(s: Seq<(AccountId, Balance)>) -> bool {
    forall|i: int, j: int|
        0 <= i < s.len() && 0 <= j < s.len() && i != j ==> s[i].0 != s[j].0
}

/// The balance recorded for `a`: the first entry with key `a`, or zero
/// when no entry has that key.
pub open spec fn lookup(s: Seq<(AccountId, Balance)>, a: AccountId) -> Balance
    decreases s.len(),
{
    if s.len() == 0 {
        0
    } else if s[0].0 == a {
        s[0].1
    } else {
        lookup(s.drop_first(), a)
    }
}

/// The sum of all stored balances, as a mathematical integer.
pub open spec fn sum_values(s: Seq<(AccountId, Balance)>) -> int
    decreases s.len(),
{
    if s.len() == 0 {
        0
    } else {
        s[0].1 + sum_values(s.drop_first())
    }
}

/// The accounts that have an entry, in storage order.
pub open spec fn keys(s: Seq<(AccountId, Balance)>) -> Seq<AccountId> {
    s.map(|i: int, e: (AccountId, Balance)| e.0)
}

/// A prefix free of `a` does not affect the lookup of `a`.
pub proof fn lemma_lookup_skip(s: Seq<(AccountId, Balance)>, i: int, a: AccountId)
    requires
        0 <= i <= s.len(),
        forall|j: int| 0 <= j < i ==> s[j].0 != a,
    ensures
        lookup(s, a) == lookup(s.skip(i), a),
    decreases i,
{
    if i > 0 {
        lemma_lookup_skip(s.drop_first(), i - 1, a);
        assert(s.drop_first().skip(i - 1) =~= s.skip(i));
    } else {
        assert(s.skip(0) =~= s);
    }
}

/// An account with no entry reads as zero.
pub proof fn lemma_lookup_absent(s: Seq<(AccountId, Balance)>, a: AccountId)
    requires
        forall|j: int| 0 <= j < s.len() ==> s[j].0 != a,
    ensures
        lookup(s, a) == 0,
{
    lemma_lookup_skip(s, s.len() as int, a);
    assert(s.skip(s.len() as int) =~= Seq::<(AccountId, Balance)>::empty());
}

/// The lookup of an entry's key, when no earlier entry shares it, is
/// that entry's value.
pub proof fn lemma_lookup_at(s: Seq<(AccountId, Balance)>, i: int)
    requires
        0 <= i < s.len(),
        forall|j: int| 0 <= j < i ==> s[j].0 != s[i].0,
    ensures
        lookup(s, s[i].0) == s[i].1,
{
    lemma_lookup_skip(s, i, s[i].0);
    assert(s.skip(i)[0] == s[i]);
}

/// Overwriting the entry at `i` changes only the lookup of its key.
pub proof fn lemma_lookup_update(
    s: Seq<(AccountId, Balance)>,
    i: int,
    p: (AccountId, Balance),
    x: AccountId,
)
    requires
        0 <= i < s.len(),
        keys_unique(s),
        s[i].0 == p.0,
    ensures
        lookup(s.update(i, p), x) == if x == p.0 {
            p.1
        } else {
            lookup(s, x)
        },
    decreases i,
{
    if i == 0 {
        assert(s.update(0, p).drop_first() =~= s.drop_first());
    } else {
        assert(s.update(i, p).drop_first() =~= s.drop_first().update(i - 1, p));
        lemma_lookup_update(s.drop_first(), i - 1, p, x);
    }
}

/// Overwriting the entry at `i` shifts the sum by the change at `i`.
pub proof fn lemma_sum_update(s: Seq<(AccountId, Balance)>, i: int, p: (AccountId, Balance))
    requires
        0 <= i < s.len(),
    ensures
        sum_values(s.update(i, p)) == sum_values(s) - s[i].1 + p.1,
    decreases i,
{
    if i == 0 {
        assert(s.update(0, p).drop_first() =~= s.drop_first());
    } else {
        assert(s.update(i, p).drop_first() =~= s.drop_first().update(i - 1, p));
        lemma_sum_update(s.drop_first(), i - 1, p);
    }
}

/// Appending an entry for a fresh key changes only that key's lookup.
pub proof fn lemma_lookup_push(
    s: Seq<(AccountId, Balance)>,
    p: (AccountId, Balance),
    x: AccountId,
)
    requires
        forall|j: int| 0 <= j < s.len() ==> s[j].0 != p.0,
    ensures
        lookup(s.push(p), x) == if x == p.0 {
            p.1
        } else {
            lookup(s, x)
        },
    decreases s.len(),
{
    reveal_with_fuel(lookup, 2);
    if s.len() == 0 {
        assert(s.push(p)[0] == p);
        assert(s.push(p).drop_first() =~= Seq::<(AccountId, Balance)>::empty());
    } else {
        assert(s.push(p)[0] == s[0]);
        assert(s.push(p).drop_first() =~= s.drop_first().push(p));
        lemma_lookup_push(s.drop_first(), p, x);
    }
}

/// Appending an entry adds its value to the sum.
pub proof fn lemma_sum_push(s: Seq<(AccountId, Balance)>, p: (AccountId, Balance))
    ensures
        sum_values(s.push(p)) == sum_values(s) + p.1,
    decreases s.len(),
{
    reveal_with_fuel(sum_values, 2);
    if s.len() == 0 {
        assert(s.push(p)[0] == p);
        assert(s.push(p).drop_first() =~= Seq::<(AccountId, Balance)>::empty());
    } else {
        assert(s.push(p)[0] == s[0]);
        assert(s.push(p).drop_first() =~= s.drop_first().push(p));
        lemma_sum_push(s.drop_first(), p);
    }
}

/// Every lookup lies between zero and the sum of all values.
pub proof fn lemma_lookup_le_sum(s: Seq<(AccountId, Balance)>, a: AccountId)
    ensures
        0 <= lookup(s, a),
        lookup(s, a) <= sum_values(s),
        0 <= sum_values(s),
    decreases s.len(),
{
    if s.len() > 0 {
        lemma_lookup_le_sum(s.drop_first(), a);
    }
}

/// Two distinct accounts' balances together never exceed the sum.
pub proof fn lemma_lookup_pair_le_sum(s: Seq<(AccountId, Balance)>, a: AccountId, b: AccountId)
    requires
        a != b,
    ensures
        lookup(s, a) + lookup(s, b) <= sum_values(s),
    decreases s.len(),
{
    if s.len() > 0 {
        if s[0].0 == a {
            lemma_lookup_le_sum(s.drop_first(), b);
        } else if s[0].0 == b {
            lemma_lookup_le_sum(s.drop_first(), a);
        } else {
            lemma_lookup_pair_le_sum(s.drop_first(), a, b);
        }
    }
}

/// Summing the lookups of a list of accounts, none of which is the
/// first entry's key, ignores that first entry.
pub proof fn lemma_sum_lookups_skip_head(
    s: Seq<(AccountId, Balance)>,
    accounts: Seq<AccountId>,
)
    requires
        s.len() > 0,
        forall|k: int| 0 <= k < accounts.len() ==> accounts[k] != s[0].0,
    ensures
        sum_lookups(s, accounts) == sum_lookups(s.drop_first(), accounts),
    decreases accounts.len(),
{
    if accounts.len() > 0 {
        lemma_sum_lookups_skip_head(s, accounts.drop_first());
    }
}

/// The lookups summed over some accounts.
pub open spec fn sum_lookups(s: Seq<(AccountId, Balance)>, accounts: Seq<AccountId>) -> int
    decreases accounts.len(),
{
    if accounts.len() == 0 {
        0
    } else {
        lookup(s, accounts[0]) + sum_lookups(s, accounts.drop_first())
    }
}

/// With unique keys, summing the lookups of all keys gives the sum of
/// all stored values.
pub proof fn lemma_sum_lookups_keys(s: Seq<(AccountId, Balance)>)
    requires
        keys_unique(s),
    ensures
        sum_lookups(s, keys(s)) == sum_values(s),
    decreases s.len(),
{
    if s.len() > 0 {
        assert(keys(s)[0] == s[0].0);
        assert(lookup(s, s[0].0) == s[0].1);
        assert(keys(s).drop_first() =~= keys(s.drop_first()));
        assert(forall|k: int|
            0 <= k < keys(s.drop_first()).len() ==> keys(s.drop_first())[k] != s[0].0) by {
            assert(forall|k: int|
                0 <= k < s.drop_first().len() ==> s.drop_first()[k] == s[k + 1]);
        }
        lemma_sum_lookups_skip_head(s, keys(s.drop_first()));
        lemma_sum_lookups_keys(s.drop_first());
    }
}

/// Extending a prefix by one entry adds that entry's value to the
/// prefix sum.
pub proof fn lemma_sum_take_step(s: Seq<(AccountId, Balance)>, i: int)
    requires
        0 <= i < s.len(),
    ensures
        sum_values(s.take(i + 1)) == sum_values(s.take(i)) + s[i].1,
{
    assert(s.take(i + 1) =~= s.take(i).push(s[i]));
    lemma_sum_push(s.take(i), s[i]);
}

/// A prefix sum never exceeds the sum of all values.
pub proof fn lemma_sum_take_le(s: Seq<(AccountId, Balance)>, i: int)
    requires
        0 <= i <= s.len(),
    ensures
        sum_values(s.take(i)) <= sum_values(s),
    decreases s.len() - i,
{
    if i == s.len() {
        assert(s.take(i) =~= s);
    } else {
        lemma_sum_take_step(s, i);
        lemma_sum_take_le(s, i + 1);
    }
}

/// Whether no account appears twice among the entries.
pub fn check_keys_unique(v: &Vec<(AccountId, Balance)>) -> (r: bool)
    ensures
        r == keys_unique(v@),
{
    let mut i: usize = 0;
    while i < v.len()
        invariant
            0 <= i <= v@.len(),
            forall|p: int, q: int| 0 <= p < q < i ==> v@[p].0 != v@[q].0,
        decreases v@.len() - i,
    {
        let mut j: usize = 0;
        while j < i
            invariant
                0 <= j <= i < v@.len(),
                forall|p: int| 0 <= p < j ==> v@[p].0 != v@[i as int].0,
            decreases i - j,
        {
            if v[j].0 == v[i].0 {
                return false;
            }
            j = j + 1;
        }
        i = i + 1;
    }
    proof {
        assert forall|p: int, q: int|
            0 <= p < v@.len() && 0 <= q < v@.len() && p != q implies v@[p].0 != v@[q].0 by {
            if p < q {
                assert(v@[p].0 != v@[q].0);
            } else {
                assert(v@[q].0 != v@[p].0);
            }
        }
    }
    true
}

/// Position of the entry for `a`, if one exists.
fn find(v: &Vec<(AccountId, Balance)>, a: AccountId) -> (r: Option<usize>)
    ensures
        match r {
            Some(i) => i < v@.len() && v@[i as int].0 == a && (forall|j: int|
                0 <= j < i ==> v@[j].0 != a),
            None => forall|j: int| 0 <= j < v@.len() ==> v@[j].0 != a,
        },
{
    let mut i: usize = 0;
    while i < v.len()
        invariant
            0 <= i <= v@.len(),
            forall|j: int| 0 <= j < i ==> v@[j].0 != a,
        decreases v@.len() - i,
    {
        if v[i].0 == a {
            return Some(i);
        }
        i = i + 1;
    }
    None
}

/// The balance recorded for `a`, zero when `a` has no entry.
pub fn balance_get(v: &Vec<(AccountId, Balance)>, a: AccountId) -> (r: Balance)
    ensures
        r == lookup(v@, a),
{
    match find(v, a) {
        Some(i) => {
            proof {
                lemma_lookup_at(v@, i as int);
            }
            v[i].1
        },
        None => {
            proof {
                lemma_lookup_absent(v@, a);
            }
            0
        },
    }
}

/// Records balance `val` for `a`, replacing any earlier entry.
pub fn balance_set(v: &mut Vec<(AccountId, Balance)>, a: AccountId, val: Balance)
    requires
        keys_unique(old(v)@),
    ensures
        keys_unique(final(v)@),
        forall|x: AccountId| lookup(final(v)@, x) == if x == a {
            val
        } else {
            lookup(old(v)@, x)
        },
        sum_values(final(v)@) == sum_values(old(v)@) - lookup(old(v)@, a) + val,
{
    match find(v, a) {
        Some(i) => {
            proof {
                lemma_lookup_at(v@, i as int);
                lemma_sum_update(v@, i as int, (a, val));
                assert forall|x: AccountId|
                    lookup(v@.update(i as int, (a, val)), x) == (if x == a {
                        val
                    } else {
                        lookup(v@, x)
                    }) by {
                    lemma_lookup_update(v@, i as int, (a, val), x);
                }
                assert(forall|j: int|
                    0 <= j < v@.len() ==> v@.update(i as int, (a, val))[j].0 == v@[j].0);
            }
            v.set(i, (a, val));
        },
        None => {
            proof {
                lemma_lookup_absent(v@, a);
                lemma_sum_push(v@, (a, val));
                assert forall|x: AccountId|
                    lookup(v@.push((a, val)), x) == (if x == a {
                        val
                    } else {
                        lookup(v@, x)
                    }) by {
                    lemma_lookup_push(v@, (a, val), x);
                }
            }
            v.push((a, val));
        },
    }
}

} // verus!
