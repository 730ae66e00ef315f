//! Allowance store: an association list from (owner, spender) pairs to
//! the amount the spender may still move on the owner's behalf.
//!
//! An absent pair reads as zero. The ledger keeps the pairs unique.

use vstd::prelude::*;

use crate::AccountId;
use crate::Balance;

verus! {

/// No (owner, spender) pair appears twice among the entries.
pub open spec fn keys_unique(s: Seq<(AccountId, AccountId, Balance)>) -> bool {
    forall|i: int, j: int|
        0 <= i < s.len() && 0 <= j < s.len() && i != j ==> !(s[i].0 == s[j].0 && s[i].1
            == s[j].1)
}

/// The allowance recorded for (`o`, `p`): the first entry with that
/// pair, or zero when no entry has it.
pub open spec fn lookup(s: Seq<(AccountId, AccountId, Balance)>, o: AccountId, p: AccountId) -> Balance
    decreases s.len(),
{
    if s.len() == 0 {
        0
    } else if s[0].0 == o && s[0].1 == p {
        s[0].2
    } else {
        lookup(s.drop_first(), o, p)
    }
}

/// A prefix free of the pair does not affect its lookup.
pub proof fn lemma_lookup_skip(
    s: Seq<(AccountId, AccountId, Balance)>,
    i: int,
    o: AccountId,
    p: AccountId,
)
    requires
        0 <= i <= s.len(),
        forall|j: int| 0 <= j < i ==> !(s[j].0 == o && s[j].1 == p),
    ensures
        lookup(s, o, p) == lookup(s.skip(i), o, p),
    decreases i,
{
    if i > 0 {
        lemma_lookup_skip(s.drop_first(), i - 1, o, p);
        assert(s.drop_first().skip(i - 1) =~= s.skip(i));
    } else {
        assert(s.skip(0) =~= s);
    }
}

/// A pair with no entry reads as zero.
pub proof fn lemma_lookup_absent(
    s: Seq<(AccountId, AccountId, Balance)>,
    o: AccountId,
    p: AccountId,
)
    requires
        forall|j: int| 0 <= j < s.len() ==> !(s[j].0 == o && s[j].1 == p),
    ensures
        lookup(s, o, p) == 0,
{
    lemma_lookup_skip(s, s.len() as int, o, p);
    assert(s.skip(s.len() as int) =~= Seq::<(AccountId, AccountId, Balance)>::empty());
}

/// The lookup of an entry's pair, when no earlier entry shares it, is
/// that entry's value.
pub proof fn lemma_lookup_at(s: Seq<(AccountId, AccountId, Balance)>, i: int)
    requires
        0 <= i < s.len(),
        forall|j: int| 0 <= j < i ==> !(s[j].0 == s[i].0 && s[j].1 == s[i].1),
    ensures
        lookup(s, s[i].0, s[i].1) == s[i].2,
{
    lemma_lookup_skip(s, i, s[i].0, s[i].1);
    assert(s.skip(i)[0] == s[i]);
}

/// Overwriting the entry at `i` changes only the lookup of its pair.
pub proof fn lemma_lookup_update(
    s: Seq<(AccountId, AccountId, Balance)>,
    i: int,
    e: (AccountId, AccountId, Balance),
    x: AccountId,
    y: AccountId,
)
    requires
        0 <= i < s.len(),
        keys_unique(s),
        s[i].0 == e.0 && s[i].1 == e.1,
    ensures
        lookup(s.update(i, e), x, y) == if x == e.0 && y == e.1 {
            e.2
        } else {
            lookup(s, x, y)
        },
    decreases i,
{
    if i == 0 {
        assert(s.update(0, e).drop_first() =~= s.drop_first());
    } else {
        assert(s.update(i, e).drop_first() =~= s.drop_first().update(i - 1, e));
        lemma_lookup_update(s.drop_first(), i - 1, e, x, y);
    }
}

/// Appending an entry for a fresh pair changes only that pair's lookup.
pub proof fn lemma_lookup_push(
    s: Seq<(AccountId, AccountId, Balance)>,
    e: (AccountId, AccountId, Balance),
    x: AccountId,
    y: AccountId,
)
    requires
        forall|j: int| 0 <= j < s.len() ==> !(s[j].0 == e.0 && s[j].1 == e.1),
    ensures
        lookup(s.push(e), x, y) == if x == e.0 && y == e.1 {
            e.2
        } else {
            lookup(s, x, y)
        },
    decreases s.len(),
{
    reveal_with_fuel(lookup, 2);
    if s.len() == 0 {
        assert(s.push(e)[0] == e);
        assert(s.push(e).drop_first() =~= Seq::<(AccountId, AccountId, Balance)>::empty());
    } else {
        assert(s.push(e)[0] == s[0]);
        assert(s.push(e).drop_first() =~= s.drop_first().push(e));
        lemma_lookup_push(s.drop_first(), e, x, y);
    }
}

/// Whether no (owner, spender) pair appears twice among the entries.
pub fn check_keys_unique(v: &Vec<(AccountId, AccountId, Balance)>) -> (r: bool)
    ensures
        r == keys_unique(v@),
{
    let mut i: usize = 0;
    while i < v.len()
        invariant
            0 <= i <= v@.len(),
            forall|p: int, q: int|
                0 <= p < q < i ==> !(v@[p].0 == v@[q].0 && v@[p].1 == v@[q].1),
        decreases v@.len() - i,
    {
        let mut j: usize = 0;
        while j < i
            invariant
                0 <= j <= i < v@.len(),
                forall|p: int|
                    0 <= p < j ==> !(v@[p].0 == v@[i as int].0 && v@[p].1 == v@[i as int].1),
            decreases i - j,
        {
            if v[j].0 == v[i].0 && v[j].1 == v[i].1 {
                return false;
            }
            j = j + 1;
        }
        i = i + 1;
    }
    proof {
        assert forall|p: int, q: int|
            0 <= p < v@.len() && 0 <= q < v@.len() && p != q implies !(v@[p].0 == v@[q].0
            && v@[p].1 == v@[q].1) by {
            if p < q {
                assert(!(v@[p].0 == v@[q].0 && v@[p].1 == v@[q].1));
            } else {
                assert(!(v@[q].0 == v@[p].0 && v@[q].1 == v@[p].1));
            }
        }
    }
    true
}

/// Position of the entry for the pair (`o`, `p`), if one exists.
fn find(v: &Vec<(AccountId, AccountId, Balance)>, o: AccountId, p: AccountId) -> (r: Option<
    usize,
>)
    ensures
        match r {
            Some(i) => i < v@.len() && v@[i as int].0 == o && v@[i as int].1 == p && (forall|
                j: int,
            | 0 <= j < i ==> !(v@[j].0 == o && v@[j].1 == p)),
            None => forall|j: int| 0 <= j < v@.len() ==> !(v@[j].0 == o && v@[j].1 == p),
        },
{
    let mut i: usize = 0;
    while i < v.len()
        invariant
            0 <= i <= v@.len(),
            forall|j: int| 0 <= j < i ==> !(v@[j].0 == o && v@[j].1 == p),
        decreases v@.len() - i,
    {
        if v[i].0 == o && v[i].1 == p {
            return Some(i);
        }
        i = i + 1;
    }
    None
}

/// The allowance recorded for (`o`, `p`), zero when absent.
pub fn allowance_get(v: &Vec<(AccountId, AccountId, Balance)>, o: AccountId, p: AccountId) -> (r:
    Balance)
    ensures
        r == lookup(v@, o, p),
{
    match find(v, o, p) {
        Some(i) => {
            proof {
                lemma_lookup_at(v@, i as int);
            }
            v[i].2
        },
        None => {
            proof {
                lemma_lookup_absent(v@, o, p);
            }
            0
        },
    }
}

/// Records allowance `val` for (`o`, `p`), replacing any earlier entry.
pub fn allowance_set(
    v: &mut Vec<(AccountId, AccountId, Balance)>,
    o: AccountId,
    p: AccountId,
    val: Balance,
)
    requires
        keys_unique(old(v)@),
    ensures
        keys_unique(final(v)@),
        forall|x: AccountId, y: AccountId| lookup(final(v)@, x, y) == if x == o && y == p {
            val
        } else {
            lookup(old(v)@, x, y)
        },
{
    match find(v, o, p) {
        Some(i) => {
            proof {
                assert forall|x: AccountId, y: AccountId|
                    lookup(v@.update(i as int, (o, p, val)), x, y) == (if x == o && y == p {
                        val
                    } else {
                        lookup(v@, x, y)
                    }) by {
                    lemma_lookup_update(v@, i as int, (o, p, val), x, y);
                }
                assert(forall|j: int|
                    0 <= j < v@.len() ==> v@.update(i as int, (o, p, val))[j].0 == v@[j].0
                        && v@.update(i as int, (o, p, val))[j].1 == v@[j].1);
            }
            v.set(i, (o, p, val));
        },
        None => {
            proof {
                lemma_lookup_absent(v@, o, p);
                assert forall|x: AccountId, y: AccountId|
                    lookup(v@.push((o, p, val)), x, y) == (if x == o && y == p {
                        val
                    } else {
                        lookup(v@, x, y)
                    }) by {
                    lemma_lookup_push(v@, (o, p, val), x, y);
                }
            }
            v.push((o, p, val));
        },
    }
}

} // verus!
