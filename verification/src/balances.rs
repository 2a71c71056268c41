//! The balance table: a point-readable map from account to amount.
//!
//! The table is an association list with unique keys; an absent key reads as
//! zero, so zero balances need not be stored. Beside point lookup the module
//! defines the sum of all stored amounts, which the ledger's conservation
//! invariant constrains, and proves how `set` moves that sum.

use vstd::prelude::*;

use crate::account::AccountId;
use crate::account::Balance;

verus! {

/// The amount the entry sequence associates with `a`, zero when `a` is absent.
pub open spec fn balance_lookup(s: Seq<(AccountId, Balance)>, a: AccountId) -> Balance
    decreases s.len(),
{
    if s.len() == 0 {
        0
    } else if s.last().0 == a {
        s.last().1
    } else {
        balance_lookup(s.drop_last(), a)
    }
}

/// The sum of all stored amounts.
pub open spec fn balance_total(s: Seq<(AccountId, Balance)>) -> int
    decreases s.len(),
{
    if s.len() == 0 {
        0
    } else {
        balance_total(s.drop_last()) + s.last().1
    }
}

/// Each account appears at most once.
pub open spec fn balance_keys_unique(s: Seq<(AccountId, Balance)>) -> bool {
    forall|i: int, j: int| 0 <= i < j < s.len() ==> s[i].0 != s[j].0
}

/// No single entry exceeds the sum of all entries.
pub proof fn lemma_balance_lookup_le_total(s: Seq<(AccountId, Balance)>, a: AccountId)
    ensures
        0 <= balance_lookup(s, a),
        balance_lookup(s, a) <= balance_total(s),
    decreases s.len(),
{
    if s.len() > 0 {
        lemma_balance_lookup_le_total(s.drop_last(), a);
    }
}

/// An account that appears in no entry reads as zero.
pub proof fn lemma_balance_lookup_absent(s: Seq<(AccountId, Balance)>, a: AccountId)
    requires
        forall|i: int| 0 <= i < s.len() ==> s[i].0 != a,
    ensures
        balance_lookup(s, a) == 0,
    decreases s.len(),
{
    if s.len() > 0 {
        assert(s.drop_last() =~= s.subrange(0, s.len() - 1));
        lemma_balance_lookup_absent(s.drop_last(), a);
    }
}

/// Overwriting the unique entry of `a` with `v` changes the reading of `a`
/// to `v`, leaves every other account's reading alone, keeps the keys unique,
/// and moves the total by the difference.
pub proof fn lemma_balance_update(s: Seq<(AccountId, Balance)>, i: int, a: AccountId, v: Balance)
    requires
        balance_keys_unique(s),
        0 <= i < s.len(),
        s[i].0 == a,
    ensures
        balance_keys_unique(s.update(i, (a, v))),
        balance_lookup(s, a) == s[i].1,
        balance_lookup(s.update(i, (a, v)), a) == v,
        forall|x: AccountId|
            x != a ==> balance_lookup(s.update(i, (a, v)), x) == balance_lookup(s, x),
        balance_total(s.update(i, (a, v))) == balance_total(s) - s[i].1 + v,
    decreases s.len(),
{
    let s2 = s.update(i, (a, v));
    assert forall|p: int, q: int| 0 <= p < q < s2.len() implies s2[p].0 != s2[q].0 by {
        assert(s2[p].0 == s[p].0 && s2[q].0 == s[q].0);
    }
    if i == s.len() - 1 {
        assert(s2.drop_last() =~= s.drop_last());
        assert forall|x: AccountId| x != a implies balance_lookup(s2, x) == balance_lookup(
            s,
            x,
        ) by {
            assert(balance_lookup(s2, x) == balance_lookup(s2.drop_last(), x));
            assert(balance_lookup(s, x) == balance_lookup(s.drop_last(), x));
        }
    } else {
        assert(s.last().0 != a);
        assert(s2.drop_last() =~= s.drop_last().update(i, (a, v)));
        assert(balance_keys_unique(s.drop_last()));
        lemma_balance_update(s.drop_last(), i, a, v);
        assert(s2.last() == s.last());
        assert forall|x: AccountId| x != a implies balance_lookup(s2, x) == balance_lookup(
            s,
            x,
        ) by {
            if s.last().0 == x {
                assert(balance_lookup(s2, x) == s2.last().1);
                assert(balance_lookup(s, x) == s.last().1);
            } else {
                assert(balance_lookup(s2, x) == balance_lookup(s2.drop_last(), x));
                assert(balance_lookup(s, x) == balance_lookup(s.drop_last(), x));
            }
        }
    }
}

/// Appending a fresh account reads as its value, leaves every other account's
/// reading alone, keeps the keys unique, and adds the value to the total; the
/// fresh account previously read as zero.
pub proof fn lemma_balance_push(s: Seq<(AccountId, Balance)>, a: AccountId, v: Balance)
    requires
        balance_keys_unique(s),
        forall|i: int| 0 <= i < s.len() ==> s[i].0 != a,
    ensures
        balance_keys_unique(s.push((a, v))),
        balance_lookup(s, a) == 0,
        balance_lookup(s.push((a, v)), a) == v,
        forall|x: AccountId| x != a ==> balance_lookup(s.push((a, v)), x) == balance_lookup(s, x),
        balance_total(s.push((a, v))) == balance_total(s) + v,
{
    let s2 = s.push((a, v));
    lemma_balance_lookup_absent(s, a);
    assert(s2.drop_last() =~= s);
    assert forall|p: int, q: int| 0 <= p < q < s2.len() implies s2[p].0 != s2[q].0 by {
        if q < s.len() {
            assert(s2[p].0 == s[p].0 && s2[q].0 == s[q].0);
        } else {
            assert(s2[q].0 == a && s2[p].0 == s[p].0);
        }
    }
}

/// The balance table. A missing account holds zero.
pub struct BalanceTable {
    entries: Vec<(AccountId, Balance)>,
}

impl View for BalanceTable {
    type V = Seq<(AccountId, Balance)>;

    closed spec fn view(&self) -> Seq<(AccountId, Balance)> {
        self.entries@
    }
}

impl BalanceTable {
    /// Each account has at most one entry.
    pub open spec fn wf(self) -> bool {
        balance_keys_unique(self@)
    }

    /// An empty table: every account reads as zero.
    pub fn new() -> (t: Self)
        ensures
            t@ == Seq::<(AccountId, Balance)>::empty(),
            t.wf(),
    {
        BalanceTable { entries: Vec::new() }
    }

    /// The amount held by `a`, zero when `a` has no entry.
    pub fn get(&self, a: AccountId) -> (r: Balance)
        ensures
            r == balance_lookup(self@, a),
    {
        let mut i: usize = self.entries.len();
        assert(self@.take(i as int) =~= self@);
        while i > 0
            invariant
                i <= self.entries.len(),
                balance_lookup(self@, a) == balance_lookup(self@.take(i as int), a),
            decreases i,
        {
            let e = self.entries[i - 1];
            proof {
                assert(self@.take(i as int).last() == self@[i - 1]);
                assert(self@.take(i as int).drop_last() =~= self@.take(i as int - 1));
            }
            if e.0 == a {
                return e.1;
            }
            i = i - 1;
        }
        0
    }

    /// Point update: make `a` read as `v`, leaving every other account alone.
    /// The total moves by the difference between the new and the old reading.
    pub fn set(&mut self, a: AccountId, v: Balance)
        requires
            old(self).wf(),
        ensures
            final(self).wf(),
            balance_lookup(final(self)@, a) == v,
            forall|x: AccountId|
                x != a ==> balance_lookup(final(self)@, x) == balance_lookup(old(self)@, x),
            balance_total(final(self)@) == balance_total(old(self)@) - balance_lookup(
                old(self)@,
                a,
            ) + v,
    {
        let n = self.entries.len();
        let mut i: usize = 0;
        while i < n
            invariant
                old(self).wf(),
                n == self.entries.len(),
                i <= n,
                self@ == old(self)@,
                forall|j: int| 0 <= j < i ==> self@[j].0 != a,
            decreases n - i,
        {
            let e = self.entries[i];
            if e.0 == a {
                self.entries.set(i, (a, v));
                proof {
                    lemma_balance_update(old(self)@, i as int, a, v);
                }
                return;
            }
            i = i + 1;
        }
        self.entries.push((a, v));
        proof {
            lemma_balance_push(old(self)@, a, v);
        }
    }
}

} // verus!
