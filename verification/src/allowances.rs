//! The allowance table: a point-readable map from an (owner, spender) pair to
//! the amount the spender may still move out of the owner's balance.
//!
//! As with balances, the table is an association list with unique keys and an
//! absent pair reads as zero.

use vstd::prelude::*;

use crate::account::AccountId;
use crate::account::Balance;

verus! {

/// The amount the entry sequence grants `(o, p)`, zero when the pair is absent.
pub open spec fn allowance_lookup(
    s: Seq<(AccountId, AccountId, Balance)>,
    o: AccountId,
    p: AccountId,
) -> Balance
    decreases s.len(),
{
    if s.len() == 0 {
        0
    } else if s.last().0 == o && s.last().1 == p {
        s.last().2
    } else {
        allowance_lookup(s.drop_last(), o, p)
    }
}

/// Each (owner, spender) pair appears at most once.
pub open spec fn allowance_keys_unique(s: Seq<(AccountId, AccountId, Balance)>) -> bool {
    forall|i: int, j: int|
        0 <= i < j < s.len() ==> !(s[i].0 == s[j].0 && s[i].1 == s[j].1)
}

/// A pair that appears in no entry reads as zero.
pub proof fn lemma_allowance_lookup_absent(
    s: Seq<(AccountId, AccountId, Balance)>,
    o: AccountId,
    p: AccountId,
)
    requires
        forall|i: int| 0 <= i < s.len() ==> !(s[i].0 == o && s[i].1 == p),
    ensures
        allowance_lookup(s, o, p) == 0,
    decreases s.len(),
{
    if s.len() > 0 {
        assert(s.drop_last() =~= s.subrange(0, s.len() - 1));
        lemma_allowance_lookup_absent(s.drop_last(), o, p);
    }
}

/// Overwriting the unique entry of `(o, p)` with `v` changes that pair's
/// reading to `v`, leaves every other pair's reading alone, and keeps the
/// keys unique.
pub proof fn lemma_allowance_update(
    s: Seq<(AccountId, AccountId, Balance)>,
    i: int,
    o: AccountId,
    p: AccountId,
    v: Balance,
)
    requires
        allowance_keys_unique(s),
        0 <= i < s.len(),
        s[i].0 == o,
        s[i].1 == p,
    ensures
        allowance_keys_unique(s.update(i, (o, p, v))),
        allowance_lookup(s, o, p) == s[i].2,
        allowance_lookup(s.update(i, (o, p, v)), o, p) == v,
        forall|x: AccountId, y: AccountId|
            !(x == o && y == p) ==> allowance_lookup(s.update(i, (o, p, v)), x, y)
                == allowance_lookup(s, x, y),
    decreases s.len(),
{
    let s2 = s.update(i, (o, p, v));
    assert forall|q: int, r: int| 0 <= q < r < s2.len() implies !(s2[q].0 == s2[r].0 && s2[q].1
        == s2[r].1) by {
        assert(s2[q].0 == s[q].0 && s2[q].1 == s[q].1);
        assert(s2[r].0 == s[r].0 && s2[r].1 == s[r].1);
    }
    if i == s.len() - 1 {
        assert(s2.drop_last() =~= s.drop_last());
        assert forall|x: AccountId, y: AccountId| !(x == o && y == p) implies allowance_lookup(
            s2,
            x,
            y,
        ) == allowance_lookup(s, x, y) by {
            assert(allowance_lookup(s2, x, y) == allowance_lookup(s2.drop_last(), x, y));
            assert(allowance_lookup(s, x, y) == allowance_lookup(s.drop_last(), x, y));
        }
    } else {
        assert(!(s.last().0 == o && s.last().1 == p));
        assert(s2.drop_last() =~= s.drop_last().update(i, (o, p, v)));
        assert(allowance_keys_unique(s.drop_last()));
        lemma_allowance_update(s.drop_last(), i, o, p, v);
        assert(s2.last() == s.last());
        assert forall|x: AccountId, y: AccountId| !(x == o && y == p) implies allowance_lookup(
            s2,
            x,
            y,
        ) == allowance_lookup(s, x, y) by {
            if s.last().0 == x && s.last().1 == y {
                assert(allowance_lookup(s2, x, y) == s2.last().2);
                assert(allowance_lookup(s, x, y) == s.last().2);
            } else {
                assert(allowance_lookup(s2, x, y) == allowance_lookup(s2.drop_last(), x, y));
                assert(allowance_lookup(s, x, y) == allowance_lookup(s.drop_last(), x, y));
            }
        }
    }
}

/// Appending a fresh pair reads as its value, leaves every other pair's
/// reading alone, and keeps the keys unique; the fresh pair previously read
/// as zero.
pub proof fn lemma_allowance_push(
    s: Seq<(AccountId, AccountId, Balance)>,
    o: AccountId,
    p: AccountId,
    v: Balance,
)
    requires
        allowance_keys_unique(s),
        forall|i: int| 0 <= i < s.len() ==> !(s[i].0 == o && s[i].1 == p),
    ensures
        allowance_keys_unique(s.push((o, p, v))),
        allowance_lookup(s, o, p) == 0,
        allowance_lookup(s.push((o, p, v)), o, p) == v,
        forall|x: AccountId, y: AccountId|
            !(x == o && y == p) ==> allowance_lookup(s.push((o, p, v)), x, y)
                == allowance_lookup(s, x, y),
{
    let s2 = s.push((o, p, v));
    lemma_allowance_lookup_absent(s, o, p);
    assert(s2.drop_last() =~= s);
    assert forall|q: int, r: int| 0 <= q < r < s2.len() implies !(s2[q].0 == s2[r].0 && s2[q].1
        == s2[r].1) by {
        if r < s.len() {
            assert(s2[q].0 == s[q].0 && s2[q].1 == s[q].1);
            assert(s2[r].0 == s[r].0 && s2[r].1 == s[r].1);
        } else {
            assert(s2[r].0 == o && s2[r].1 == p);
            assert(s2[q].0 == s[q].0 && s2[q].1 == s[q].1);
        }
    }
}

/// The allowance table. A missing pair holds zero.
pub struct AllowanceTable {
    entries: Vec<(AccountId, AccountId, Balance)>,
}

impl View for AllowanceTable {
    type V = Seq<(AccountId, AccountId, Balance)>;

    closed spec fn view(&self) -> Seq<(AccountId, AccountId, Balance)> {
        self.entries@
    }
}

impl AllowanceTable {
    /// Each (owner, spender) pair has at most one entry.
    pub open spec fn wf(self) -> bool {
        allowance_keys_unique(self@)
    }

    /// An empty table: every pair reads as zero.
    pub fn new() -> (t: Self)
        ensures
            t@ == Seq::<(AccountId, AccountId, Balance)>::empty(),
            t.wf(),
    {
        AllowanceTable { entries: Vec::new() }
    }

    /// The amount granted to `(o, p)`, zero when the pair has no entry.
    pub fn get(&self, o: AccountId, p: AccountId) -> (r: Balance)
        ensures
            r == allowance_lookup(self@, o, p),
    {
        let mut i: usize = self.entries.len();
        assert(self@.take(i as int) =~= self@);
        while i > 0
            invariant
                i <= self.entries.len(),
                allowance_lookup(self@, o, p) == allowance_lookup(self@.take(i as int), o, p),
            decreases i,
        {
            let e = self.entries[i - 1];
            proof {
                assert(self@.take(i as int).last() == self@[i - 1]);
                assert(self@.take(i as int).drop_last() =~= self@.take(i as int - 1));
            }
            if e.0 == o && e.1 == p {
                return e.2;
            }
            i = i - 1;
        }
        0
    }

    /// Point update: make `(o, p)` read as `v`, leaving every other pair alone.
    pub fn set(&mut self, o: AccountId, p: AccountId, v: Balance)
        requires
            old(self).wf(),
        ensures
            final(self).wf(),
            allowance_lookup(final(self)@, o, p) == v,
            forall|x: AccountId, y: AccountId|
                !(x == o && y == p) ==> allowance_lookup(final(self)@, x, y)
                    == allowance_lookup(old(self)@, x, y),
    {
        let n = self.entries.len();
        let mut i: usize = 0;
        while i < n
            invariant
                old(self).wf(),
                n == self.entries.len(),
                i <= n,
                self@ == old(self)@,
                forall|j: int| 0 <= j < i ==> !(self@[j].0 == o && self@[j].1 == p),
            decreases n - i,
        {
            let e = self.entries[i];
            if e.0 == o && e.1 == p {
                self.entries.set(i, (o, p, v));
                proof {
                    lemma_allowance_update(old(self)@, i as int, o, p, v);
                }
                return;
            }
            i = i + 1;
        }
        self.entries.push((o, p, v));
        proof {
            lemma_allowance_push(old(self)@, o, p, v);
        }
    }
}

} // verus!
