//! The ledger: a fixed-supply fungible-token state machine.
//!
//! The ledger owns the balance and allowance tables, the immutable metadata,
//! and a log of the events each completed operation reports. The host passes
//! the authenticated caller identity into every operation as a plain argument
//! and drains the event log after each call; the ledger never authenticates
//! identities itself. Every mutating operation either completes in full —
//! state committed, then its event appended — or leaves the ledger exactly as
//! it was.

use vstd::prelude::*;

use crate::account::AccountId;
use crate::account::Balance;
use crate::allowances::AllowanceTable;
use crate::allowances::allowance_keys_unique;
use crate::allowances::allowance_lookup;
use crate::balances::BalanceTable;
use crate::balances::balance_keys_unique;
use crate::balances::balance_lookup;
use crate::balances::balance_total;
use crate::balances::lemma_balance_lookup_le_total;

verus! {

/// A completed movement of `value` from `from` to `to`. Construction reports
/// one with `from` equal to the zero identity.
#[derive(Clone, Copy, PartialEq, Eq, Structural, Debug)]
pub struct Transfer {
    pub from: AccountId,
    pub to: AccountId,
    pub value: Balance,
}

/// A completed overwrite of the allowance `owner` grants `spender`.
#[derive(Clone, Copy, PartialEq, Eq, Structural, Debug)]
pub struct Approval {
    pub owner: AccountId,
    pub spender: AccountId,
    pub value: Balance,
}

/// One entry of the event log, reported to the host's event sink.
#[derive(Clone, Copy, PartialEq, Eq, Structural, Debug)]
pub enum Event {
    Transfer(Transfer),
    Approval(Approval),
}

/// The two expected business failures. Neither changes any state.
#[derive(Clone, Copy, PartialEq, Eq, Structural, Debug)]
pub enum Error {
    /// The source account holds less than the requested amount.
    InsufficientBalance,
    /// The spender's remaining grant is less than the requested amount.
    InsufficientAllowance,
}

/// The ledger.
pub struct Erc20 {
    name: String,
    symbol: String,
    decimals: u8,
    total_supply: Balance,
    balances: BalanceTable,
    allowances: AllowanceTable,
    events: Vec<Event>,
}

impl Erc20 {
    /// The token name as a character sequence.
    pub closed spec fn spec_name(self) -> Seq<char> {
        self.name@
    }

    /// The token symbol as a character sequence.
    pub closed spec fn spec_symbol(self) -> Seq<char> {
        self.symbol@
    }

    /// The decimal precision.
    pub closed spec fn spec_decimals(self) -> u8 {
        self.decimals
    }

    /// The fixed supply.
    pub closed spec fn spec_total_supply(self) -> Balance {
        self.total_supply
    }

    /// The entries of the balance table.
    pub closed spec fn balances_seq(self) -> Seq<(AccountId, Balance)> {
        self.balances@
    }

    /// The entries of the allowance table.
    pub closed spec fn allowances_seq(self) -> Seq<(AccountId, AccountId, Balance)> {
        self.allowances@
    }

    /// The events reported so far, oldest first.
    pub closed spec fn spec_events(self) -> Seq<Event> {
        self.events@
    }

    /// The balance held by `a`; an account without an entry holds zero.
    pub open spec fn spec_balance_of(self, a: AccountId) -> Balance {
        balance_lookup(self.balances_seq(), a)
    }

    /// The amount `p` may still move out of `o`'s balance; zero when absent.
    pub open spec fn spec_allowance(self, o: AccountId, p: AccountId) -> Balance {
        allowance_lookup(self.allowances_seq(), o, p)
    }

    /// Well-formedness: both tables keep their keys unique, and the balances
    /// sum exactly to the fixed supply — the conservation invariant.
    pub open spec fn wf(self) -> bool {
        &&& balance_keys_unique(self.balances_seq())
        &&& allowance_keys_unique(self.allowances_seq())
        &&& balance_total(self.balances_seq()) == self.spec_total_supply()
    }
}

/// The metadata fixed at construction is the same in both states.
pub open spec fn metadata_unchanged(pre: Erc20, post: Erc20) -> bool {
    &&& post.spec_name() == pre.spec_name()
    &&& post.spec_symbol() == pre.spec_symbol()
    &&& post.spec_decimals() == pre.spec_decimals()
    &&& post.spec_total_supply() == pre.spec_total_supply()
}

/// Every account holds the same balance in both states.
pub open spec fn balances_unchanged(pre: Erc20, post: Erc20) -> bool {
    forall|x: AccountId| post.spec_balance_of(x) == pre.spec_balance_of(x)
}

/// Every (owner, spender) pair has the same allowance in both states.
pub open spec fn allowances_unchanged(pre: Erc20, post: Erc20) -> bool {
    forall|x: AccountId, y: AccountId| post.spec_allowance(x, y) == pre.spec_allowance(x, y)
}

/// `amount` moved from `from` to `to` and no other balance moved. A
/// self-transfer nets to no change while still being a completed movement.
pub open spec fn balances_moved(
    pre: Erc20,
    post: Erc20,
    from: AccountId,
    to: AccountId,
    amount: Balance,
) -> bool {
    &&& post.spec_balance_of(from) as int == (if from == to {
        pre.spec_balance_of(from) as int
    } else {
        pre.spec_balance_of(from) - amount
    })
    &&& post.spec_balance_of(to) as int == (if from == to {
        pre.spec_balance_of(to) as int
    } else {
        pre.spec_balance_of(to) + amount
    })
    &&& forall|x: AccountId|
        x != from && x != to ==> post.spec_balance_of(x) == pre.spec_balance_of(x)
}

/// What a successful direct transfer does: the caller funds it, balances move,
/// allowances stay, and exactly one Transfer event is appended.
pub open spec fn transfer_ok(
    pre: Erc20,
    post: Erc20,
    caller: AccountId,
    to: AccountId,
    amount: Balance,
) -> bool {
    &&& pre.spec_balance_of(caller) >= amount
    &&& balances_moved(pre, post, caller, to, amount)
    &&& allowances_unchanged(pre, post)
    &&& post.spec_events() == pre.spec_events().push(
        Event::Transfer(Transfer { from: caller, to: to, value: amount }),
    )
    &&& metadata_unchanged(pre, post)
}

/// What a successful approval does: the named pair's allowance is overwritten
/// with `amount` — not added to it — every other pair and every balance stays,
/// and exactly one Approval event is appended.
pub open spec fn approve_ok(
    pre: Erc20,
    post: Erc20,
    caller: AccountId,
    spender: AccountId,
    amount: Balance,
) -> bool {
    &&& post.spec_allowance(caller, spender) == amount
    &&& forall|x: AccountId, y: AccountId|
        !(x == caller && y == spender) ==> post.spec_allowance(x, y) == pre.spec_allowance(x, y)
    &&& balances_unchanged(pre, post)
    &&& post.spec_events() == pre.spec_events().push(
        Event::Approval(Approval { owner: caller, spender: spender, value: amount }),
    )
    &&& metadata_unchanged(pre, post)
}

/// What a successful delegated transfer does: the grant and the source balance
/// both cover `amount`, the grant is reduced by exactly `amount`, balances
/// move as in a direct transfer, and exactly one Transfer event is appended.
pub open spec fn transfer_from_ok(
    pre: Erc20,
    post: Erc20,
    caller: AccountId,
    from: AccountId,
    to: AccountId,
    amount: Balance,
) -> bool {
    &&& pre.spec_allowance(from, caller) >= amount
    &&& pre.spec_balance_of(from) >= amount
    &&& post.spec_allowance(from, caller) == pre.spec_allowance(from, caller) - amount
    &&& forall|x: AccountId, y: AccountId|
        !(x == from && y == caller) ==> post.spec_allowance(x, y) == pre.spec_allowance(x, y)
    &&& balances_moved(pre, post, from, to, amount)
    &&& post.spec_events() == pre.spec_events().push(
        Event::Transfer(Transfer { from: from, to: to, value: amount }),
    )
    &&& metadata_unchanged(pre, post)
}

impl Erc20 {
    /// Create the ledger, crediting the whole supply to the constructing
    /// caller and reporting one Transfer event from the zero identity.
    /// There is no error path.
    pub fn new(
        name: String,
        symbol: String,
        decimals: u8,
        total_supply: Balance,
        caller: AccountId,
    ) -> (r: Erc20)
        ensures
            r.wf(),
            r.spec_name() == name@,
            r.spec_symbol() == symbol@,
            r.spec_decimals() == decimals,
            r.spec_total_supply() == total_supply,
            r.spec_balance_of(caller) == total_supply,
            forall|x: AccountId| x != caller ==> r.spec_balance_of(x) == 0,
            forall|o: AccountId, p: AccountId| r.spec_allowance(o, p) == 0,
            r.spec_events() == seq![
                Event::Transfer(Transfer { from: AccountId(0), to: caller, value: total_supply }),
            ],
    {
        let mut balances = BalanceTable::new();
        balances.set(caller, total_supply);
        let allowances = AllowanceTable::new();
        let mut events: Vec<Event> = Vec::new();
        let minted = Event::Transfer(
            Transfer { from: AccountId::default(), to: caller, value: total_supply },
        );
        events.push(minted);
        let r = Erc20 { name, symbol, decimals, total_supply, balances, allowances, events };
        proof {
            assert(r.spec_events() =~= seq![minted]);
            assert forall|x: AccountId| x != caller implies r.spec_balance_of(x) == 0 by {
                assert(balance_lookup(Seq::<(AccountId, Balance)>::empty(), x) == 0);
            }
            assert forall|o: AccountId, p: AccountId| r.spec_allowance(o, p) == 0 by {
                assert(allowance_lookup(
                    Seq::<(AccountId, AccountId, Balance)>::empty(),
                    o,
                    p,
                ) == 0);
            }
        }
        r
    }

    /// The token name.
    pub fn name(&self) -> (r: &String)
        ensures
            r@ == self.spec_name(),
    {
        &self.name
    }

    /// The token symbol.
    pub fn symbol(&self) -> (r: &String)
        ensures
            r@ == self.spec_symbol(),
    {
        &self.symbol
    }

    /// The decimal precision.
    pub fn decimals(&self) -> (r: u8)
        ensures
            r == self.spec_decimals(),
    {
        self.decimals
    }

    /// The fixed supply.
    pub fn total_supply(&self) -> (r: Balance)
        ensures
            r == self.spec_total_supply(),
    {
        self.total_supply
    }

    /// The balance held by `account`, zero when it has no entry.
    pub fn balance_of(&self, account: AccountId) -> (r: Balance)
        ensures
            r == self.spec_balance_of(account),
    {
        self.balances.get(account)
    }

    /// The amount `spender` may still move out of `owner`'s balance.
    pub fn allowance(&self, owner: AccountId, spender: AccountId) -> (r: Balance)
        ensures
            r == self.spec_allowance(owner, spender),
    {
        self.allowances.get(owner, spender)
    }

    /// The events reported so far, oldest first, for the host to drain.
    pub fn events(&self) -> (r: &Vec<Event>)
        ensures
            r@ == self.spec_events(),
    {
        &self.events
    }

    /// Move `amount` from the caller to `to`. Fails with
    /// `InsufficientBalance`, changing nothing, exactly when the caller's
    /// balance is short; otherwise debits the caller, credits `to` against
    /// the post-debit state, and reports a Transfer event.
    pub fn transfer(&mut self, caller: AccountId, to: AccountId, amount: Balance) -> (r: Result<
        (),
        Error,
    >)
        requires
            old(self).wf(),
        ensures
            final(self).wf(),
            r is Ok <==> old(self).spec_balance_of(caller) >= amount,
            r is Ok ==> transfer_ok(*old(self), *final(self), caller, to, amount),
            r is Err ==> *final(self) == *old(self) && r == Err::<(), Error>(
                Error::InsufficientBalance,
            ),
    {
        let from_balance = self.balances.get(caller);
        if from_balance < amount {
            return Err(Error::InsufficientBalance);
        }
        self.balances.set(caller, from_balance - amount);
        let to_balance = self.balances.get(to);
        proof {
            lemma_balance_lookup_le_total(self.balances@, to);
        }
        self.balances.set(to, to_balance + amount);
        self.events.push(Event::Transfer(Transfer { from: caller, to: to, value: amount }));
        Ok(())
    }

    /// Overwrite — never add to — the allowance the caller grants `spender`,
    /// and report an Approval event. Always succeeds; no balance is checked
    /// or changed.
    pub fn approve(&mut self, caller: AccountId, spender: AccountId, amount: Balance) -> (r:
        Result<(), Error>)
        requires
            old(self).wf(),
        ensures
            final(self).wf(),
            r is Ok,
            approve_ok(*old(self), *final(self), caller, spender, amount),
    {
        self.allowances.set(caller, spender, amount);
        self.events.push(
            Event::Approval(Approval { owner: caller, spender: spender, value: amount }),
        );
        Ok(())
    }

    /// Move `amount` from `from` to `to` on the strength of the allowance
    /// `from` grants the caller. Fails with `InsufficientAllowance` exactly
    /// when the grant is short, and otherwise with `InsufficientBalance`
    /// exactly when `from`'s balance is short; both checks precede every
    /// write, so a failure changes nothing. On success the grant shrinks by
    /// exactly `amount`, balances move, and a Transfer event is reported.
    pub fn transfer_from(
        &mut self,
        caller: AccountId,
        from: AccountId,
        to: AccountId,
        amount: Balance,
    ) -> (r: Result<(), Error>)
        requires
            old(self).wf(),
        ensures
            final(self).wf(),
            r is Ok <==> (old(self).spec_allowance(from, caller) >= amount && old(
                self,
            ).spec_balance_of(from) >= amount),
            r is Ok ==> transfer_from_ok(*old(self), *final(self), caller, from, to, amount),
            r == Err::<(), Error>(Error::InsufficientAllowance) <==> old(self).spec_allowance(
                from,
                caller,
            ) < amount,
            r == Err::<(), Error>(Error::InsufficientBalance) <==> (old(self).spec_allowance(
                from,
                caller,
            ) >= amount && old(self).spec_balance_of(from) < amount),
            r is Err ==> *final(self) == *old(self),
    {
        let caller_allowance = self.allowances.get(from, caller);
        if caller_allowance < amount {
            return Err(Error::InsufficientAllowance);
        }
        let from_balance = self.balances.get(from);
        if from_balance < amount {
            return Err(Error::InsufficientBalance);
        }
        self.allowances.set(from, caller, caller_allowance - amount);
        self.balances.set(from, from_balance - amount);
        let to_balance = self.balances.get(to);
        proof {
            lemma_balance_lookup_le_total(self.balances@, to);
        }
        self.balances.set(to, to_balance + amount);
        self.events.push(Event::Transfer(Transfer { from: from, to: to, value: amount }));
        Ok(())
    }
}

} // verus!
