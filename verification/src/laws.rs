//! Laws that relate the ledger's operations to one another.
//!
//! Each operation's own contract pins down a single step; the lemmas here
//! state what holds across steps and of every well-formed state.

use vstd::prelude::*;

use crate::account::AccountId;
use crate::account::Balance;
use crate::balances::balance_total;
use crate::balances::lemma_balance_lookup_le_total;
use crate::ledger::Erc20;
use crate::ledger::approve_ok;
use crate::ledger::transfer_from_ok;

verus! {

/// Conservation: every well-formed ledger's balances sum exactly to the fixed
/// supply. `new` establishes well-formedness and every operation's contract
/// preserves it, so this holds at every observation point of every sequence
/// of operations.
pub proof fn lemma_conservation(l: Erc20)
    requires
        l.wf(),
    ensures
        balance_total(l.balances_seq()) == l.spec_total_supply(),
{
}

/// No single balance can exceed the fixed supply (and none is negative), so
/// in particular no credit of a conserved amount can overflow the 128-bit
/// amount type.
pub proof fn lemma_balance_bounded(l: Erc20, a: AccountId)
    requires
        l.wf(),
    ensures
        0 <= l.spec_balance_of(a),
        l.spec_balance_of(a) <= l.spec_total_supply(),
{
    lemma_balance_lookup_le_total(l.balances_seq(), a);
}

/// Approvals overwrite, they never add: after two approvals of the same pair,
/// whatever the first granted, the pair's allowance is exactly the second
/// amount.
pub proof fn lemma_approve_overwrites(
    l0: Erc20,
    l1: Erc20,
    l2: Erc20,
    owner: AccountId,
    spender: AccountId,
    first: Balance,
    second: Balance,
)
    requires
        approve_ok(l0, l1, owner, spender, first),
        approve_ok(l1, l2, owner, spender, second),
    ensures
        l2.spec_allowance(owner, spender) == second,
{
}

/// A delegated transfer consumes the grant: approving `amount` and then
/// spending `amount` in full by a delegated transfer leaves the pair's
/// allowance at exactly zero.
pub proof fn lemma_allowance_consumed(
    l0: Erc20,
    l1: Erc20,
    l2: Erc20,
    owner: AccountId,
    spender: AccountId,
    to: AccountId,
    amount: Balance,
)
    requires
        approve_ok(l0, l1, owner, spender, amount),
        transfer_from_ok(l1, l2, spender, owner, to, amount),
    ensures
        l2.spec_allowance(owner, spender) == 0,
{
}

} // verus!
