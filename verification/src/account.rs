//! Account identities and amounts.

use vstd::prelude::*;

verus! {

/// An amount of the asset. 128 bits leave headroom so that no single
/// debit/credit step can overflow while the supply is conserved.
pub type Balance = u128;

/// The identity of a holder or spender: an opaque comparable value.
/// The value `AccountId(0)` is the distinguished zero identity that the
/// construction event names as its source.
#[derive(Clone, Copy, PartialEq, Eq, Structural, Hash, Debug)]
pub struct AccountId(pub u128);

impl Default for AccountId {
    /// The zero identity.
    fn default() -> (r: Self)
        ensures
            r == (AccountId(0)),
    {
        AccountId(0)
    }
}

} // verus!
