//! A fungible-token ledger with a fixed supply.
//!
//! The ledger tracks ownership of a single divisible asset across accounts.
//! Accounts move balances directly (`transfer`), grant third parties a bounded
//! right to move their balance (`approve`), and exercise such a grant
//! (`transfer_from`). The host environment supplies the caller's identity as a
//! plain argument and drains the event log; the ledger itself is a verified
//! state machine whose conservation and authorization invariants are proved.

pub mod account;
pub mod allowances;
pub mod balances;
pub mod laws;
pub mod ledger;

pub use account::AccountId;
pub use account::Balance;
pub use ledger::Approval;
pub use ledger::Erc20;
pub use ledger::Error;
pub use ledger::Event;
pub use ledger::Transfer;
