//! Burns the whole balance of a signer's associated token account.
//!
//! The crate validates the accounts handed to one invocation, decodes the
//! balance record of the token account and prepares the burn instruction for
//! the token ledger. Dispatching the instruction is left to the caller.

pub mod error;
pub mod identity;
pub mod instruction;
pub mod ledger;
pub mod processor;
pub mod record;
