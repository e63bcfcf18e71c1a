//! Transaction admission and prologue validation for a ledger execution
//! engine: the ordered pipeline of checks a signed transaction must pass
//! before its payload may run, the policy governing which accounts may
//! publish code, and the status taxonomy that decides whether a rejected
//! transaction is discarded without a trace or kept on the ledger.
//!
//! The two call sites — the lightweight admission pass a relay uses to turn
//! bad transactions away cheaply, and the prologue re-run inside execution —
//! share one validator, and by design diverge in exactly two places: the
//! admission pass does not detect a sequence number ahead of the account's,
//! deferring that case to execution, and only execution opens the payload
//! for the deserialization, address-match and argument-type checks. That
//! this is the whole extent of the divergence is proved in [`laws`].

pub mod account;
pub mod bytecode;
pub mod chain;
pub mod codec;
pub mod crypto;
pub mod gas;
pub mod laws;
pub mod policy;
pub mod status;
pub mod transaction_scripts;
pub mod txn;
pub mod validator;
