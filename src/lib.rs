//! A custody vault: who may move value out of a shared asset account, under
//! which time and amount constraints, and with how many approvals.
//!
//! The library holds the vault's state machine. The ledger transfer and the
//! clock stay with the host: operations take the current time as an argument
//! and hand back the transfers that the host must perform.
pub mod error;
pub mod identity;
pub mod invariants;
pub mod laws;
pub mod policy;
pub mod simple_vault;
pub mod state;
pub mod transitions;
