//! Verified models of the VerdAnt on-chain contracts: farmer identity,
//! production verification records, escrow, milestone financing and the
//! livestock registry.
//!
//! Each contract is a state machine over its persistent storage. An
//! entrypoint takes the invocation context ([`common::Env`]: ledger sequence,
//! the invoking contract's address and the addresses that authorized the
//! invocation) and either commits a new state, appending the events it
//! publishes, or fails with a [`common::Fault`] and leaves the state exactly
//! as it was, as a reverted transaction does.
pub mod common;
pub mod table;
pub mod identity;
pub mod verification;
pub mod escrow;
pub mod financing;
pub mod livestock;
