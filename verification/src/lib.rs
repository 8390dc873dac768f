//! A verified token ledger and factory registry.
//!
//! The crate models two contracts for a hosted key-value execution
//! environment: a fungible token with fee-skimming transfers, owner-gated
//! burning, cooldown-gated minting and one-way lockable governance, and a
//! factory that registers and administers parallel token records.  All
//! state lives in plain values handed in by the embedding; every handler is
//! a pure state transition with a contract.

pub mod decimal;
pub mod error;
pub mod factory;
pub mod laws;
pub mod response;
pub mod state;
pub mod table;
pub mod token;
