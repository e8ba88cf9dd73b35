//! A rotating-savings ("tontine") accounting engine. A fixed group of
//! members contributes a fixed amount each round, and each round the
//! pooled contributions, less protocol fees, are paid to one designated
//! beneficiary. The engine enforces who may act, when an action is legal
//! given the round and member state, and how balances move; every
//! operation either applies its whole effect or reports an error with the
//! store untouched, and each carries a contract that pins both.
//!
//! The host around the engine supplies persistence, address validation
//! and the funds-transfer primitive, hands every operation the caller's
//! address and the current time, and commits the store after each call.

pub mod contract;
pub mod error;
pub mod execute;
pub mod laws;
pub mod msg;
pub mod numeric;
pub mod query;
pub mod state;
