//! A fungible-token ledger for a single asset.
//!
//! The ledger tracks account balances and delegated spending allowances and
//! offers three mutating operations — direct transfer, approval of a spender,
//! and delegated transfer — plus read access to balances, allowances and the
//! total supply. Authentication of callers, durable storage and consumption
//! of the emitted events are the business of a surrounding host; the ledger
//! itself is a pure state machine over in-memory tables.

pub mod ledger;
pub mod u256;
