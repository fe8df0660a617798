//! Sale admission, escrowed minting and vault settlement for a collectible
//! sale, written as deterministic state transitions.
//!
//! Every entry point takes what the host would supply (caller, attached
//! value, block time) as plain arguments and returns the effects the host has
//! to carry out, so the rules themselves can be stated and proved.

pub mod account;
pub mod allowance;
pub mod marketplace;
pub mod status;
pub mod tenk;
pub mod vault;
