//! An over-the-counter token-swap escrow: a maker locks an asset in a vault
//! that only the offer itself can release, takers fill the offer at a fixed
//! rate, and every transition is a total function with an exact contract.

pub mod address;
pub mod custody;
pub mod error;
pub mod state;
pub mod instructions;
pub mod guarantees;
