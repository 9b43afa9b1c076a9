//! State-transition core of a token faucet contract: an owner pools a single
//! designated token, an auction collaborator registers addresses, and once the
//! owner opens the release phase every registered address may claim an equal
//! share of the pool.
//!
//! The library works on plain values. Loading and saving the persisted state,
//! the registration lookups and the host's message formats live around it.

pub mod error;
pub mod msg;
pub mod state;
pub mod contract;
pub mod laws;
