//! Rate-limited token faucet engine.
//!
//! The crate implements the state machine of a faucet contract: a configured
//! list of distributable assets, a per-address claim ledger with a cooldown
//! window, and admin-gated configuration updates. All state is carried in
//! explicitly passed values; the host's storage and balance queries live
//! outside this crate and hand plain values in and out.

pub mod contract;
pub mod error;
pub mod laws;
pub mod ledger;
pub mod wire;
pub mod msg;
pub mod state;
pub mod text;
