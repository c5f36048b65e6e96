//! Error kinds of the faucet operations.

use vstd::prelude::*;

use crate::text::{dec_rep, u64_to_dec};

verus! {

/// Why a faucet operation failed.
#[derive(Clone, Copy, Debug, PartialEq, Eq, Structural)]
pub enum FaucetError {
    /// The singleton state was never written: `instantiate` never ran.
    StateNotFound,
    /// The caller claimed within the rate-limit window and may claim again
    /// after `seconds_remaining` seconds.
    RateLimited { seconds_remaining: u64 },
    /// Every configured asset was underfunded at claim time.
    InsufficientFunds,
    /// An admin-gated operation was called by a non-admin.
    Unauthorized,
    /// A token-configuration update addressed a position at or past the end
    /// of the token list.
    InvalidIndex,
}

/// The text of `e`, as surfaced to the caller.
pub open spec fn error_text(e: FaucetError) -> Seq<char> {
    match e {
        FaucetError::StateNotFound => "State not found"@,
        FaucetError::RateLimited { seconds_remaining } => "Rate limit exceeded. You can claim again in "@
            + dec_rep(seconds_remaining as nat) + " seconds"@,
        FaucetError::InsufficientFunds => "Insufficient funds in faucet for all token types"@,
        FaucetError::Unauthorized => "Unauthorized"@,
        FaucetError::InvalidIndex => "Invalid token index"@,
    }
}

impl FaucetError {
    /// The error message shown to the caller.
    pub fn message(&self) -> (r: String)
        ensures
            r@ == error_text(*self),
    {
        match self {
            FaucetError::StateNotFound => String::from_str("State not found"),
            FaucetError::RateLimited { seconds_remaining } => {
                let mut s = String::from_str("Rate limit exceeded. You can claim again in ");
                let num = u64_to_dec(*seconds_remaining);
                s.append(num.as_str());
                s.append(" seconds");
                s
            },
            FaucetError::InsufficientFunds => String::from_str(
                "Insufficient funds in faucet for all token types",
            ),
            FaucetError::Unauthorized => String::from_str("Unauthorized"),
            FaucetError::InvalidIndex => String::from_str("Invalid token index"),
        }
    }
}

} // verus!
