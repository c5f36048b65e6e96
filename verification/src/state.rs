//! Faucet configuration state: asset descriptors, the singleton `State`,
//! and the per-address claim record.

use vstd::prelude::*;

verus! {

/// Default payout for a native token entry, in the smallest unit.
pub const DEFAULT_NATIVE_AMOUNT: u128 = 100_000;

/// Default payout for an issued (cw20) token entry.
pub const DEFAULT_CW20_AMOUNT: u128 = 100_000_000;

/// Default cooldown between two successful claims by one address (24 hours).
pub const DEFAULT_RATE_LIMIT: u64 = 60 * 60 * 24;

/// The native token's denomination.
pub const NATIVE_DENOM: &'static str = "untrn";

/// An asset the faucet can pay out: either a native coin identified by its
/// denomination, or a token issued by a separate contract, identified by the
/// issuing contract's address.
#[derive(Debug)]
pub enum Denom {
    Native(String),
    Cw20(String),
}

/// Mathematical image of a [`Denom`]: the identifying string as a `Seq<char>`.
pub enum DenomView {
    Native(Seq<char>),
    Cw20(Seq<char>),
}

impl View for Denom {
    type V = DenomView;

    open spec fn view(&self) -> DenomView {
        match self {
            Denom::Native(s) => DenomView::Native(s@),
            Denom::Cw20(s) => DenomView::Cw20(s@),
        }
    }
}

impl Clone for Denom {
    fn clone(&self) -> (res: Self)
        ensures
            res == *self,
    {
        match self {
            Denom::Native(s) => Denom::Native(s.clone()),
            Denom::Cw20(s) => Denom::Cw20(s.clone()),
        }
    }
}

impl PartialEq for Denom {
    fn eq(&self, other: &Denom) -> (r: bool) {
        match (self, other) {
            (Denom::Native(a), Denom::Native(b)) => *a == *b,
            (Denom::Cw20(a), Denom::Cw20(b)) => *a == *b,
            _ => false,
        }
    }
}

impl vstd::std_specs::cmp::PartialEqSpecImpl for Denom {
    open spec fn obeys_eq_spec() -> bool {
        true
    }

    open spec fn eq_spec(&self, other: &Denom) -> bool {
        self@ == other@
    }
}

/// One distributable asset with its fixed payout per successful claim.
#[derive(Debug)]
pub struct TokenConfig {
    pub denom: Denom,
    pub amount: u128,
}

/// Mathematical image of a [`TokenConfig`].
pub struct TokenConfigView {
    pub denom: DenomView,
    pub amount: u128,
}

impl View for TokenConfig {
    type V = TokenConfigView;

    open spec fn view(&self) -> TokenConfigView {
        TokenConfigView { denom: self.denom@, amount: self.amount }
    }
}

impl Clone for TokenConfig {
    fn clone(&self) -> (res: Self)
        ensures
            res == *self,
    {
        TokenConfig { denom: self.denom.clone(), amount: self.amount }
    }
}

impl PartialEq for TokenConfig {
    fn eq(&self, other: &TokenConfig) -> (r: bool) {
        self.denom == other.denom && self.amount == other.amount
    }
}

impl vstd::std_specs::cmp::PartialEqSpecImpl for TokenConfig {
    open spec fn obeys_eq_spec() -> bool {
        true
    }

    open spec fn eq_spec(&self, other: &TokenConfig) -> bool {
        self@ == other@
    }
}

/// Per-address claim record: the block time, in seconds, of the address's
/// most recent successful claim. Created on the first successful claim and
/// overwritten on every later one; never deleted.
#[derive(Clone, Copy, Debug, PartialEq, Eq, Structural)]
pub struct UserInfo {
    pub last_claim_time: u64,
}

/// The faucet's singleton configuration.
#[derive(Debug)]
pub struct State {
    /// The only identity allowed to change the configuration.
    pub admin: String,
    /// Distributable assets, addressed by position; entries can be
    /// overwritten in place but not added or removed.
    pub tokens: Vec<TokenConfig>,
    /// Minimum seconds between two successful claims by one address;
    /// zero disables rate limiting.
    pub rate_limit_seconds: u64,
}

/// Mathematical image of [`State`].
pub struct StateView {
    pub admin: Seq<char>,
    pub tokens: Seq<TokenConfigView>,
    pub rate_limit_seconds: u64,
}

impl View for State {
    type V = StateView;

    open spec fn view(&self) -> StateView {
        StateView {
            admin: self.admin@,
            tokens: self.tokens@.map_values(|t: TokenConfig| t@),
            rate_limit_seconds: self.rate_limit_seconds,
        }
    }
}

impl Clone for State {
    fn clone(&self) -> (res: Self)
        ensures
            res.admin == self.admin,
            res.tokens@ == self.tokens@,
            res.rate_limit_seconds == self.rate_limit_seconds,
            res@ == self@,
    {
        let mut tokens: Vec<TokenConfig> = Vec::new();
        let mut i: usize = 0;
        while i < self.tokens.len()
            invariant
                0 <= i <= self.tokens.len(),
                tokens@ =~= self.tokens@.subrange(0, i as int),
            decreases self.tokens.len() - i,
        {
            tokens.push(self.tokens[i].clone());
            i += 1;
        }
        proof {
            assert(tokens@ =~= self.tokens@);
        }
        State {
            admin: self.admin.clone(),
            tokens,
            rate_limit_seconds: self.rate_limit_seconds,
        }
    }
}

} // verus!
