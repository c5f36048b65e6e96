//! Laws of the faucet engine: statements that relate several operations, or
//! several calls of one operation, proved once and for all inputs. Each law
//! is stated over the same contract predicates the executable functions
//! ensure, so it applies to any sequence of real calls.

use vstd::prelude::*;

use crate::contract::{
    claim_post, eligible, set_admin_post, update_token_config_post, wait_seconds, FaucetView,
};
use crate::error::FaucetError;
use crate::ledger::lookup;
use crate::msg::Response;
use crate::state::{StateView, TokenConfigView, UserInfo};

verus! {

/// A fresh address — one with no claim record — may claim at any time, with
/// zero seconds to wait.
pub proof fn lemma_fresh_address_can_claim(
    claims: Map<Seq<char>, UserInfo>,
    address: Seq<char>,
    now: u64,
    rate_limit_seconds: u64,
)
    requires
        !claims.contains_key(address),
    ensures
        eligible(claims, address, now, rate_limit_seconds),
        wait_seconds(claims, address, now, rate_limit_seconds) == 0,
{
}

/// An address whose last successful claim lies less than the rate-limit
/// window in the past may not claim, and must wait exactly the window minus
/// the elapsed time.
pub proof fn lemma_recent_claimer_must_wait(
    claims: Map<Seq<char>, UserInfo>,
    address: Seq<char>,
    now: u64,
    rate_limit_seconds: u64,
)
    requires
        claims.contains_key(address),
        now.saturating_sub(claims[address].last_claim_time) < rate_limit_seconds,
    ensures
        !eligible(claims, address, now, rate_limit_seconds),
        wait_seconds(claims, address, now, rate_limit_seconds) == rate_limit_seconds
            - now.saturating_sub(claims[address].last_claim_time),
{
}

/// Overwriting a token configuration twice with the same index and the same
/// configuration is the same as overwriting it once: the second call
/// succeeds as well and changes nothing further.
pub proof fn lemma_update_token_config_idempotent(
    pre: FaucetView,
    mid: FaucetView,
    post: FaucetView,
    sender: Seq<char>,
    token_index: u32,
    new_config: TokenConfigView,
    r1: Result<Response, FaucetError>,
    r2: Result<Response, FaucetError>,
)
    requires
        update_token_config_post(pre, mid, sender, token_index, new_config, r1),
        update_token_config_post(mid, post, sender, token_index, new_config, r2),
        pre.state matches Some(st) && sender == st.admin && (token_index as int)
            < st.tokens.len(),
    ensures
        r1 is Ok,
        r2 is Ok,
        post == mid,
{
    let st = pre.state->Some_0;
    let once = StateView { tokens: st.tokens.update(token_index as int, new_config), ..st };
    assert(once.tokens.update(token_index as int, new_config) =~= once.tokens);
    assert(post.state == mid.state);
}

/// After a claim by an eligible caller — paid out or not — an immediate
/// second claim by the same caller at the same time is rate-limited with the
/// full window as its wait, and the ledger record written by the first claim
/// stays unchanged. This needs a non-zero window: a zero window disables
/// rate limiting and lets the second claim through.
pub proof fn lemma_immediate_second_claim_rate_limited(
    pre: FaucetView,
    mid: FaucetView,
    post: FaucetView,
    caller: Seq<char>,
    now: u64,
    balances1: Seq<u128>,
    balances2: Seq<u128>,
    r1: Result<Response, FaucetError>,
    r2: Result<Response, FaucetError>,
)
    requires
        claim_post(pre, mid, caller, now, balances1, r1),
        claim_post(mid, post, caller, now, balances2, r2),
        pre.state matches Some(st) && st.rate_limit_seconds > 0,
        eligible(pre.claims, caller, now, pre.state->Some_0.rate_limit_seconds),
    ensures
        r2 == Err::<Response, FaucetError>(
            FaucetError::RateLimited {
                seconds_remaining: pre.state->Some_0.rate_limit_seconds,
            },
        ),
        post == mid,
        lookup(post.claims, caller) == Some(UserInfo { last_claim_time: now }),
{
    let st = pre.state->Some_0;
    assert(mid.claims == pre.claims.insert(caller, UserInfo { last_claim_time: now }));
    assert(lookup(mid.claims, caller) == Some(UserInfo { last_claim_time: now }));
    assert(now.saturating_sub(now) == 0);
    assert(!eligible(mid.claims, caller, now, st.rate_limit_seconds));
    assert(wait_seconds(mid.claims, caller, now, st.rate_limit_seconds)
        == st.rate_limit_seconds);
}

/// A non-admin caller can never hand the admin role over: the call fails
/// with `Unauthorized` and the admin — and everything else — is unchanged.
pub proof fn lemma_set_admin_unauthorized(
    pre: FaucetView,
    post: FaucetView,
    sender: Seq<char>,
    new_admin: Seq<char>,
    r: Result<Response, FaucetError>,
)
    requires
        set_admin_post(pre, post, sender, new_admin, r),
        pre.state matches Some(st) && sender != st.admin,
    ensures
        r == Err::<Response, FaucetError>(FaucetError::Unauthorized),
        post == pre,
{
}

/// When the current admin hands the role to `new_admin`, the call succeeds,
/// and afterwards exactly the new identity — and no other — is the admin
/// that admin-gated operations authorize against.
pub proof fn lemma_set_admin_transfers_authority(
    pre: FaucetView,
    post: FaucetView,
    sender: Seq<char>,
    new_admin: Seq<char>,
    r: Result<Response, FaucetError>,
    other: Seq<char>,
)
    requires
        set_admin_post(pre, post, sender, new_admin, r),
        pre.state matches Some(st) && sender == st.admin,
    ensures
        r is Ok,
        post.state matches Some(st2) && st2.admin == new_admin,
        (other == post.state->Some_0.admin) <==> (other == new_admin),
{
}

/// A token-configuration update by the admin fails with `InvalidIndex` at
/// the first index past the configured list and succeeds at the last index
/// inside it.
pub proof fn lemma_update_token_config_boundary(
    pre: FaucetView,
    post: FaucetView,
    sender: Seq<char>,
    token_index: u32,
    new_config: TokenConfigView,
    r: Result<Response, FaucetError>,
)
    requires
        update_token_config_post(pre, post, sender, token_index, new_config, r),
        pre.state matches Some(st) && sender == st.admin,
    ensures
        token_index as int == pre.state->Some_0.tokens.len() ==> r == Err::<
            Response,
            FaucetError,
        >(FaucetError::InvalidIndex) && post == pre,
        pre.state->Some_0.tokens.len() > 0 && token_index as int == pre.state->Some_0.tokens.len()
            - 1 ==> r is Ok,
{
}

/// The claim-status query and the claim operation agree on eligibility: the
/// query reports claimable exactly when a claim by the same caller at the
/// same time is not rate-limited.
pub proof fn lemma_claim_status_matches_claim(
    pre: FaucetView,
    post: FaucetView,
    caller: Seq<char>,
    now: u64,
    balances: Seq<u128>,
    r: Result<Response, FaucetError>,
)
    requires
        claim_post(pre, post, caller, now, balances, r),
        pre.state matches Some(st),
    ensures
        eligible(pre.claims, caller, now, pre.state->Some_0.rate_limit_seconds) <==> !(r matches Err(
            FaucetError::RateLimited { .. },
        )),
{
}

} // verus!
