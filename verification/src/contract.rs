//! The faucet engine: instantiate, the execute commands (claim and the three
//! admin-gated configuration updates), and the read-only queries.
//!
//! The persistent store's contents are modelled by [`FaucetContract`], passed
//! in explicitly. Live balances are fetched by the host and handed in as one
//! amount per configured asset, in configuration order.

use vstd::prelude::*;

use crate::error::FaucetError;
use crate::ledger::{lookup, ClaimLedger};
use crate::msg::{
    attr, denom_label, denom_label_string, AdminResponse, Attribute, AttributeView, BalanceEntry,
    BalanceEntryView, BalanceResponse, ClaimStatusResponse, ExecuteMsg, InstantiateMsg,
    QueryAnswer, QueryMsg, RateLimitResponse, Response, TokenConfigsResponse, TransferMsg,
    TransferMsgView, UserInfoResponse,
};
use crate::state::{Denom, DenomView, State, StateView, TokenConfig, TokenConfigView, UserInfo,
    DEFAULT_RATE_LIMIT};
use crate::text::{dec_rep, join_with, join_strings, u128_to_dec, u32_to_dec, u64_to_dec,
    usize_to_dec};
use crate::wire::{cw20_transfer_encoding, encode_cw20_transfer};

verus! {

/// Everything the faucet keeps in the host's persistent store: the singleton
/// configuration (absent until `instantiate` ran) and the claim ledger.
pub struct FaucetContract {
    pub state: Option<State>,
    pub claims: ClaimLedger,
}

/// Mathematical image of a [`FaucetContract`].
pub struct FaucetView {
    pub state: Option<StateView>,
    pub claims: Map<Seq<char>, UserInfo>,
}

impl View for FaucetContract {
    type V = FaucetView;

    open spec fn view(&self) -> FaucetView {
        FaucetView {
            state: match self.state {
                Some(s) => Some(s@),
                None => None,
            },
            claims: self.claims@,
        }
    }
}

impl FaucetContract {
    /// A store that `instantiate` never wrote: no configuration, no claims.
    pub fn new() -> (r: FaucetContract)
        ensures
            r@.state == Option::<StateView>::None,
            r@.claims == Map::<Seq<char>, UserInfo>::empty(),
    {
        FaucetContract { state: None, claims: ClaimLedger::new() }
    }
}

/// Whether `address` may claim at time `now`: it never claimed, or its last
/// successful claim lies at least `rate_limit_seconds` in the past. Elapsed
/// time saturates at zero on clock anomalies.
pub open spec fn eligible(
    claims: Map<Seq<char>, UserInfo>,
    address: Seq<char>,
    now: u64,
    rate_limit_seconds: u64,
) -> bool {
    match lookup(claims, address) {
        Some(u) => now.saturating_sub(u.last_claim_time) >= rate_limit_seconds,
        None => true,
    }
}

/// How many seconds remain until `address` may claim: zero when eligible.
pub open spec fn wait_seconds(
    claims: Map<Seq<char>, UserInfo>,
    address: Seq<char>,
    now: u64,
    rate_limit_seconds: u64,
) -> u64 {
    if eligible(claims, address, now, rate_limit_seconds) {
        0
    } else {
        (rate_limit_seconds - now.saturating_sub(claims[address].last_claim_time)) as u64
    }
}

/// The configuration that `instantiate` writes for this message and caller:
/// the caller itself as admin and a one-day cooldown where the message leaves
/// them unset.
pub open spec fn instantiated_state(msg: InstantiateMsg, sender: Seq<char>) -> StateView {
    StateView {
        admin: match msg.admin {
            Some(a) => a@,
            None => sender,
        },
        tokens: msg.tokens@.map_values(|t: TokenConfig| t@),
        rate_limit_seconds: match msg.rate_limit_seconds {
            Some(s) => s,
            None => DEFAULT_RATE_LIMIT,
        },
    }
}

/// The attributes `instantiate` reports.
pub open spec fn instantiate_attributes(st: StateView) -> Seq<AttributeView> {
    seq![
        AttributeView { key: "method"@, value: "instantiate"@ },
        AttributeView { key: "admin"@, value: st.admin },
        AttributeView { key: "rate_limit"@, value: dec_rep(st.rate_limit_seconds as nat) },
        AttributeView { key: "tokens_count"@, value: dec_rep(st.tokens.len()) },
    ]
}

/// One-time setup: writes the configuration (overwriting any earlier one),
/// leaves the claim ledger alone, and reports what was set.
pub fn instantiate(contract: &mut FaucetContract, sender: String, msg: InstantiateMsg) -> (r:
    Response)
    ensures
        final(contract)@.state == Some(instantiated_state(msg, sender@)),
        final(contract)@.claims == old(contract)@.claims,
        r@.messages == Seq::<TransferMsgView>::empty(),
        r@.attributes == instantiate_attributes(instantiated_state(msg, sender@)),
{
    let admin = match msg.admin {
        Some(a) => a,
        None => sender,
    };
    let rate_limit = match msg.rate_limit_seconds {
        Some(s) => s,
        None => DEFAULT_RATE_LIMIT,
    };
    let state = State { admin, tokens: msg.tokens, rate_limit_seconds: rate_limit };

    let mut attributes: Vec<Attribute> = Vec::new();
    attributes.push(attr("method", String::from_str("instantiate")));
    attributes.push(attr("admin", state.admin.clone()));
    attributes.push(attr("rate_limit", u64_to_dec(rate_limit)));
    attributes.push(attr("tokens_count", usize_to_dec(state.tokens.len())));

    contract.state = Some(state);
    let r = Response { messages: Vec::new(), attributes };
    proof {
        assert(r@.messages =~= Seq::<TransferMsgView>::empty());
        assert(r@.attributes =~= instantiate_attributes(instantiated_state(msg, sender@)));
    }
    r
}

/// The attributes a successful token-configuration update reports.
pub open spec fn update_token_config_attributes(
    token_index: u32,
    new_config: TokenConfigView,
) -> Seq<AttributeView> {
    seq![
        AttributeView { key: "action"@, value: "update_token_config"@ },
        AttributeView { key: "token_index"@, value: dec_rep(token_index as nat) },
        AttributeView { key: "new_denom"@, value: denom_label(new_config.denom) },
        AttributeView { key: "new_amount"@, value: dec_rep(new_config.amount as nat) },
    ]
}

/// Full behaviour of the token-configuration update: admin-gated, in-range
/// index, overwrite in place; errors mutate nothing.
pub open spec fn update_token_config_post(
    pre: FaucetView,
    post: FaucetView,
    sender: Seq<char>,
    token_index: u32,
    new_config: TokenConfigView,
    r: Result<Response, FaucetError>,
) -> bool {
    match pre.state {
        None => r == Err::<Response, FaucetError>(FaucetError::StateNotFound) && post == pre,
        Some(st) => if sender != st.admin {
            r == Err::<Response, FaucetError>(FaucetError::Unauthorized) && post == pre
        } else if token_index as int >= st.tokens.len() {
            r == Err::<Response, FaucetError>(FaucetError::InvalidIndex) && post == pre
        } else {
            &&& post.claims == pre.claims
            &&& post.state == Some(
                StateView { tokens: st.tokens.update(token_index as int, new_config), ..st },
            )
            &&& match r {
                Ok(resp) => resp@.messages.len() == 0 && resp@.attributes
                    == update_token_config_attributes(token_index, new_config),
                Err(_) => false,
            }
        },
    }
}

/// Overwrites the token configuration at `token_index`. Only the admin may
/// call this; the index must address an existing entry; entries cannot be
/// added or removed.
pub fn execute_update_token_config(
    contract: &mut FaucetContract,
    sender: String,
    token_index: u32,
    new_config: TokenConfig,
) -> (r: Result<Response, FaucetError>)
    ensures
        update_token_config_post(
            old(contract)@,
            final(contract)@,
            sender@,
            token_index,
            new_config@,
            r,
        ),
{
    let state = match &mut contract.state {
        Some(s) => s,
        None => {
            return Err(FaucetError::StateNotFound);
        },
    };
    if !(sender == state.admin) {
        return Err(FaucetError::Unauthorized);
    }
    if token_index as usize >= state.tokens.len() {
        return Err(FaucetError::InvalidIndex);
    }

    let mut attributes: Vec<Attribute> = Vec::new();
    attributes.push(attr("action", String::from_str("update_token_config")));
    attributes.push(attr("token_index", u32_to_dec(token_index)));
    attributes.push(attr("new_denom", denom_label_string(&new_config.denom)));
    attributes.push(attr("new_amount", u128_to_dec(new_config.amount)));

    state.tokens[token_index as usize] = new_config;

    let r = Response { messages: Vec::new(), attributes };
    proof {
        assert(final(contract)@.state->Some_0.tokens =~= old(
            contract,
        )@.state->Some_0.tokens.update(token_index as int, new_config@));
        assert(r@.attributes =~= update_token_config_attributes(token_index, new_config@));
    }
    Ok(r)
}

/// The attributes a successful rate-limit update reports.
pub open spec fn update_rate_limit_attributes(seconds: u64) -> Seq<AttributeView> {
    seq![
        AttributeView { key: "action"@, value: "update_rate_limit"@ },
        AttributeView { key: "seconds"@, value: dec_rep(seconds as nat) },
    ]
}

/// Full behaviour of the rate-limit update: admin-gated, unconditional
/// overwrite, no bound checks (zero disables rate limiting).
pub open spec fn update_rate_limit_post(
    pre: FaucetView,
    post: FaucetView,
    sender: Seq<char>,
    seconds: u64,
    r: Result<Response, FaucetError>,
) -> bool {
    match pre.state {
        None => r == Err::<Response, FaucetError>(FaucetError::StateNotFound) && post == pre,
        Some(st) => if sender != st.admin {
            r == Err::<Response, FaucetError>(FaucetError::Unauthorized) && post == pre
        } else {
            &&& post.claims == pre.claims
            &&& post.state == Some(StateView { rate_limit_seconds: seconds, ..st })
            &&& match r {
                Ok(resp) => resp@.messages.len() == 0 && resp@.attributes
                    == update_rate_limit_attributes(seconds),
                Err(_) => false,
            }
        },
    }
}

/// Sets the cooldown between successful claims. Only the admin may call
/// this; any value is accepted, zero disables rate limiting.
pub fn execute_update_rate_limit(
    contract: &mut FaucetContract,
    sender: String,
    seconds: u64,
) -> (r: Result<Response, FaucetError>)
    ensures
        update_rate_limit_post(old(contract)@, final(contract)@, sender@, seconds, r),
{
    let state = match &mut contract.state {
        Some(s) => s,
        None => {
            return Err(FaucetError::StateNotFound);
        },
    };
    if !(sender == state.admin) {
        return Err(FaucetError::Unauthorized);
    }

    state.rate_limit_seconds = seconds;

    let mut attributes: Vec<Attribute> = Vec::new();
    attributes.push(attr("action", String::from_str("update_rate_limit")));
    attributes.push(attr("seconds", u64_to_dec(seconds)));

    let r = Response { messages: Vec::new(), attributes };
    proof {
        assert(r@.attributes =~= update_rate_limit_attributes(seconds));
    }
    Ok(r)
}

/// The attributes a successful admin change reports.
pub open spec fn set_admin_attributes(admin: Seq<char>) -> Seq<AttributeView> {
    seq![
        AttributeView { key: "action"@, value: "set_admin"@ },
        AttributeView { key: "admin"@, value: admin },
    ]
}

/// Full behaviour of the admin change: admin-gated, unconditional handover
/// in a single step.
pub open spec fn set_admin_post(
    pre: FaucetView,
    post: FaucetView,
    sender: Seq<char>,
    admin: Seq<char>,
    r: Result<Response, FaucetError>,
) -> bool {
    match pre.state {
        None => r == Err::<Response, FaucetError>(FaucetError::StateNotFound) && post == pre,
        Some(st) => if sender != st.admin {
            r == Err::<Response, FaucetError>(FaucetError::Unauthorized) && post == pre
        } else {
            &&& post.claims == pre.claims
            &&& post.state == Some(StateView { admin: admin, ..st })
            &&& match r {
                Ok(resp) => resp@.messages.len() == 0 && resp@.attributes
                    == set_admin_attributes(admin),
                Err(_) => false,
            }
        },
    }
}

/// Hands the admin role to `admin`. Only the current admin may call this;
/// the transfer takes effect immediately and has no confirmation step.
pub fn execute_set_admin(contract: &mut FaucetContract, sender: String, admin: String) -> (r:
    Result<Response, FaucetError>)
    ensures
        set_admin_post(old(contract)@, final(contract)@, sender@, admin@, r),
{
    let state = match &mut contract.state {
        Some(s) => s,
        None => {
            return Err(FaucetError::StateNotFound);
        },
    };
    if !(sender == state.admin) {
        return Err(FaucetError::Unauthorized);
    }

    let ghost admin_view = admin@;
    let mut attributes: Vec<Attribute> = Vec::new();
    attributes.push(attr("action", String::from_str("set_admin")));
    attributes.push(attr("admin", admin.clone()));

    state.admin = admin;

    let r = Response { messages: Vec::new(), attributes };
    proof {
        assert(r@.attributes =~= set_admin_attributes(admin_view));
    }
    Ok(r)
}

/// The transfer instruction a claim emits for one asset, given the
/// contract's live balance of it: a native send or an issued-asset transfer
/// when the balance covers the configured amount, nothing when it does not.
pub open spec fn token_transfer(
    t: TokenConfigView,
    caller: Seq<char>,
    balance: u128,
) -> Option<TransferMsgView> {
    if balance >= t.amount {
        match t.denom {
            DenomView::Native(d) => Some(
                TransferMsgView::Send { to_address: caller, amount: t.amount, denom: d },
            ),
            DenomView::Cw20(c) => Some(
                TransferMsgView::Execute {
                    contract_addr: c,
                    msg: cw20_transfer_encoding(caller, t.amount),
                },
            ),
        }
    } else {
        None
    }
}

/// The transfer instructions a claim emits, in configuration order; an
/// underfunded asset is skipped silently.
pub open spec fn claim_transfers(
    tokens: Seq<TokenConfigView>,
    balances: Seq<u128>,
    caller: Seq<char>,
) -> Seq<TransferMsgView>
    recommends
        balances.len() == tokens.len(),
    decreases tokens.len(),
{
    if tokens.len() == 0 {
        Seq::empty()
    } else {
        let init = claim_transfers(tokens.drop_last(), balances.drop_last(), caller);
        match token_transfer(tokens.last(), caller, balances[tokens.len() - 1]) {
            Some(m) => init.push(m),
            None => init,
        }
    }
}

/// The summary entry for one distributed asset: its amount and identity.
pub open spec fn distributed_label(t: TokenConfigView) -> Seq<char> {
    match t.denom {
        DenomView::Native(d) => dec_rep(t.amount as nat) + " "@ + d,
        DenomView::Cw20(c) => dec_rep(t.amount as nat) + " CW20:"@ + c,
    }
}

/// The summary entries of a claim, one per asset actually distributed, in
/// configuration order.
pub open spec fn claim_distributed(tokens: Seq<TokenConfigView>, balances: Seq<u128>) -> Seq<
    Seq<char>,
>
    recommends
        balances.len() == tokens.len(),
    decreases tokens.len(),
{
    if tokens.len() == 0 {
        Seq::empty()
    } else {
        let init = claim_distributed(tokens.drop_last(), balances.drop_last());
        if balances[tokens.len() - 1] >= tokens.last().amount {
            init.push(distributed_label(tokens.last()))
        } else {
            init
        }
    }
}

/// The attributes a successful claim reports.
pub open spec fn claim_attributes(caller: Seq<char>, distributed: Seq<Seq<char>>) -> Seq<
    AttributeView,
> {
    seq![
        AttributeView { key: "action"@, value: "claim"@ },
        AttributeView { key: "recipient"@, value: caller },
        AttributeView { key: "distributed_tokens"@, value: join_with(distributed, ", "@) },
    ]
}

/// Full behaviour of a claim. A rate-limited caller gets the exact wait and
/// nothing changes. An eligible caller's ledger record is set to `now`
/// first, and stays set even when every asset is underfunded and the claim
/// then fails; the configuration never changes.
pub open spec fn claim_post(
    pre: FaucetView,
    post: FaucetView,
    caller: Seq<char>,
    now: u64,
    balances: Seq<u128>,
    r: Result<Response, FaucetError>,
) -> bool {
    match pre.state {
        None => r == Err::<Response, FaucetError>(FaucetError::StateNotFound) && post == pre,
        Some(st) => if !eligible(pre.claims, caller, now, st.rate_limit_seconds) {
            &&& r == Err::<Response, FaucetError>(
                FaucetError::RateLimited {
                    seconds_remaining: wait_seconds(pre.claims, caller, now, st.rate_limit_seconds),
                },
            )
            &&& post == pre
        } else {
            &&& post.state == pre.state
            &&& post.claims == pre.claims.insert(caller, UserInfo { last_claim_time: now })
            &&& {
                let transfers = claim_transfers(st.tokens, balances, caller);
                if transfers.len() == 0 {
                    r == Err::<Response, FaucetError>(FaucetError::InsufficientFunds)
                } else {
                    match r {
                        Ok(resp) => resp@.messages == transfers && resp@.attributes
                            == claim_attributes(caller, claim_distributed(st.tokens, balances)),
                        Err(_) => false,
                    }
                }
            }
        },
    }
}

/// One round of payouts to `caller` at time `now`. `balances` holds the
/// contract's live balance of each configured asset, in configuration order.
/// The ledger is written before payout construction, so an all-underfunded
/// claim consumes the caller's rate-limit window even though it pays nothing.
pub fn execute_claim(
    contract: &mut FaucetContract,
    caller: String,
    now: u64,
    balances: &Vec<u128>,
) -> (r: Result<Response, FaucetError>)
    requires
        match old(contract).state {
            Some(s) => balances@.len() == s.tokens@.len(),
            None => true,
        },
    ensures
        claim_post(old(contract)@, final(contract)@, caller@, now, balances@, r),
{
    let state = match &contract.state {
        Some(s) => s.clone(),
        None => {
            return Err(FaucetError::StateNotFound);
        },
    };

    let user_info = contract.claims.may_load(&caller);
    if let Some(u) = user_info {
        let elapsed = now.saturating_sub(u.last_claim_time);
        if elapsed < state.rate_limit_seconds {
            let seconds_remaining = state.rate_limit_seconds - elapsed;
            return Err(FaucetError::RateLimited { seconds_remaining });
        }
    }

    contract.claims.save(&caller, UserInfo { last_claim_time: now });

    let ghost tokens_view = state@.tokens;
    let mut messages: Vec<TransferMsg> = Vec::new();
    let mut distributed: Vec<String> = Vec::new();
    let mut i: usize = 0;
    while i < state.tokens.len()
        invariant
            balances@.len() == state.tokens@.len(),
            tokens_view == state@.tokens,
            0 <= i <= state.tokens.len(),
            messages@.map_values(|m: TransferMsg| m@) == claim_transfers(
                tokens_view.take(i as int),
                balances@.take(i as int),
                caller@,
            ),
            distributed@.map_values(|s: String| s@) == claim_distributed(
                tokens_view.take(i as int),
                balances@.take(i as int),
            ),
        decreases state.tokens.len() - i,
    {
        let t = &state.tokens[i];
        let balance = balances[i];
        if balance >= t.amount {
            match &t.denom {
                Denom::Native(d) => {
                    messages.push(
                        TransferMsg::Send {
                            to_address: caller.clone(),
                            amount: t.amount,
                            denom: d.clone(),
                        },
                    );
                    let mut label = u128_to_dec(t.amount);
                    label.append(" ");
                    label.append(d.as_str());
                    distributed.push(label);
                },
                Denom::Cw20(c) => {
                    let msg_bytes = encode_cw20_transfer(&caller, t.amount);
                    messages.push(
                        TransferMsg::Execute { contract_addr: c.clone(), msg: msg_bytes },
                    );
                    let mut label = u128_to_dec(t.amount);
                    label.append(" CW20:");
                    label.append(c.as_str());
                    distributed.push(label);
                },
            }
        }
        proof {
            assert(tokens_view.take(i + 1 as int).drop_last() =~= tokens_view.take(i as int));
            assert(balances@.take(i + 1 as int).drop_last() =~= balances@.take(i as int));
            assert(tokens_view.take(i + 1 as int).last() == state.tokens@[i as int]@);
            assert(messages@.map_values(|m: TransferMsg| m@) =~= claim_transfers(
                tokens_view.take(i + 1 as int),
                balances@.take(i + 1 as int),
                caller@,
            ));
            assert(distributed@.map_values(|s: String| s@) =~= claim_distributed(
                tokens_view.take(i + 1 as int),
                balances@.take(i + 1 as int),
            ));
        }
        i += 1;
    }
    proof {
        assert(tokens_view.take(state.tokens@.len() as int) =~= tokens_view);
        assert(balances@.take(state.tokens@.len() as int) =~= balances@);
    }

    if messages.is_empty() {
        return Err(FaucetError::InsufficientFunds);
    }

    let summary = join_strings(&distributed, ", ");
    let mut attributes: Vec<Attribute> = Vec::new();
    attributes.push(attr("action", String::from_str("claim")));
    attributes.push(attr("recipient", caller));
    attributes.push(attr("distributed_tokens", summary));

    let r = Response { messages, attributes };
    proof {
        assert(r@.attributes =~= claim_attributes(caller@, claim_distributed(
            tokens_view,
            balances@,
        )));
    }
    Ok(r)
}

/// Dispatches a state-mutating command. `now` and `balances` serve only the
/// claim command; the admin commands ignore them.
pub fn execute(
    contract: &mut FaucetContract,
    sender: String,
    now: u64,
    balances: &Vec<u128>,
    msg: ExecuteMsg,
) -> (r: Result<Response, FaucetError>)
    requires
        msg matches ExecuteMsg::Claim { .. } ==> match old(contract).state {
            Some(s) => balances@.len() == s.tokens@.len(),
            None => true,
        },
    ensures
        match msg {
            ExecuteMsg::Claim {  } => claim_post(
                old(contract)@,
                final(contract)@,
                sender@,
                now,
                balances@,
                r,
            ),
            ExecuteMsg::UpdateTokenConfig { token_index, new_config } => update_token_config_post(
                old(contract)@,
                final(contract)@,
                sender@,
                token_index,
                new_config@,
                r,
            ),
            ExecuteMsg::UpdateRateLimit { seconds } => update_rate_limit_post(
                old(contract)@,
                final(contract)@,
                sender@,
                seconds,
                r,
            ),
            ExecuteMsg::SetAdmin { admin } => set_admin_post(
                old(contract)@,
                final(contract)@,
                sender@,
                admin@,
                r,
            ),
        },
{
    match msg {
        ExecuteMsg::Claim {  } => execute_claim(contract, sender, now, balances),
        ExecuteMsg::UpdateTokenConfig { token_index, new_config } => execute_update_token_config(
            contract,
            sender,
            token_index,
            new_config,
        ),
        ExecuteMsg::UpdateRateLimit { seconds } => execute_update_rate_limit(
            contract,
            sender,
            seconds,
        ),
        ExecuteMsg::SetAdmin { admin } => execute_set_admin(contract, sender, admin),
    }
}

/// The currently configured assets.
pub fn query_token_configs(contract: &FaucetContract) -> (r: Result<
    TokenConfigsResponse,
    FaucetError,
>)
    ensures
        match contract@.state {
            None => r == Err::<TokenConfigsResponse, FaucetError>(FaucetError::StateNotFound),
            Some(st) => match r {
                Ok(resp) => resp.tokens@.map_values(|t: TokenConfig| t@) == st.tokens,
                Err(_) => false,
            },
        },
{
    match &contract.state {
        Some(s) => {
            let copy = s.clone();
            Ok(TokenConfigsResponse { tokens: copy.tokens })
        },
        None => Err(FaucetError::StateNotFound),
    }
}

/// The current cooldown between successful claims.
pub fn query_rate_limit(contract: &FaucetContract) -> (r: Result<RateLimitResponse, FaucetError>)
    ensures
        match contract@.state {
            None => r == Err::<RateLimitResponse, FaucetError>(FaucetError::StateNotFound),
            Some(st) => r == Ok::<RateLimitResponse, FaucetError>(
                RateLimitResponse { rate_limit_seconds: st.rate_limit_seconds },
            ),
        },
{
    match &contract.state {
        Some(s) => Ok(RateLimitResponse { rate_limit_seconds: s.rate_limit_seconds }),
        None => Err(FaucetError::StateNotFound),
    }
}

/// The claim record of `address`, or nothing if it never claimed. Needs no
/// configuration and so never fails.
pub fn query_user_info(contract: &FaucetContract, address: &String) -> (r: UserInfoResponse)
    ensures
        r.user_info == lookup(contract@.claims, address@),
{
    UserInfoResponse { user_info: contract.claims.may_load(address) }
}

/// The current admin identity.
pub fn query_admin(contract: &FaucetContract) -> (r: Result<AdminResponse, FaucetError>)
    ensures
        match contract@.state {
            None => r == Err::<AdminResponse, FaucetError>(FaucetError::StateNotFound),
            Some(st) => match r {
                Ok(resp) => resp.admin@ == st.admin,
                Err(_) => false,
            },
        },
{
    match &contract.state {
        Some(s) => Ok(AdminResponse { admin: s.admin.clone() }),
        None => Err(FaucetError::StateNotFound),
    }
}

/// The live balance report: one entry per configured asset, in configuration
/// order, carrying the balance the host fetched for it.
pub open spec fn balance_entries(tokens: Seq<TokenConfigView>, balances: Seq<u128>) -> Seq<
    BalanceEntryView,
>
    recommends
        balances.len() == tokens.len(),
    decreases tokens.len(),
{
    if tokens.len() == 0 {
        Seq::empty()
    } else {
        balance_entries(tokens.drop_last(), balances.drop_last()).push(
            match tokens.last().denom {
                DenomView::Native(d) => BalanceEntryView::Native {
                    denom: d,
                    amount: balances[tokens.len() - 1],
                },
                DenomView::Cw20(c) => BalanceEntryView::Cw20 {
                    address: c,
                    amount: balances[tokens.len() - 1],
                },
            },
        )
    }
}

/// The contract's live balance of every configured asset. `balances` holds
/// the balance the host fetched for each asset, in configuration order.
pub fn query_balance(contract: &FaucetContract, balances: &Vec<u128>) -> (r: Result<
    BalanceResponse,
    FaucetError,
>)
    requires
        match contract.state {
            Some(s) => balances@.len() == s.tokens@.len(),
            None => true,
        },
    ensures
        match contract@.state {
            None => r == Err::<BalanceResponse, FaucetError>(FaucetError::StateNotFound),
            Some(st) => match r {
                Ok(resp) => resp.balances@.map_values(|b: BalanceEntry| b@) == balance_entries(
                    st.tokens,
                    balances@,
                ),
                Err(_) => false,
            },
        },
{
    let state = match &contract.state {
        Some(s) => s,
        None => {
            return Err(FaucetError::StateNotFound);
        },
    };
    let ghost tokens_view = state@.tokens;
    let mut entries: Vec<BalanceEntry> = Vec::new();
    let mut i: usize = 0;
    while i < state.tokens.len()
        invariant
            balances@.len() == state.tokens@.len(),
            tokens_view == state@.tokens,
            0 <= i <= state.tokens.len(),
            entries@.map_values(|b: BalanceEntry| b@) == balance_entries(
                tokens_view.take(i as int),
                balances@.take(i as int),
            ),
        decreases state.tokens.len() - i,
    {
        let t = &state.tokens[i];
        let amount = balances[i];
        match &t.denom {
            Denom::Native(d) => {
                entries.push(BalanceEntry::Native { denom: d.clone(), amount });
            },
            Denom::Cw20(c) => {
                entries.push(BalanceEntry::Cw20 { address: c.clone(), amount });
            },
        }
        proof {
            assert(tokens_view.take(i + 1 as int).drop_last() =~= tokens_view.take(i as int));
            assert(balances@.take(i + 1 as int).drop_last() =~= balances@.take(i as int));
            assert(tokens_view.take(i + 1 as int).last() == state.tokens@[i as int]@);
            assert(entries@.map_values(|b: BalanceEntry| b@) =~= balance_entries(
                tokens_view.take(i + 1 as int),
                balances@.take(i + 1 as int),
            ));
        }
        i += 1;
    }
    proof {
        assert(tokens_view.take(state.tokens@.len() as int) =~= tokens_view);
        assert(balances@.take(state.tokens@.len() as int) =~= balances@);
    }
    Ok(BalanceResponse { balances: entries })
}

/// Whether `address` could claim at time `now`, and the exact wait if not:
/// the same eligibility rule as the claim operation, with no state mutation.
pub fn query_can_user_claim(contract: &FaucetContract, address: &String, now: u64) -> (r: Result<
    ClaimStatusResponse,
    FaucetError,
>)
    ensures
        match contract@.state {
            None => r == Err::<ClaimStatusResponse, FaucetError>(FaucetError::StateNotFound),
            Some(st) => r == Ok::<ClaimStatusResponse, FaucetError>(
                ClaimStatusResponse {
                    can_claim: eligible(contract@.claims, address@, now, st.rate_limit_seconds),
                    seconds_until_next_claim: wait_seconds(
                        contract@.claims,
                        address@,
                        now,
                        st.rate_limit_seconds,
                    ),
                },
            ),
        },
{
    let state = match &contract.state {
        Some(s) => s,
        None => {
            return Err(FaucetError::StateNotFound);
        },
    };
    let user_info = contract.claims.may_load(address);
    match user_info {
        Some(u) => {
            let elapsed = now.saturating_sub(u.last_claim_time);
            if elapsed >= state.rate_limit_seconds {
                Ok(ClaimStatusResponse { can_claim: true, seconds_until_next_claim: 0 })
            } else {
                let seconds_remaining = state.rate_limit_seconds - elapsed;
                Ok(
                    ClaimStatusResponse {
                        can_claim: false,
                        seconds_until_next_claim: seconds_remaining,
                    },
                )
            }
        },
        None => Ok(ClaimStatusResponse { can_claim: true, seconds_until_next_claim: 0 }),
    }
}

/// Dispatches a read-only command. `now` serves only the claim-status query
/// and `balances` only the balance query; the others ignore them.
pub fn query(contract: &FaucetContract, now: u64, balances: &Vec<u128>, msg: QueryMsg) -> (r:
    Result<QueryAnswer, FaucetError>)
    requires
        msg matches QueryMsg::GetBalance { .. } ==> match contract.state {
            Some(s) => balances@.len() == s.tokens@.len(),
            None => true,
        },
    ensures
        match msg {
            QueryMsg::GetTokenConfigs {  } => match (contract@.state, r) {
                (None, Err(e)) => e == FaucetError::StateNotFound,
                (Some(st), Ok(QueryAnswer::TokenConfigs(resp))) => resp.tokens@.map_values(
                    |t: TokenConfig| t@,
                ) == st.tokens,
                _ => false,
            },
            QueryMsg::GetRateLimit {  } => match (contract@.state, r) {
                (None, Err(e)) => e == FaucetError::StateNotFound,
                (Some(st), Ok(QueryAnswer::RateLimit(resp))) => resp.rate_limit_seconds
                    == st.rate_limit_seconds,
                _ => false,
            },
            QueryMsg::GetUserInfo { address } => match r {
                Ok(QueryAnswer::UserInfo(resp)) => resp.user_info == lookup(
                    contract@.claims,
                    address@,
                ),
                _ => false,
            },
            QueryMsg::GetAdmin {  } => match (contract@.state, r) {
                (None, Err(e)) => e == FaucetError::StateNotFound,
                (Some(st), Ok(QueryAnswer::Admin(resp))) => resp.admin@ == st.admin,
                _ => false,
            },
            QueryMsg::GetBalance {  } => match (contract@.state, r) {
                (None, Err(e)) => e == FaucetError::StateNotFound,
                (Some(st), Ok(QueryAnswer::Balance(resp))) => resp.balances@.map_values(
                    |b: BalanceEntry| b@,
                ) == balance_entries(st.tokens, balances@),
                _ => false,
            },
            QueryMsg::CanUserClaim { address } => match (contract@.state, r) {
                (None, Err(e)) => e == FaucetError::StateNotFound,
                (Some(st), Ok(QueryAnswer::ClaimStatus(resp))) => resp == ClaimStatusResponse {
                    can_claim: eligible(contract@.claims, address@, now, st.rate_limit_seconds),
                    seconds_until_next_claim: wait_seconds(
                        contract@.claims,
                        address@,
                        now,
                        st.rate_limit_seconds,
                    ),
                },
                _ => false,
            },
        },
{
    match msg {
        QueryMsg::GetTokenConfigs {  } => match query_token_configs(contract) {
            Ok(resp) => Ok(QueryAnswer::TokenConfigs(resp)),
            Err(e) => Err(e),
        },
        QueryMsg::GetRateLimit {  } => match query_rate_limit(contract) {
            Ok(resp) => Ok(QueryAnswer::RateLimit(resp)),
            Err(e) => Err(e),
        },
        QueryMsg::GetUserInfo { address } => Ok(
            QueryAnswer::UserInfo(query_user_info(contract, &address)),
        ),
        QueryMsg::GetAdmin {  } => match query_admin(contract) {
            Ok(resp) => Ok(QueryAnswer::Admin(resp)),
            Err(e) => Err(e),
        },
        QueryMsg::GetBalance {  } => match query_balance(contract, balances) {
            Ok(resp) => Ok(QueryAnswer::Balance(resp)),
            Err(e) => Err(e),
        },
        QueryMsg::CanUserClaim { address } => match query_can_user_claim(contract, &address, now) {
            Ok(resp) => Ok(QueryAnswer::ClaimStatus(resp)),
            Err(e) => Err(e),
        },
    }
}

} // verus!
