//! Boundary messages of the faucet: the instantiate/execute/query commands,
//! the query responses, and the outbound effects (transfer instructions and
//! observability attributes) of a successful execution.

use vstd::prelude::*;

use crate::state::{Denom, DenomView, TokenConfig, TokenConfigView, UserInfo};

verus! {

/// One-time setup command.
pub struct InstantiateMsg {
    /// Identity allowed to mutate the configuration; defaults to the caller.
    pub admin: Option<String>,
    /// The distributable assets, in payout order.
    pub tokens: Vec<TokenConfig>,
    /// Cooldown between successful claims; defaults to a day.
    pub rate_limit_seconds: Option<u64>,
}

/// State-mutating commands.
pub enum ExecuteMsg {
    Claim {},
    UpdateTokenConfig { token_index: u32, new_config: TokenConfig },
    UpdateRateLimit { seconds: u64 },
    SetAdmin { admin: String },
}

/// Read-only commands.
pub enum QueryMsg {
    GetTokenConfigs {},
    GetRateLimit {},
    GetUserInfo { address: String },
    GetAdmin {},
    GetBalance {},
    CanUserClaim { address: String },
}

/// Answer to [`QueryMsg::GetTokenConfigs`].
pub struct TokenConfigsResponse {
    pub tokens: Vec<TokenConfig>,
}

/// Answer to [`QueryMsg::GetRateLimit`].
pub struct RateLimitResponse {
    pub rate_limit_seconds: u64,
}

/// Answer to [`QueryMsg::GetUserInfo`].
pub struct UserInfoResponse {
    pub user_info: Option<UserInfo>,
}

/// Answer to [`QueryMsg::GetAdmin`].
pub struct AdminResponse {
    pub admin: String,
}

/// One live balance of the contract, as reported by the host.
#[derive(Debug)]
pub enum BalanceEntry {
    /// Balance of a native coin held by the contract.
    Native { denom: String, amount: u128 },
    /// Balance the contract holds in a token issued by another contract.
    Cw20 { address: String, amount: u128 },
}

/// Mathematical image of a [`BalanceEntry`].
pub enum BalanceEntryView {
    Native { denom: Seq<char>, amount: u128 },
    Cw20 { address: Seq<char>, amount: u128 },
}

impl View for BalanceEntry {
    type V = BalanceEntryView;

    open spec fn view(&self) -> BalanceEntryView {
        match self {
            BalanceEntry::Native { denom, amount } => BalanceEntryView::Native {
                denom: denom@,
                amount: *amount,
            },
            BalanceEntry::Cw20 { address, amount } => BalanceEntryView::Cw20 {
                address: address@,
                amount: *amount,
            },
        }
    }
}

/// Answer to [`QueryMsg::GetBalance`]: one entry per configured asset, in
/// configuration order, fetched fresh from the host at query time.
pub struct BalanceResponse {
    pub balances: Vec<BalanceEntry>,
}

/// Answer to [`QueryMsg::CanUserClaim`].
pub struct ClaimStatusResponse {
    pub can_claim: bool,
    pub seconds_until_next_claim: u64,
}

/// The answer to a query, tagged by the query it answers.
pub enum QueryAnswer {
    TokenConfigs(TokenConfigsResponse),
    RateLimit(RateLimitResponse),
    UserInfo(UserInfoResponse),
    Admin(AdminResponse),
    Balance(BalanceResponse),
    ClaimStatus(ClaimStatusResponse),
}

/// An outbound transfer instruction for the host to perform.
#[derive(Debug)]
pub enum TransferMsg {
    /// Send `amount` of the native coin `denom` to `to_address`.
    Send { to_address: String, amount: u128, denom: String },
    /// Ask the issuing contract `contract_addr` to execute the encoded
    /// transfer message `msg` (a cw20 transfer), with no funds attached.
    Execute { contract_addr: String, msg: Vec<u8> },
}

/// Mathematical image of a [`TransferMsg`].
pub enum TransferMsgView {
    Send { to_address: Seq<char>, amount: u128, denom: Seq<char> },
    Execute { contract_addr: Seq<char>, msg: Seq<u8> },
}

impl View for TransferMsg {
    type V = TransferMsgView;

    open spec fn view(&self) -> TransferMsgView {
        match self {
            TransferMsg::Send { to_address, amount, denom } => TransferMsgView::Send {
                to_address: to_address@,
                amount: *amount,
                denom: denom@,
            },
            TransferMsg::Execute { contract_addr, msg } => TransferMsgView::Execute {
                contract_addr: contract_addr@,
                msg: msg@,
            },
        }
    }
}

/// One key/value observability attribute of a response.
#[derive(Debug)]
pub struct Attribute {
    pub key: String,
    pub value: String,
}

/// Mathematical image of an [`Attribute`].
pub struct AttributeView {
    pub key: Seq<char>,
    pub value: Seq<char>,
}

impl View for Attribute {
    type V = AttributeView;

    open spec fn view(&self) -> AttributeView {
        AttributeView { key: self.key@, value: self.value@ }
    }
}

/// What a successful invocation hands back to the host: transfer
/// instructions to perform, and attributes to attach to the result.
#[derive(Debug)]
pub struct Response {
    pub messages: Vec<TransferMsg>,
    pub attributes: Vec<Attribute>,
}

/// Mathematical image of a [`Response`].
pub struct ResponseView {
    pub messages: Seq<TransferMsgView>,
    pub attributes: Seq<AttributeView>,
}

impl View for Response {
    type V = ResponseView;

    open spec fn view(&self) -> ResponseView {
        ResponseView {
            messages: self.messages@.map_values(|m: TransferMsg| m@),
            attributes: self.attributes@.map_values(|a: Attribute| a@),
        }
    }
}

/// The `Debug`-style label of a denom, as written into the `new_denom`
/// attribute of a configuration update.
pub open spec fn denom_label(d: DenomView) -> Seq<char> {
    match d {
        DenomView::Native(s) => "Native(\""@ + s + "\")"@,
        DenomView::Cw20(s) => "Cw20(\""@ + s + "\")"@,
    }
}

/// Renders the `Debug`-style label of `d`.
pub fn denom_label_string(d: &Denom) -> (r: String)
    ensures
        r@ == denom_label(d@),
{
    match d {
        Denom::Native(s) => {
            let mut r = String::from_str("Native(\"");
            r.append(s.as_str());
            r.append("\")");
            r
        },
        Denom::Cw20(s) => {
            let mut r = String::from_str("Cw20(\"");
            r.append(s.as_str());
            r.append("\")");
            r
        },
    }
}

/// Builds one attribute from a key literal and an owned value.
pub fn attr(key: &str, value: String) -> (r: Attribute)
    ensures
        r@ == (AttributeView { key: key@, value: value@ }),
{
    Attribute { key: String::from_str(key), value }
}

} // verus!
