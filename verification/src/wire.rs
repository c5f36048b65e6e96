//! The one outside call in the payout path: encoding the transfer message
//! that an issuing (cw20) contract is asked to execute.

use vstd::prelude::*;

verus! {

/// The JSON bytes of a cw20 transfer execute message with the given
/// recipient and amount: a function of those two values alone.
pub uninterp spec fn cw20_transfer_encoding(recipient: Seq<char>, amount: u128) -> Seq<u8>;

/// Relies on `cosmwasm_std::to_json_binary` applied to
/// `cw20::Cw20ExecuteMsg::Transfer`: serializing that message (two plain
/// fields, a string and an unsigned integer) cannot fail, and the bytes it
/// yields are a function of the recipient and the amount alone.
#[verifier::external_body]
pub(crate) fn encode_cw20_transfer(recipient: &String, amount: u128) -> (r: Vec<u8>)
    ensures
        r@ == cw20_transfer_encoding(recipient@, amount),
{
    let msg = cw20::Cw20ExecuteMsg::Transfer {
        recipient: recipient.clone(),
        amount: cosmwasm_std::Uint128::new(amount),
    };
    match cosmwasm_std::to_json_binary(&msg) {
        Ok(b) => b.into(),
        Err(_) => Vec::new(),
    }
}

} // verus!
