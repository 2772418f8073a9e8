//! The calls into other crates. Each stands behind a small function whose
//! contract is taken on trust: it says what the called function's source
//! shows, or, where that would take pages, gives the result a name.
//!
//! From `cosmwasm_std` come the 256-bit product, the 256-bit division and
//! the ratio of amounts, and the JSON encoding; from `cw20_base` the message
//! that creates a token contract; from `cw_utils` the reading of the host's
//! report of the address it created one at.

use vstd::prelude::*;
use crate::error::ArithmeticError;
use crate::math::{spec_mul_ratio_u128, U256};
use crate::msg::{BaseTokenInitArgs, Reply};
use crate::utils::opt_view;

verus! {

/// Calls `cosmwasm_std::Uint128::full_mul`, which widens both factors to 256
/// bits and multiplies them. The contract claims that the result is the
/// exact product; the halves are read from its big-endian bytes.
#[verifier::external_body]
pub(crate) fn uint128_full_mul(a: u128, b: u128) -> (r: U256)
    ensures
        r@ == a as nat * b as nat,
{
    let bytes = cosmwasm_std::Uint128::new(a).full_mul(b).to_be_bytes();
    let (hi, lo) = bytes.split_at(16);
    U256 {
        hi: u128::from_be_bytes(hi.try_into().unwrap()),
        lo: u128::from_be_bytes(lo.try_into().unwrap()),
    }
}

/// Calls `cosmwasm_std::Uint256::checked_div` on the number that `k` stands
/// for and on `d` widened to 256 bits. The contract claims what the source
/// shows: no result for a zero divisor, else the quotient rounded down. The
/// halves go in and come out as big-endian bytes.
#[verifier::external_body]
pub(crate) fn uint256_checked_div(k: U256, d: u128) -> (r: Option<U256>)
    ensures
        d == 0 ==> r is None,
        d != 0 ==> r is Some && r->0@ == k@ / (d as nat),
{
    let mut bytes = [0u8; 32];
    bytes[..16].copy_from_slice(&k.hi.to_be_bytes());
    bytes[16..].copy_from_slice(&k.lo.to_be_bytes());
    let dividend = cosmwasm_std::Uint256::from_be_bytes(bytes);
    match dividend.checked_div(cosmwasm_std::Uint256::from(d)) {
        Ok(q) => {
            let out = q.to_be_bytes();
            let (hi, lo) = out.split_at(16);
            Some(U256 {
                hi: u128::from_be_bytes(hi.try_into().unwrap()),
                lo: u128::from_be_bytes(lo.try_into().unwrap()),
            })
        },
        Err(_) => None,
    }
}

/// Calls `cosmwasm_std::Uint128::checked_multiply_ratio`. The contract
/// claims what the source shows: a zero denominator is refused first, the
/// product is formed in 256 bits, divided rounding down, and refused as an
/// overflow where the quotient does not fit in 128 bits.
#[verifier::external_body]
pub(crate) fn uint128_checked_multiply_ratio(a: u128, n: u128, d: u128) -> (r: Result<u128, ArithmeticError>)
    ensures
        r == spec_mul_ratio_u128(a, n, d),
{
    match cosmwasm_std::Uint128::new(a).checked_multiply_ratio(n, d) {
        Ok(v) => Ok(v.u128()),
        Err(cosmwasm_std::CheckedMultiplyRatioError::DivideByZero) => Err(
            ArithmeticError::DivideByZero,
        ),
        Err(cosmwasm_std::CheckedMultiplyRatioError::Overflow) => Err(ArithmeticError::Overflow),
    }
}

/// An encoding attempt as contracts see it.
pub open spec fn encoded_view(r: Result<Vec<u8>, String>) -> Result<Seq<u8>, Seq<char>> {
    match r {
        Ok(bytes) => Ok(bytes@),
        Err(e) => Err(e@),
    }
}

/// A decoding attempt as contracts see it.
pub open spec fn decoded_view(r: Result<String, String>) -> Result<Seq<char>, Seq<char>> {
    match r {
        Ok(text) => Ok(text@),
        Err(e) => Err(e@),
    }
}

/// What a reply holds, as contracts see it.
pub open spec fn reply_result_view(r: Result<Option<Vec<u8>>, String>) -> Result<
    Option<Seq<u8>>,
    Seq<char>,
> {
    match r {
        Ok(Some(data)) => Ok(Some(data@)),
        Ok(None) => Ok(None),
        Err(e) => Err(e@),
    }
}

/// The JSON that `cosmwasm_std::to_json_binary` gives for the
/// `cw20_base::msg::InstantiateMsg` of a token with these properties, whose
/// whole initial supply is held by `owner`, who is also its minter and its
/// marketing account; or the text of the encoder's error.
pub uninterp spec fn cw20_instantiate_json(
    name: Seq<char>,
    symbol: Seq<char>,
    decimals: u8,
    description: Option<Seq<char>>,
    image_url: Option<Seq<char>>,
    project_url: Option<Seq<char>>,
    cap: Option<u128>,
    owner: Seq<char>,
    supply: u128,
) -> Result<Seq<u8>, Seq<char>>;

/// The contract address that `cw_utils::parse_reply_instantiate_data` reads
/// from a reply with this number and result; or the text of its error.
pub uninterp spec fn reply_instantiate_address(
    id: u64,
    result: Result<Option<Seq<u8>>, Seq<char>>,
) -> Result<Seq<char>, Seq<char>>;

/// Builds the `cw20_base::msg::InstantiateMsg` of the token and encodes it
/// with `cosmwasm_std::to_json_binary`. The contract claims only that the
/// outcome is a function of what goes into the message.
#[verifier::external_body]
pub(crate) fn encode_cw20_instantiate(token: &BaseTokenInitArgs, owner: &String, supply: u128) -> (r:
    Result<Vec<u8>, String>)
    ensures
        encoded_view(r) == cw20_instantiate_json(
            token.name@,
            token.symbol@,
            token.decimals,
            opt_view(token.description),
            opt_view(token.image_url),
            opt_view(token.project_url),
            token.cap,
            owner@,
            supply,
        ),
{
    let msg = cw20_base::msg::InstantiateMsg {
        name: token.name.clone(),
        symbol: token.symbol.clone(),
        decimals: token.decimals,
        initial_balances: vec![cw20::Cw20Coin { address: owner.clone(), amount: supply.into() }],
        mint: Some(cw20::MinterResponse { minter: owner.clone(), cap: token.cap.map(Into::into) }),
        marketing: Some(cw20_base::msg::InstantiateMarketingInfo {
            project: token.project_url.clone(),
            description: token.description.clone(),
            marketing: Some(owner.clone()),
            logo: token.image_url.clone().map(cw20::Logo::Url),
        }),
    };
    cosmwasm_std::to_json_binary(&msg).map(|b| b.0).map_err(|e| e.to_string())
}

/// Hands the reply to `cw_utils::parse_reply_instantiate_data` and keeps the
/// contract address it finds, or the text of its error. The contract claims
/// only that the outcome is a function of the reply.
#[verifier::external_body]
pub(crate) fn parse_reply_instantiate_data(reply: &Reply) -> (r: Result<String, String>)
    ensures
        decoded_view(r) == reply_instantiate_address(reply.id, reply_result_view(reply.result)),
{
    let result = match reply.result.clone() {
        Ok(data) => cosmwasm_std::SubMsgResult::Ok(
            cosmwasm_std::SubMsgResponse { events: vec![], data: data.map(cosmwasm_std::Binary) },
        ),
        Err(e) => cosmwasm_std::SubMsgResult::Err(e),
    };
    match cw_utils::parse_reply_instantiate_data(cosmwasm_std::Reply { id: reply.id, result }) {
        Ok(found) => Ok(found.contract_address),
        Err(e) => Err(e.to_string()),
    }
}

} // verus!
