//! Everything the curve keeps between calls, and how it comes to be.

use std::collections::BTreeMap;
use vstd::prelude::*;
use vstd::string::*;
use crate::context::Context;
use crate::curve::Curve;
use crate::error::{ContractError, ContractErrorView};
use crate::math::{mul_u256, PCT_SCALE};
use crate::models::account::{
    spec_stats_of, AccountBook, AccountStats, SwapStats, SwapStatsView,
};
use crate::models::ohlc::OhlcBar;
use crate::msg::{InstantiateMsg, Reply};
use crate::response::{
    Action, Response, ResponseView, SubMsg, SubMsgView, TokenInstantiation,
    TokenInstantiationView,
};
use crate::token::{Token, TokenView};
use crate::utils::opt_view;
use crate::outside::{
    cw20_instantiate_json, decoded_view, encode_cw20_instantiate, encoded_view,
    parse_reply_instantiate_data, reply_instantiate_address, reply_result_view,
};

verus! {

/// The number under which the creation of the base asset's token contract
/// is reported back.
pub const CW20_INSTANTIATE_REPLY_ID: u64 = 1;

/// The state of the curve. An operation takes it by mutable reference and
/// either succeeds, or fails and leaves it as it was.
pub struct State {
    /// The pool.
    pub curve: Curve,
    /// The quote units the pool was created with, which nobody paid in and
    /// nobody can take out.
    pub quote_reserve_virtual: u128,
    /// The asset that buyers pay in.
    pub quote_token: Token,
    /// The asset that the curve sells, once its token contract exists.
    pub base_token: Option<Token>,
    /// The account that alone may swap, and for others, where one is set.
    pub operator_addr: Option<String>,
    /// The account that receives the fees.
    pub fee_addr: String,
    /// The buy-side fee, in parts per million.
    pub fee_pct_buy: u128,
    /// The sell-side fee, in parts per million.
    pub fee_pct_sell: u128,
    /// The candlesticks, by the second at which their bucket starts.
    pub ohlc_bars: BTreeMap<u64, OhlcBar>,
    /// The statistics of every account that has been touched.
    pub account_stats: AccountBook,
    /// All buy-side fees ever taken.
    pub net_taker_fee: u128,
    /// All sell-side fees ever taken.
    pub net_maker_fee: u128,
    /// The buys.
    pub taker_stats: SwapStats,
    /// The sells.
    pub maker_stats: SwapStats,
}

/// The label given to the base asset's token contract.
pub open spec fn spec_token_label(symbol: Seq<char>) -> Seq<char> {
    symbol + " CW20 Pro Token"@
}

/// A fee fraction as it is stored: at most the whole.
pub open spec fn spec_clamp_pct(pct: u128) -> u128 {
    if pct > PCT_SCALE {
        PCT_SCALE
    } else {
        pct
    }
}

impl State {
    /// Neither fee is more than the whole.
    pub open spec fn wf(self) -> bool {
        &&& self.fee_pct_buy <= PCT_SCALE
        &&& self.fee_pct_sell <= PCT_SCALE
    }

    /// The statistics of `account`: the record kept for it, or the all-zero
    /// record where none is kept.
    pub open spec fn spec_stats_of(self, account: Seq<char>) -> AccountStats {
        spec_stats_of(self.account_stats@, account)
    }

    /// The state of a curve created by `msg`: the pool holds the two
    /// reserves and their exact product, the fees are clamped to the whole,
    /// nothing has been traded, and the base asset is still to be created.
    pub open spec fn is_initial(self, msg: InstantiateMsg) -> bool {
        &&& self.curve.k@ == msg.base_reserve as nat * msg.quote_reserve as nat
        &&& self.curve.base_reserve == msg.base_reserve
        &&& self.curve.base_decimals == msg.base_token.decimals
        &&& self.curve.quote_reserve == msg.quote_reserve
        &&& self.curve.quote_decimals == msg.quote_token.decimals
        &&& self.quote_reserve_virtual == msg.quote_reserve
        &&& self.quote_token@ == msg.quote_token.token@
        &&& self.base_token is None
        &&& opt_view(self.operator_addr) == opt_view(msg.operator_addr)
        &&& self.fee_addr@ == msg.fee_addr@
        &&& self.fee_pct_buy == spec_clamp_pct(msg.taker_fee_pct)
        &&& self.fee_pct_sell == spec_clamp_pct(msg.maker_fee_pct)
        &&& self.ohlc_bars@ == Map::<u64, OhlcBar>::empty()
        &&& self.account_stats@ == Map::<Seq<char>, AccountStats>::empty()
        &&& self.net_taker_fee == 0
        &&& self.net_maker_fee == 0
        &&& self.taker_stats@ == SwapStatsView::empty()
        &&& self.maker_stats@ == SwapStatsView::empty()
    }

    /// Everything but the base asset is as in `before`.
    pub open spec fn same_but_base_token(self, before: State) -> bool {
        &&& self.curve == before.curve
        &&& self.quote_reserve_virtual == before.quote_reserve_virtual
        &&& self.quote_token == before.quote_token
        &&& self.operator_addr == before.operator_addr
        &&& self.fee_addr == before.fee_addr
        &&& self.fee_pct_buy == before.fee_pct_buy
        &&& self.fee_pct_sell == before.fee_pct_sell
        &&& self.ohlc_bars == before.ohlc_bars
        &&& self.account_stats == before.account_stats
        &&& self.net_taker_fee == before.net_taker_fee
        &&& self.net_maker_fee == before.net_maker_fee
        &&& self.taker_stats == before.taker_stats
        &&& self.maker_stats == before.maker_stats
    }
}

/// What creating a curve hands back: that it was instantiated, and the
/// request to create the base asset's token contract from `token_msg`, with
/// the curve as its administrator.
pub open spec fn spec_init_response(ctx: Context, msg: InstantiateMsg, token_msg: Seq<u8>) -> ResponseView {
    ResponseView {
        action: Some(Action::Instantiate),
        trade: None,
        messages: seq![
            SubMsgView::Instantiate(
                TokenInstantiationView {
                    admin: ctx.contract_addr@,
                    code_id: msg.base_token.code_id,
                    msg: token_msg,
                    label: spec_token_label(msg.base_token.symbol@),
                    reply_id: CW20_INSTANTIATE_REPLY_ID,
                },
            ),
        ],
    }
}

/// The token contract's instantiation message for the curve that `msg`
/// creates at `ctx.contract_addr`: the curve holds the whole initial
/// supply, which is the base reserve, and is minter and marketing account.
pub open spec fn spec_token_msg(ctx: Context, msg: InstantiateMsg) -> Result<Seq<u8>, Seq<char>> {
    cw20_instantiate_json(
        msg.base_token.name@,
        msg.base_token.symbol@,
        msg.base_token.decimals,
        opt_view(msg.base_token.description),
        opt_view(msg.base_token.image_url),
        opt_view(msg.base_token.project_url),
        msg.base_token.cap,
        ctx.contract_addr@,
        msg.base_reserve,
    )
}

/// Creates the state of a new curve, given the encoded instantiation
/// message of the base asset's token contract, or the reason why it could
/// not be encoded.
pub fn init_with_token_msg(
    ctx: Context,
    msg: InstantiateMsg,
    token_msg: Result<Vec<u8>, String>,
) -> (r: Result<(State, Response), ContractError>)
    ensures
        match encoded_view(token_msg) {
            Ok(bytes) => {
                &&& r is Ok
                &&& r->Ok_0.0.is_initial(msg)
                &&& r->Ok_0.0.wf()
                &&& r->Ok_0.1@ == spec_init_response(ctx, msg, bytes)
            },
            Err(e) => r is Err && r->Err_0@ == (ContractErrorView::ValidationError { reason: e }),
        },
{
    let token_msg = match token_msg {
        Ok(bytes) => bytes,
        Err(reason) => {
            return Err(ContractError::ValidationError { reason });
        },
    };
    let fee_pct_buy: u128 = if msg.taker_fee_pct > PCT_SCALE {
        PCT_SCALE
    } else {
        msg.taker_fee_pct
    };
    let fee_pct_sell: u128 = if msg.maker_fee_pct > PCT_SCALE {
        PCT_SCALE
    } else {
        msg.maker_fee_pct
    };
    let mut label = msg.base_token.symbol.clone();
    label.append(" CW20 Pro Token");
    let request = SubMsg::Instantiate(
        TokenInstantiation {
            admin: ctx.contract_addr,
            code_id: msg.base_token.code_id,
            msg: token_msg,
            label,
            reply_id: CW20_INSTANTIATE_REPLY_ID,
        },
    );
    let response = Response::of_action(Action::Instantiate).add_submessage(request);
    let state = State {
        curve: Curve {
            k: mul_u256(msg.base_reserve, msg.quote_reserve),
            base_reserve: msg.base_reserve,
            base_decimals: msg.base_token.decimals,
            quote_reserve: msg.quote_reserve,
            quote_decimals: msg.quote_token.decimals,
        },
        quote_reserve_virtual: msg.quote_reserve,
        quote_token: msg.quote_token.token,
        base_token: None,
        operator_addr: msg.operator_addr,
        fee_addr: msg.fee_addr,
        fee_pct_buy,
        fee_pct_sell,
        ohlc_bars: BTreeMap::new(),
        account_stats: AccountBook::new(),
        net_taker_fee: 0,
        net_maker_fee: 0,
        taker_stats: SwapStats::default(),
        maker_stats: SwapStats::default(),
    };
    assert(response@.messages =~= spec_init_response(ctx, msg, token_msg@).messages);
    Ok((state, response))
}

/// Creates the state of a new curve and asks the host to create the base
/// asset's token contract, which will hold the base reserve as its whole
/// supply.
pub fn init(ctx: Context, msg: InstantiateMsg) -> (r: Result<(State, Response), ContractError>)
    ensures
        match spec_token_msg(ctx, msg) {
            Ok(bytes) => {
                &&& r is Ok
                &&& r->Ok_0.0.is_initial(msg)
                &&& r->Ok_0.0.wf()
                &&& r->Ok_0.1@ == spec_init_response(ctx, msg, bytes)
            },
            Err(e) => r is Err && r->Err_0@ == (ContractErrorView::ValidationError { reason: e }),
        },
{
    let token_msg = encode_cw20_instantiate(&msg.base_token, &ctx.contract_addr, msg.base_reserve);
    init_with_token_msg(ctx, msg, token_msg)
}

/// Takes note of the address at which the base asset's token contract was
/// created, or refuses with the reason why the host's report could not be
/// read.
pub fn set_base_token(state: &mut State, address: Result<String, String>) -> (r: Result<
    (),
    ContractError,
>)
    ensures
        match decoded_view(address) {
            Ok(a) => {
                &&& r is Ok
                &&& final(state).base_token is Some
                &&& final(state).base_token->0@ == TokenView::Address(a)
                &&& final(state).same_but_base_token(*old(state))
            },
            Err(e) => {
                &&& r is Err
                &&& r->Err_0@ == (ContractErrorView::ValidationError { reason: e })
                &&& *final(state) == *old(state)
            },
        },
{
    match address {
        Ok(a) => {
            state.base_token = Some(Token::Address(a));
            Ok(())
        },
        Err(reason) => Err(ContractError::ValidationError { reason }),
    }
}

/// Reads from the host's report the address at which the base asset's
/// token contract was created, and takes note of it.
pub fn handle_cw20_instantiate_reply(state: &mut State, reply: &Reply) -> (r: Result<
    (),
    ContractError,
>)
    ensures
        match reply_instantiate_address(reply.id, reply_result_view(reply.result)) {
            Ok(a) => {
                &&& r is Ok
                &&& final(state).base_token is Some
                &&& final(state).base_token->0@ == TokenView::Address(a)
                &&& final(state).same_but_base_token(*old(state))
            },
            Err(e) => {
                &&& r is Err
                &&& r->Err_0@ == (ContractErrorView::ValidationError { reason: e })
                &&& *final(state) == *old(state)
            },
        },
{
    let address = parse_reply_instantiate_data(reply);
    set_base_token(state, address)
}

} // verus!
