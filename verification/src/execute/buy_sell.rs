//! Buying and selling: one swap against the curve, with its fee, its
//! slippage bound, its authorization and its bookkeeping, all or nothing.

use vstd::prelude::*;
use vstd::string::*;
use crate::context::Context;
use crate::curve::Curve;
use crate::error::{ContractError, ContractErrorView};
use crate::math::{
    add_u128, mul_pct_u128, spec_add_u128, spec_mul_pct_u128, spec_sub_u128, sub_u128,
};
use crate::models::account::{AccountStats, SwapStatsView};
use crate::models::ohlc::{spec_bucket_start, OhlcBar};
use crate::msg::{BuyMsg, SellMsg};
use crate::response::{Action, Response, ResponseView, SubMsg, SubMsgView, TradeReceipt};
use crate::state::State;
use crate::token::{spec_find_in_funds, Coin, Token, TokenView, TransferView};
use crate::utils::{opt_view, resolve_swap_initiator, spec_resolve_swap_initiator};

verus! {

/// Everything that a swap decides, before any of it is written.
pub struct SwapPlan {
    /// The fee taken.
    pub fee_amount: u128,
    /// The lifetime fee total of the swap's side, the fee included.
    pub net_fee: u128,
    /// The pool after the swap.
    pub curve: Curve,
    /// What the trader pays, before any fee on the way in.
    pub in_amount: u128,
    /// What the trader receives, after any fee on the way out.
    pub out_amount: u128,
    /// The account the swap is made for.
    pub initiator: Seq<char>,
    /// That account's statistics after the swap.
    pub account: AccountStats,
    /// The statistics of the swap's side after the swap.
    pub swaps: SwapStatsView,
    /// The second at which the swap's bucket starts.
    pub bucket: u64,
    /// The candlestick of that bucket after the swap.
    pub bar: OhlcBar,
    /// What the swap hands back.
    pub response: ResponseView,
}

/// What a buy comes to at the curve, before the caller's bound is applied.
pub struct BuyFill {
    /// What the buyer pays, before the fee.
    pub gross: u128,
    /// The fee taken from it.
    pub fee_amount: u128,
    /// The lifetime taker fee total, the fee included.
    pub net_fee: u128,
    /// What goes into the curve.
    pub in_amount: u128,
    /// The pool after the buy.
    pub curve: Curve,
    /// The base units the curve gives.
    pub out_amount: u128,
}

/// What a sell comes to at the curve and after the fee.
pub struct SellFill {
    /// The fee taken from the curve's output.
    pub fee_amount: u128,
    /// The lifetime maker fee total, the fee included.
    pub net_fee: u128,
    /// The pool after the sell.
    pub curve: Curve,
    /// The quote units left to the seller.
    pub out_amount: u128,
}

/// Whether an output of `out_amount` falls short of the caller's bound.
pub open spec fn spec_below_bound(min_out_amount: Option<u128>, out_amount: u128) -> bool {
    min_out_amount is Some && out_amount < min_out_amount->0
}

/// The amount that a buy brings in, before the fee.
///
/// An announced amount stands, unless the asset is attached in another
/// amount. Where none is announced, the attached amount of the asset is
/// taken, and must be there.
pub open spec fn spec_gross_input(token: TokenView, funds: Seq<Coin>, amount: Option<u128>) -> Result<
    u128,
    ContractErrorView,
> {
    match (amount, spec_find_in_funds(token, funds)) {
        (Some(announced), Some(attached)) => if attached != announced {
            Err(
                ContractErrorView::InsufficientFunds {
                    denom: token.name(),
                    amount: attached,
                    exp_amount: announced,
                },
            )
        } else {
            Ok(announced)
        },
        (Some(announced), None) => Ok(announced),
        (None, Some(attached)) => Ok(attached),
        (None, None) => Err(ContractErrorView::MissingFunds { denom: token.name() }),
    }
}

/// What the host is asked to do after a swap: pay the fee to the fee
/// account, unless the fee is zero, then pay the trader.
pub open spec fn spec_swap_messages(
    fee_token: TokenView,
    fee_addr: Seq<char>,
    fee_amount: u128,
    out_token: TokenView,
    initiator: Seq<char>,
    out_amount: u128,
) -> Seq<SubMsgView> {
    let payout = SubMsgView::Transfer(
        TransferView { token: out_token, recipient: initiator, amount: out_amount },
    );
    if fee_amount != 0 {
        seq![
            SubMsgView::Transfer(
                TransferView { token: fee_token, recipient: fee_addr, amount: fee_amount },
            ),
            payout,
        ]
    } else {
        seq![payout]
    }
}

/// What a swap hands back: its name, its amounts, and the transfers for the
/// host.
pub open spec fn spec_swap_response(
    action: Action,
    in_amount: u128,
    out_amount: u128,
    messages: Seq<SubMsgView>,
) -> ResponseView {
    ResponseView {
        action: Some(action),
        trade: Some(TradeReceipt { in_amount, out_amount }),
        messages,
    }
}

/// The bookkeeping that follows the curve in a buy: the buyer is resolved,
/// the buyer's account, the buy statistics and the candlestick are brought
/// up to date, in this order, and the response is put together.
pub open spec fn spec_book_buy(state: State, ctx: Context, msg: BuyMsg, fill: BuyFill) -> Result<
    SwapPlan,
    ContractErrorView,
> {
    let BuyFill { gross, fee_amount, net_fee, in_amount, curve, out_amount } = fill;
    match spec_resolve_swap_initiator(
        opt_view(state.operator_addr),
        ctx.sender@,
        opt_view(msg.initiator),
        Action::Buy.spec_name(),
    ) {
        Err(e) => Err(e),
        Ok(initiator) => match state.spec_stats_of(initiator).spec_record_buy(
            in_amount,
            out_amount,
        ) {
            Err(e) => Err(ContractErrorView::Arithmetic(e)),
            Ok(account) => match state.taker_stats@.spec_record(out_amount, initiator, ctx.time) {
                Err(e) => Err(ContractErrorView::Arithmetic(e)),
                Ok(swaps) => match curve.spec_quote_price() {
                    Err(e) => Err(ContractErrorView::Arithmetic(e)),
                    Ok(price) => match OhlcBar::spec_upsert(
                        state.ohlc_bars@,
                        ctx.time,
                        price,
                        out_amount,
                        in_amount,
                    ) {
                        Err(e) => Err(ContractErrorView::Arithmetic(e)),
                        Ok(bar) => Ok(
                            SwapPlan {
                                fee_amount,
                                net_fee,
                                curve,
                                in_amount: gross,
                                out_amount,
                                initiator,
                                account,
                                swaps,
                                bucket: spec_bucket_start(ctx.time.spec_seconds()),
                                bar,
                                response: spec_swap_response(
                                    Action::Buy,
                                    gross,
                                    out_amount,
                                    spec_swap_messages(
                                        state.quote_token@,
                                        state.fee_addr@,
                                        fee_amount,
                                        state.base_token->0@,
                                        initiator,
                                        out_amount,
                                    ),
                                ),
                            },
                        ),
                    },
                },
            },
        },
    }
}

/// What a buy comes to at the curve, or the error it ends in before the
/// caller's bound is applied.
///
/// The base asset must exist. The gross input is determined; the buy-side
/// fee is taken from it and added to the lifetime total; the rest goes into
/// the curve. The first step that fails decides the error.
pub open spec fn spec_fill_buy(state: State, ctx: Context, amount: Option<u128>) -> Result<
    BuyFill,
    ContractErrorView,
> {
    if state.base_token is None {
        Err(ContractErrorView::NotFound { kind: "base_token"@ })
    } else {
        match spec_gross_input(state.quote_token@, ctx.funds@, amount) {
            Err(e) => Err(e),
            Ok(gross) => match spec_mul_pct_u128(gross, state.fee_pct_buy) {
                Err(e) => Err(ContractErrorView::Arithmetic(e)),
                Ok(fee_amount) => match spec_add_u128(state.net_taker_fee, fee_amount) {
                    Err(e) => Err(ContractErrorView::Arithmetic(e)),
                    Ok(net_fee) => match spec_sub_u128(gross, fee_amount) {
                        Err(e) => Err(ContractErrorView::Arithmetic(e)),
                        Ok(in_amount) => match state.curve.spec_buy(in_amount) {
                            Err(e) => Err(ContractErrorView::Arithmetic(e)),
                            Ok(quote) => Ok(
                                BuyFill {
                                    gross,
                                    fee_amount,
                                    net_fee,
                                    in_amount,
                                    curve: quote.curve,
                                    out_amount: quote.out_amount,
                                },
                            ),
                        },
                    },
                },
            },
        }
    }
}

/// What a buy decides, or the error it ends in: the buy is brought to the
/// curve, its output must reach the caller's bound, and the books are
/// brought up to date. The first step that fails decides the error.
pub open spec fn spec_plan_buy(state: State, ctx: Context, msg: BuyMsg, amount: Option<u128>) -> Result<
    SwapPlan,
    ContractErrorView,
> {
    match spec_fill_buy(state, ctx, amount) {
        Err(e) => Err(e),
        Ok(fill) => if spec_below_bound(msg.min_out_amount, fill.out_amount) {
            Err(ContractErrorView::TooMuchSlippage)
        } else {
            spec_book_buy(state, ctx, msg, fill)
        },
    }
}

/// The bookkeeping that follows the curve and the fee in a sell: the seller
/// is resolved, the seller's account, the sell statistics and the
/// candlestick are brought up to date, in this order, and the response is
/// put together.
pub open spec fn spec_book_sell(
    state: State,
    ctx: Context,
    msg: SellMsg,
    in_amount: u128,
    fill: SellFill,
) -> Result<SwapPlan, ContractErrorView> {
    let SellFill { fee_amount, net_fee, curve, out_amount } = fill;
    match spec_resolve_swap_initiator(
        opt_view(state.operator_addr),
        ctx.sender@,
        opt_view(msg.initiator),
        Action::Sell.spec_name(),
    ) {
        Err(e) => Err(e),
        Ok(initiator) => match state.spec_stats_of(initiator).spec_record_sell(
            in_amount,
            out_amount,
        ) {
            Err(e) => Err(ContractErrorView::Arithmetic(e)),
            Ok(account) => match state.maker_stats@.spec_record(in_amount, initiator, ctx.time) {
                Err(e) => Err(ContractErrorView::Arithmetic(e)),
                Ok(swaps) => match curve.spec_quote_price() {
                    Err(e) => Err(ContractErrorView::Arithmetic(e)),
                    Ok(price) => match OhlcBar::spec_upsert(
                        state.ohlc_bars@,
                        ctx.time,
                        price,
                        in_amount,
                        out_amount,
                    ) {
                        Err(e) => Err(ContractErrorView::Arithmetic(e)),
                        Ok(bar) => Ok(
                            SwapPlan {
                                fee_amount,
                                net_fee,
                                curve,
                                in_amount,
                                out_amount,
                                initiator,
                                account,
                                swaps,
                                bucket: spec_bucket_start(ctx.time.spec_seconds()),
                                bar,
                                response: spec_swap_response(
                                    Action::Sell,
                                    in_amount,
                                    out_amount,
                                    spec_swap_messages(
                                        state.quote_token@,
                                        state.fee_addr@,
                                        fee_amount,
                                        state.quote_token@,
                                        initiator,
                                        out_amount,
                                    ),
                                ),
                            },
                        ),
                    },
                },
            },
        },
    }
}

/// What a sell comes to at the curve and after the fee, or the error it
/// ends in.
///
/// The amount goes into the curve, whose output must reach the caller's
/// bound; the sell-side fee is taken from that output and added to the
/// lifetime total. The first step that fails decides the error.
pub open spec fn spec_fill_sell(state: State, min_out_amount: Option<u128>, amount: u128) -> Result<
    SellFill,
    ContractErrorView,
> {
    match state.curve.spec_sell(amount) {
        Err(e) => Err(ContractErrorView::Arithmetic(e)),
        Ok(quote) => if spec_below_bound(min_out_amount, quote.out_amount) {
            Err(ContractErrorView::TooMuchSlippage)
        } else {
            match spec_mul_pct_u128(quote.out_amount, state.fee_pct_sell) {
                Err(e) => Err(ContractErrorView::Arithmetic(e)),
                Ok(fee_amount) => match spec_add_u128(state.net_maker_fee, fee_amount) {
                    Err(e) => Err(ContractErrorView::Arithmetic(e)),
                    Ok(net_fee) => match spec_sub_u128(quote.out_amount, fee_amount) {
                        Err(e) => Err(ContractErrorView::Arithmetic(e)),
                        Ok(out_amount) => Ok(
                            SellFill { fee_amount, net_fee, curve: quote.curve, out_amount },
                        ),
                    },
                },
            }
        },
    }
}

/// What a sell decides, or the error it ends in: the sell is brought to the
/// curve and the fee is taken, then the books are brought up to date. The
/// first step that fails decides the error.
pub open spec fn spec_plan_sell(state: State, ctx: Context, msg: SellMsg, amount: u128) -> Result<
    SwapPlan,
    ContractErrorView,
> {
    match spec_fill_sell(state, msg.min_out_amount, amount) {
        Err(e) => Err(e),
        Ok(fill) => spec_book_sell(state, ctx, msg, amount, fill),
    }
}

impl State {
    /// What a swap leaves untouched: the configuration and the virtual
    /// reserve.
    pub open spec fn same_settings(self, before: State) -> bool {
        &&& self.quote_reserve_virtual == before.quote_reserve_virtual
        &&& self.quote_token == before.quote_token
        &&& self.base_token == before.base_token
        &&& self.operator_addr == before.operator_addr
        &&& self.fee_addr == before.fee_addr
        &&& self.fee_pct_buy == before.fee_pct_buy
        &&& self.fee_pct_sell == before.fee_pct_sell
    }

    /// The state that the buy planned as `plan` leaves of `before`: the
    /// pool, the taker fee total, the buyer's account, the buy statistics
    /// and the candlestick of the bucket are as planned, and nothing else
    /// has changed.
    pub open spec fn is_after_buy(self, before: State, plan: SwapPlan) -> bool {
        &&& self.same_settings(before)
        &&& self.curve == plan.curve
        &&& self.net_taker_fee == plan.net_fee
        &&& self.net_maker_fee == before.net_maker_fee
        &&& self.account_stats@ == before.account_stats@.insert(plan.initiator, plan.account)
        &&& self.taker_stats@ == plan.swaps
        &&& self.maker_stats == before.maker_stats
        &&& self.ohlc_bars@ == before.ohlc_bars@.insert(plan.bucket, plan.bar)
    }

    /// The state that the sell planned as `plan` leaves of `before`: the
    /// pool, the maker fee total, the seller's account, the sell statistics
    /// and the candlestick of the bucket are as planned, and nothing else
    /// has changed.
    pub open spec fn is_after_sell(self, before: State, plan: SwapPlan) -> bool {
        &&& self.same_settings(before)
        &&& self.curve == plan.curve
        &&& self.net_maker_fee == plan.net_fee
        &&& self.net_taker_fee == before.net_taker_fee
        &&& self.account_stats@ == before.account_stats@.insert(plan.initiator, plan.account)
        &&& self.maker_stats@ == plan.swaps
        &&& self.taker_stats == before.taker_stats
        &&& self.ohlc_bars@ == before.ohlc_bars@.insert(plan.bucket, plan.bar)
    }
}

/// That a buy on `before` ended in `after` and `r`: where the plan stands,
/// in the state it describes and with its response; where it fails, in the
/// state as it was and with the plan's error.
pub open spec fn is_buy_outcome(
    before: State,
    after: State,
    ctx: Context,
    msg: BuyMsg,
    amount: Option<u128>,
    r: Result<Response, ContractError>,
) -> bool {
    match spec_plan_buy(before, ctx, msg, amount) {
        Ok(plan) => {
            &&& r is Ok
            &&& r->Ok_0@ == plan.response
            &&& after.is_after_buy(before, plan)
        },
        Err(e) => {
            &&& r is Err
            &&& r->Err_0@ == e
            &&& after == before
        },
    }
}

/// That a sell on `before` ended in `after` and `r`: where the plan stands,
/// in the state it describes and with its response; where it fails, in the
/// state as it was and with the plan's error.
pub open spec fn is_sell_outcome(
    before: State,
    after: State,
    ctx: Context,
    msg: SellMsg,
    amount: u128,
    r: Result<Response, ContractError>,
) -> bool {
    match spec_plan_sell(before, ctx, msg, amount) {
        Ok(plan) => {
            &&& r is Ok
            &&& r->Ok_0@ == plan.response
            &&& after.is_after_sell(before, plan)
        },
        Err(e) => {
            &&& r is Err
            &&& r->Err_0@ == e
            &&& after == before
        },
    }
}

/// Determines the amount that a buy brings in, before the fee: the
/// announced amount, or else the amount of the quote asset among the funds.
pub fn gross_input(quote_token: &Token, funds: &Vec<Coin>, amount: Option<u128>) -> (r: Result<
    u128,
    ContractError,
>)
    ensures
        match spec_gross_input(quote_token@, funds@, amount) {
            Ok(gross) => r == Ok::<u128, ContractError>(gross),
            Err(e) => r is Err && r->Err_0@ == e,
        },
{
    match (amount, quote_token.find_in_funds(funds)) {
        (Some(announced), Some(attached)) => {
            if attached != announced {
                Err(
                    ContractError::InsufficientFunds {
                        denom: quote_token.name(),
                        amount: attached,
                        exp_amount: announced,
                    },
                )
            } else {
                Ok(announced)
            }
        },
        (Some(announced), None) => Ok(announced),
        (None, Some(attached)) => Ok(attached),
        (None, None) => Err(ContractError::MissingFunds { denom: quote_token.name() }),
    }
}

/// The request to pay the fee to the fee account, unless the fee is zero.
pub fn build_fee_transfer_submsg(fee_addr: &String, quote_token: &Token, fee_amount: u128) -> (r:
    Option<SubMsg>)
    ensures
        fee_amount == 0 ==> r is None,
        fee_amount != 0 ==> r is Some && r->0@ == SubMsgView::Transfer(
            TransferView { token: quote_token@, recipient: fee_addr@, amount: fee_amount },
        ),
{
    if fee_amount != 0 {
        Some(SubMsg::Transfer(quote_token.transfer(fee_addr, fee_amount)))
    } else {
        None
    }
}

/// Puts together what a swap hands back.
fn swap_response(
    action: Action,
    in_amount: u128,
    out_amount: u128,
    fee_token: &Token,
    fee_addr: &String,
    fee_amount: u128,
    out_token: &Token,
    initiator: &String,
) -> (r: Response)
    ensures
        r@ == spec_swap_response(
            action,
            in_amount,
            out_amount,
            spec_swap_messages(
                fee_token@,
                fee_addr@,
                fee_amount,
                out_token@,
                initiator@,
                out_amount,
            ),
        ),
{
    let mut messages: Vec<SubMsg> = Vec::new();
    if let Some(fee_msg) = build_fee_transfer_submsg(fee_addr, fee_token, fee_amount) {
        messages.push(fee_msg);
    }
    messages.push(SubMsg::Transfer(out_token.transfer(initiator, out_amount)));
    let r = Response {
        action: Some(action),
        trade: Some(TradeReceipt { in_amount, out_amount }),
        messages,
    };
    assert(r@.messages =~= spec_swap_messages(
        fee_token@,
        fee_addr@,
        fee_amount,
        out_token@,
        initiator@,
        out_amount,
    ));
    r
}

/// Buys base units with quote units.
///
/// `amount` is the quote amount where the caller announces it; with none,
/// it is read from the funds attached to the call. On success the state is
/// the one that the plan describes and the response asks for the fee and
/// the purchase to be paid out. On any failure the state is left as it was.
pub fn exec_buy(state: &mut State, ctx: Context, msg: BuyMsg, amount: Option<u128>) -> (r: Result<
    Response,
    ContractError,
>)
    ensures
        is_buy_outcome(*old(state), *final(state), ctx, msg, amount, r),
{
    let base_token = match &state.base_token {
        Some(token) => token.clone(),
        None => {
            return Err(ContractError::NotFound { kind: String::from_str("base_token") });
        },
    };
    let in_amount_pre_fee: u128 = gross_input(&state.quote_token, &ctx.funds, amount)?;
    let fee_amount: u128 = mul_pct_u128(in_amount_pre_fee, state.fee_pct_buy)?;
    let net_fee: u128 = add_u128(state.net_taker_fee, fee_amount)?;
    let in_amount: u128 = sub_u128(in_amount_pre_fee, fee_amount)?;

    let mut curve = state.curve;
    let out_amount: u128 = curve.buy(in_amount, msg.min_out_amount)?;

    let initiator = resolve_swap_initiator(
        &state.operator_addr,
        &ctx.sender,
        &msg.initiator,
        Action::Buy.name(),
    )?;
    let account = state.account_stats.stats_of(initiator.as_str()).record_buy(in_amount, out_amount)?;
    let swaps = state.taker_stats.record(out_amount, &initiator, ctx.time)?;
    let price: u128 = curve.calculate_quote_price()?;
    let response = swap_response(
        Action::Buy,
        in_amount_pre_fee,
        out_amount,
        &state.quote_token,
        &state.fee_addr,
        fee_amount,
        &base_token,
        &initiator,
    );
    let bar = OhlcBar::upsert(&mut state.ohlc_bars, ctx.time, price, out_amount, in_amount)?;

    state.curve = curve;
    state.net_taker_fee = net_fee;
    state.account_stats.insert(initiator, account);
    state.taker_stats = swaps;
    Ok(response)
}

/// Sells `amount` base units for quote units.
///
/// On success the state is the one that the plan describes and the response
/// asks for the fee and the proceeds to be paid out. On any failure the
/// state is left as it was.
pub fn exec_sell(state: &mut State, ctx: Context, msg: SellMsg, amount: u128) -> (r: Result<
    Response,
    ContractError,
>)
    ensures
        is_sell_outcome(*old(state), *final(state), ctx, msg, amount, r),
{
    let in_amount: u128 = amount;
    let mut curve = state.curve;
    let out_amount_pre_fee: u128 = curve.sell(in_amount, msg.min_out_amount)?;
    let fee_amount: u128 = mul_pct_u128(out_amount_pre_fee, state.fee_pct_sell)?;
    let net_fee: u128 = add_u128(state.net_maker_fee, fee_amount)?;
    let out_amount: u128 = sub_u128(out_amount_pre_fee, fee_amount)?;

    let initiator = resolve_swap_initiator(
        &state.operator_addr,
        &ctx.sender,
        &msg.initiator,
        Action::Sell.name(),
    )?;
    let account = state.account_stats.stats_of(initiator.as_str()).record_sell(in_amount, out_amount)?;
    let swaps = state.maker_stats.record(in_amount, &initiator, ctx.time)?;
    let price: u128 = curve.calculate_quote_price()?;
    let response = swap_response(
        Action::Sell,
        in_amount,
        out_amount,
        &state.quote_token,
        &state.fee_addr,
        fee_amount,
        &state.quote_token,
        &initiator,
    );
    let bar = OhlcBar::upsert(&mut state.ohlc_bars, ctx.time, price, in_amount, out_amount)?;

    state.curve = curve;
    state.net_maker_fee = net_fee;
    state.account_stats.insert(initiator, account);
    state.maker_stats = swaps;
    Ok(response)
}

} // verus!
