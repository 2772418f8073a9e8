//! What holds of the operations taken together: of histories of swaps, of
//! the gates that a swap passes, of candlestick buckets and of the cost
//! basis.

use vstd::prelude::*;
use crate::context::{Context, Timestamp};
use crate::contract::is_execute_outcome;
use crate::curve::{lemma_buy_keeps_product, lemma_sell_keeps_product, Curve};
use crate::error::{ArithmeticError, ContractError, ContractErrorView};
use crate::execute::buy_sell::{
    is_buy_outcome, is_sell_outcome, spec_below_bound, spec_fill_buy, spec_fill_sell,
    spec_plan_buy, spec_plan_sell,
};
use crate::execute::on_balance_change::is_balance_change_outcome;
use crate::math::PCT_SCALE;
use crate::models::ohlc::{spec_bucket_start, OhlcBar, BUCKET_SECONDS};
use crate::msg::{BalanceChangeEvent, BalanceChangeMsg, BuyMsg, ExecuteMsg, SellMsg};
use crate::response::{Action, Response};
use crate::state::State;
use crate::utils::{spec_not_operator_reason, spec_resolve_swap_initiator};

verus! {

/// A swap at the curve.
pub enum CurveOp {
    /// Quote units in.
    Buy(u128),
    /// Base units in.
    Sell(u128),
}

/// The pool after `op`, where the curve accepts it.
pub open spec fn spec_apply(curve: Curve, op: CurveOp) -> Option<Curve> {
    match op {
        CurveOp::Buy(in_amount) => match curve.spec_buy(in_amount) {
            Ok(quote) => Some(quote.curve),
            Err(_) => None,
        },
        CurveOp::Sell(in_amount) => match curve.spec_sell(in_amount) {
            Ok(quote) => Some(quote.curve),
            Err(_) => None,
        },
    }
}

/// The pool after `ops`, one after the other, where the curve accepts them
/// all.
pub open spec fn spec_run(curve: Curve, ops: Seq<CurveOp>) -> Option<Curve>
    decreases ops.len(),
{
    if ops.len() == 0 {
        Some(curve)
    } else {
        match spec_run(curve, ops.drop_last()) {
            None => None,
            Some(before) => spec_apply(before, ops.last()),
        }
    }
}

/// No history of swaps changes `k`.
pub proof fn lemma_run_keeps_k(curve: Curve, ops: Seq<CurveOp>)
    requires
        spec_run(curve, ops) is Some,
    ensures
        spec_run(curve, ops)->0.k == curve.k,
    decreases ops.len(),
{
    if ops.len() > 0 {
        lemma_run_keeps_k(curve, ops.drop_last());
    }
}

/// After every swap of every history that the curve accepts, the product of
/// the reserves is at most `k`. It falls short of `k` by less than the
/// quote reserve after a buy, and by less than the base reserve after a
/// sell.
pub proof fn lemma_run_keeps_product(curve: Curve, ops: Seq<CurveOp>)
    requires
        ops.len() > 0,
        spec_run(curve, ops) is Some,
    ensures
        ({
            let after = spec_run(curve, ops)->0;
            &&& after.k == curve.k
            &&& after.product() <= after.k@
            &&& ops.last() is Buy ==> after.k@ - after.product() < after.quote_reserve
            &&& ops.last() is Sell ==> after.k@ - after.product() < after.base_reserve
        }),
{
    lemma_run_keeps_k(curve, ops);
    let before = spec_run(curve, ops.drop_last())->0;
    match ops.last() {
        CurveOp::Buy(in_amount) => lemma_buy_keeps_product(before, in_amount),
        CurveOp::Sell(in_amount) => lemma_sell_keeps_product(before, in_amount),
    }
}

/// A successful buy leaves the pool with the same `k` and with a product of
/// the reserves that is at most `k` and falls short of it by less than the
/// quote reserve.
pub proof fn lemma_buy_keeps_product_in_state(
    before: State,
    after: State,
    ctx: Context,
    msg: BuyMsg,
    amount: Option<u128>,
    r: Result<Response, ContractError>,
)
    requires
        is_buy_outcome(before, after, ctx, msg, amount, r),
        r is Ok,
    ensures
        after.curve.k == before.curve.k,
        after.curve.product() <= after.curve.k@,
        after.curve.k@ - after.curve.product() < after.curve.quote_reserve,
{
    let fill = spec_fill_buy(before, ctx, amount)->Ok_0;
    lemma_buy_keeps_product(before.curve, fill.in_amount);
}

/// A successful sell leaves the pool with the same `k` and with a product
/// of the reserves that is at most `k` and falls short of it by less than
/// the base reserve.
pub proof fn lemma_sell_keeps_product_in_state(
    before: State,
    after: State,
    ctx: Context,
    msg: SellMsg,
    amount: u128,
    r: Result<Response, ContractError>,
)
    requires
        is_sell_outcome(before, after, ctx, msg, amount, r),
        r is Ok,
    ensures
        after.curve.k == before.curve.k,
        after.curve.product() <= after.curve.k@,
        after.curve.k@ - after.curve.product() < after.curve.base_reserve,
{
    lemma_sell_keeps_product(before.curve, amount);
}

/// A buy as it is called.
pub struct BuyCall {
    pub ctx: Context,
    pub msg: BuyMsg,
    pub amount: Option<u128>,
}

/// The sum of the fees on `inputs` at `pct` parts per million, each rounded
/// down.
pub open spec fn spec_fee_total(inputs: Seq<u128>, pct: u128) -> nat
    decreases inputs.len(),
{
    if inputs.len() == 0 {
        0
    } else {
        spec_fee_total(inputs.drop_last(), pct) + ((inputs.last() * pct) / (
        PCT_SCALE as int)) as nat
    }
}

/// That `call` on `before` succeeds with gross input `gross` and leaves
/// `after`.
pub open spec fn is_buy_step(before: State, after: State, call: BuyCall, gross: u128) -> bool {
    let plan = spec_plan_buy(before, call.ctx, call.msg, call.amount);
    &&& plan is Ok
    &&& plan->Ok_0.in_amount == gross
    &&& after.is_after_buy(before, plan->Ok_0)
}

/// After any number of successful buys, the lifetime taker fee total has
/// grown by the sum of the fees on their gross inputs, each
/// `input * fee / 1_000_000` rounded down, at the buy-side fee that the
/// state started with. A curve starts with a total of zero, so its total is
/// that sum.
pub proof fn lemma_taker_fee_accumulates(states: Seq<State>, calls: Seq<BuyCall>, inputs: Seq<u128>)
    requires
        states.len() == inputs.len() + 1,
        calls.len() == inputs.len(),
        forall|i: int|
            0 <= i < inputs.len() ==> is_buy_step(
                states[i],
                states[i + 1],
                calls[i],
                #[trigger] inputs[i],
            ),
    ensures
        states.last().fee_pct_buy == states[0].fee_pct_buy,
        states.last().net_taker_fee == states[0].net_taker_fee + spec_fee_total(
            inputs,
            states[0].fee_pct_buy,
        ),
    decreases inputs.len(),
{
    if inputs.len() > 0 {
        let n = inputs.len() as int - 1;
        let earlier = inputs.drop_last();
        assert forall|i: int| 0 <= i < earlier.len() implies is_buy_step(
            states.drop_last()[i],
            states.drop_last()[i + 1],
            calls.drop_last()[i],
            #[trigger] earlier[i],
        ) by {
            assert(is_buy_step(states[i], states[i + 1], calls[i], inputs[i]));
        }
        lemma_taker_fee_accumulates(states.drop_last(), calls.drop_last(), earlier);
        assert(states.drop_last().last() == states[n]);
        assert(states.drop_last()[0] == states[0]);
        assert(is_buy_step(states[n], states[n + 1], calls[n], inputs[n]));
        assert(inputs.last() == inputs[n]);
    }
}

/// A sell as it is called.
pub struct SellCall {
    pub ctx: Context,
    pub msg: SellMsg,
    pub amount: u128,
}

/// That `call` on `before` succeeds, with `curve_out` as the output of the
/// curve before the fee, and leaves `after`.
pub open spec fn is_sell_step(before: State, after: State, call: SellCall, curve_out: u128) -> bool {
    let plan = spec_plan_sell(before, call.ctx, call.msg, call.amount);
    &&& plan is Ok
    &&& before.curve.spec_sell(call.amount) is Ok
    &&& before.curve.spec_sell(call.amount)->Ok_0.out_amount == curve_out
    &&& after.is_after_sell(before, plan->Ok_0)
}

/// After any number of successful sells, the lifetime maker fee total has
/// grown by the sum of the fees on the outputs of the curve, each
/// `output * fee / 1_000_000` rounded down, at the sell-side fee that the
/// state started with.
pub proof fn lemma_maker_fee_accumulates(
    states: Seq<State>,
    calls: Seq<SellCall>,
    outputs: Seq<u128>,
)
    requires
        states.len() == outputs.len() + 1,
        calls.len() == outputs.len(),
        forall|i: int|
            0 <= i < outputs.len() ==> is_sell_step(
                states[i],
                states[i + 1],
                calls[i],
                #[trigger] outputs[i],
            ),
    ensures
        states.last().fee_pct_sell == states[0].fee_pct_sell,
        states.last().net_maker_fee == states[0].net_maker_fee + spec_fee_total(
            outputs,
            states[0].fee_pct_sell,
        ),
    decreases outputs.len(),
{
    if outputs.len() > 0 {
        let n = outputs.len() as int - 1;
        let earlier = outputs.drop_last();
        assert forall|i: int| 0 <= i < earlier.len() implies is_sell_step(
            states.drop_last()[i],
            states.drop_last()[i + 1],
            calls.drop_last()[i],
            #[trigger] earlier[i],
        ) by {
            assert(is_sell_step(states[i], states[i + 1], calls[i], outputs[i]));
        }
        lemma_maker_fee_accumulates(states.drop_last(), calls.drop_last(), earlier);
        assert(states.drop_last().last() == states[n]);
        assert(states.drop_last()[0] == states[0]);
        assert(is_sell_step(states[n], states[n + 1], calls[n], outputs[n]));
        assert(outputs.last() == outputs[n]);
    }
}

/// A buy whose output at the curve is below the caller's bound fails with
/// `TooMuchSlippage` and changes nothing.
pub proof fn lemma_buy_slippage_gate(
    before: State,
    after: State,
    ctx: Context,
    msg: BuyMsg,
    amount: Option<u128>,
    r: Result<Response, ContractError>,
)
    requires
        is_buy_outcome(before, after, ctx, msg, amount, r),
        spec_fill_buy(before, ctx, amount) is Ok,
        spec_below_bound(msg.min_out_amount, spec_fill_buy(before, ctx, amount)->Ok_0.out_amount),
    ensures
        r is Err,
        r->Err_0@ == ContractErrorView::TooMuchSlippage,
        after == before,
{
}

/// A sell whose output at the curve is below the caller's bound fails with
/// `TooMuchSlippage` and changes nothing.
pub proof fn lemma_sell_slippage_gate(
    before: State,
    after: State,
    ctx: Context,
    msg: SellMsg,
    amount: u128,
    r: Result<Response, ContractError>,
)
    requires
        is_sell_outcome(before, after, ctx, msg, amount, r),
        before.curve.spec_sell(amount) is Ok,
        spec_below_bound(msg.min_out_amount, before.curve.spec_sell(amount)->Ok_0.out_amount),
    ensures
        r is Err,
        r->Err_0@ == ContractErrorView::TooMuchSlippage,
        after == before,
{
}

/// With an operator configured, a buy by anyone else fails and changes
/// nothing; where the curve and the bound would have let it pass, it fails
/// as not authorized.
pub proof fn lemma_buy_needs_operator(
    before: State,
    after: State,
    ctx: Context,
    msg: BuyMsg,
    amount: Option<u128>,
    r: Result<Response, ContractError>,
)
    requires
        is_buy_outcome(before, after, ctx, msg, amount, r),
        before.operator_addr is Some,
        ctx.sender@ != before.operator_addr->0@,
    ensures
        r is Err,
        after == before,
        spec_fill_buy(before, ctx, amount) is Ok && !spec_below_bound(
            msg.min_out_amount,
            spec_fill_buy(before, ctx, amount)->Ok_0.out_amount,
        ) ==> r->Err_0@ == (ContractErrorView::NotAuthorized {
            reason: spec_not_operator_reason(before.operator_addr->0@, Action::Buy.spec_name()),
        }),
{
}

/// With an operator configured, a sell by anyone else fails and changes
/// nothing; where the curve, the bound and the fee would have let it pass,
/// it fails as not authorized.
pub proof fn lemma_sell_needs_operator(
    before: State,
    after: State,
    ctx: Context,
    msg: SellMsg,
    amount: u128,
    r: Result<Response, ContractError>,
)
    requires
        is_sell_outcome(before, after, ctx, msg, amount, r),
        before.operator_addr is Some,
        ctx.sender@ != before.operator_addr->0@,
    ensures
        r is Err,
        after == before,
        spec_fill_sell(before, msg.min_out_amount, amount) is Ok ==> r->Err_0@ == (
        ContractErrorView::NotAuthorized {
            reason: spec_not_operator_reason(before.operator_addr->0@, Action::Sell.spec_name()),
        }),
{
}

/// The operator may swap for any account that it names.
pub proof fn lemma_operator_may_name_initiator(
    operator: Seq<char>,
    initiator: Seq<char>,
    action: Seq<char>,
)
    ensures
        spec_resolve_swap_initiator(Some(operator), operator, Some(initiator), action) == Ok::<
            Seq<char>,
            ContractErrorView,
        >(initiator),
{
}

/// A successful buy by the operator for an account that it names is
/// recorded in that account's statistics, and where that account is not
/// the operator, the operator's statistics stay as they were.
pub proof fn lemma_buy_credits_named_initiator(
    before: State,
    after: State,
    ctx: Context,
    msg: BuyMsg,
    amount: Option<u128>,
    r: Result<Response, ContractError>,
)
    requires
        is_buy_outcome(before, after, ctx, msg, amount, r),
        before.operator_addr is Some,
        ctx.sender@ == before.operator_addr->0@,
        msg.initiator is Some,
        r is Ok,
    ensures
        ({
            let plan = spec_plan_buy(before, ctx, msg, amount)->Ok_0;
            let fill = spec_fill_buy(before, ctx, amount)->Ok_0;
            let initiator = msg.initiator->0@;
            &&& plan.initiator == initiator
            &&& before.spec_stats_of(initiator).spec_record_buy(
                fill.in_amount,
                fill.out_amount,
            ) is Ok
            &&& after.spec_stats_of(initiator) == before.spec_stats_of(initiator).spec_record_buy(
                fill.in_amount,
                fill.out_amount,
            )->Ok_0
            &&& initiator != ctx.sender@ ==> after.spec_stats_of(ctx.sender@)
                == before.spec_stats_of(ctx.sender@)
        }),
{
}

/// A successful sell by the operator for an account that it names is
/// recorded in that account's statistics, and where that account is not
/// the operator, the operator's statistics stay as they were.
pub proof fn lemma_sell_credits_named_initiator(
    before: State,
    after: State,
    ctx: Context,
    msg: SellMsg,
    amount: u128,
    r: Result<Response, ContractError>,
)
    requires
        is_sell_outcome(before, after, ctx, msg, amount, r),
        before.operator_addr is Some,
        ctx.sender@ == before.operator_addr->0@,
        msg.initiator is Some,
        r is Ok,
    ensures
        ({
            let plan = spec_plan_sell(before, ctx, msg, amount)->Ok_0;
            let initiator = msg.initiator->0@;
            &&& plan.initiator == initiator
            &&& before.spec_stats_of(initiator).spec_record_sell(amount, plan.out_amount) is Ok
            &&& after.spec_stats_of(initiator) == before.spec_stats_of(initiator).spec_record_sell(
                amount,
                plan.out_amount,
            )->Ok_0
            &&& initiator != ctx.sender@ ==> after.spec_stats_of(ctx.sender@)
                == before.spec_stats_of(ctx.sender@)
        }),
{
}

/// Two seconds fall in the same bucket exactly when they fall in the same
/// minute.
pub proof fn lemma_same_bucket(a: u64, b: u64)
    ensures
        spec_bucket_start(a) == spec_bucket_start(b) <==> a / BUCKET_SECONDS == b / BUCKET_SECONDS,
{
}

/// The first trade of a bucket opens its bar: open, high, low and close are
/// the trade's price, the volumes are the trade's, and one trade is
/// counted.
pub proof fn lemma_first_trade_opens_bar(
    bars: Map<u64, OhlcBar>,
    time: Timestamp,
    price: u128,
    base_volume: u128,
    quote_volume: u128,
)
    requires
        !bars.contains_key(spec_bucket_start(time.spec_seconds())),
    ensures
        OhlcBar::spec_upsert(bars, time, price, base_volume, quote_volume) == Ok::<
            OhlcBar,
            ArithmeticError,
        >(
            OhlcBar {
                o: price,
                c: price,
                h: price,
                l: price,
                vb: base_volume,
                vq: quote_volume,
                t: spec_bucket_start(time.spec_seconds()),
                n: 1,
            },
        ),
{
}

/// A later trade of a bucket keeps the open, can only raise the high and
/// lower the low, sets the close, and adds to the volumes and the count.
pub proof fn lemma_later_trade_extends_bar(
    bars: Map<u64, OhlcBar>,
    time: Timestamp,
    price: u128,
    base_volume: u128,
    quote_volume: u128,
)
    requires
        bars.contains_key(spec_bucket_start(time.spec_seconds())),
        bars[spec_bucket_start(time.spec_seconds())].n > 0,
        OhlcBar::spec_upsert(bars, time, price, base_volume, quote_volume) is Ok,
    ensures
        ({
            let before = bars[spec_bucket_start(time.spec_seconds())];
            let after = OhlcBar::spec_upsert(bars, time, price, base_volume, quote_volume)->Ok_0;
            &&& after.o == before.o
            &&& after.c == price
            &&& after.h == if price > before.h {
                price
            } else {
                before.h
            }
            &&& after.l == if price < before.l {
                price
            } else {
                before.l
            }
            &&& after.vb == before.vb + base_volume
            &&& after.vq == before.vq + quote_volume
            &&& after.n == before.n + 1
            &&& after.t == before.t
        }),
{
}

/// What an event takes from an account.
pub struct Debit {
    /// The account that gives.
    pub account: Seq<char>,
    /// Its balance before.
    pub balance: u128,
    /// What it gives.
    pub amount: u128,
}

/// What an event takes from an account, where it takes anything.
pub open spec fn spec_debit_of(event: BalanceChangeEvent) -> Option<Debit> {
    match event {
        BalanceChangeEvent::Transfer { initiator, initiator_balance, amount, .. } => Some(
            Debit { account: initiator@, balance: initiator_balance, amount },
        ),
        BalanceChangeEvent::Burn { initiator, initiator_balance, amount } => Some(
            Debit { account: initiator@, balance: initiator_balance, amount },
        ),
        BalanceChangeEvent::Mint { .. } => None,
    }
}

/// An account that gives its whole balance away is left with a total cost
/// of exactly zero.
pub proof fn lemma_full_withdrawal_zeroes_cost(
    before: State,
    after: State,
    ctx: Context,
    msg: BalanceChangeMsg,
    r: Result<Response, ContractError>,
)
    requires
        is_balance_change_outcome(before, after, ctx, msg, r),
        r is Ok,
        spec_debit_of(msg.event) is Some,
        spec_debit_of(msg.event)->0.amount == spec_debit_of(msg.event)->0.balance,
    ensures
        after.spec_stats_of(spec_debit_of(msg.event)->0.account).total_cost == 0,
{
}

/// No operation lowers a lifetime fee total.
pub proof fn lemma_fee_totals_never_decrease(
    before: State,
    after: State,
    ctx: Context,
    msg: ExecuteMsg,
    r: Result<Response, ContractError>,
)
    requires
        is_execute_outcome(before, after, ctx, msg, r),
    ensures
        after.net_taker_fee >= before.net_taker_fee,
        after.net_maker_fee >= before.net_maker_fee,
{
}

/// No operation changes the fee fractions, the constant product, the
/// decimals or the virtual reserve; so fees that are clamped stay clamped.
pub proof fn lemma_settings_are_kept(
    before: State,
    after: State,
    ctx: Context,
    msg: ExecuteMsg,
    r: Result<Response, ContractError>,
)
    requires
        is_execute_outcome(before, after, ctx, msg, r),
    ensures
        after.fee_pct_buy == before.fee_pct_buy,
        after.fee_pct_sell == before.fee_pct_sell,
        after.quote_reserve_virtual == before.quote_reserve_virtual,
        after.curve.k == before.curve.k,
        after.curve.base_decimals == before.curve.base_decimals,
        after.curve.quote_decimals == before.curve.quote_decimals,
        before.wf() ==> after.wf(),
{
}

/// No operation deletes an account's record or a candlestick.
pub proof fn lemma_records_are_never_deleted(
    before: State,
    after: State,
    ctx: Context,
    msg: ExecuteMsg,
    r: Result<Response, ContractError>,
    account: Seq<char>,
    bucket: u64,
)
    requires
        is_execute_outcome(before, after, ctx, msg, r),
    ensures
        before.account_stats@.contains_key(account) ==> after.account_stats@.contains_key(account),
        before.ohlc_bars@.contains_key(bucket) ==> after.ohlc_bars@.contains_key(bucket),
{
}

} // verus!
