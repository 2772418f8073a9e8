//! Cost-basis tracking: what an account's holding of the base asset has
//! cost it, kept up to date as balances change outside the curve.

use vstd::prelude::*;
use vstd::string::*;
use crate::context::Context;
use crate::curve::spec_scaled_ratio;
use crate::error::{ArithmeticError, ContractError, ContractErrorView, lift};
use crate::math::{
    mul_ratio_u128, pow10, spec_mul_ratio_u128, spec_pow10, spec_sub_u128, sub_u128,
};
use crate::models::account::{spec_stats_of, AccountBook, AccountStats};
use crate::msg::{BalanceChangeEvent, BalanceChangeMsg};
use crate::response::{Action, Response, ResponseView};
use crate::state::State;
use crate::token::{Token, TokenView};

verus! {

/// The average cost of one base unit, scaled by the quote decimals:
/// `total_cost * 10^quote_decimals / total_base_amount`, rounded down.
pub open spec fn spec_calc_avg_cost_basis(
    quote_decimals: u8,
    total_cost: u128,
    total_base_amount: u128,
) -> Result<u128, ArithmeticError> {
    spec_scaled_ratio(total_cost, quote_decimals, total_base_amount)
}

/// The total cost left to an account that held `balance` base units at
/// `total_cost` and gives `delta` of them away.
///
/// Where nothing is left of the balance, nothing is left of the cost.
/// Otherwise the units given away take their share of the cost with them,
/// at the average cost per unit.
pub open spec fn spec_debit_total_cost(
    quote_decimals: u8,
    total_cost: u128,
    balance: u128,
    delta: u128,
) -> Result<u128, ArithmeticError> {
    if delta == balance {
        Ok(0)
    } else {
        match spec_calc_avg_cost_basis(quote_decimals, total_cost, balance) {
            Err(e) => Err(e),
            Ok(cost_basis) => match spec_pow10(quote_decimals) {
                Err(e) => Err(e),
                Ok(scale) => match spec_mul_ratio_u128(delta, cost_basis, scale) {
                    Err(e) => Err(e),
                    Ok(removed) => spec_sub_u128(total_cost, removed),
                },
            },
        }
    }
}

/// The total cost of an account that receives `delta` base units: the
/// amount itself is taken off, with no price applied.
pub open spec fn spec_credit_total_cost(total_cost: u128, delta: u128) -> Result<
    u128,
    ArithmeticError,
> {
    spec_sub_u128(total_cost, delta)
}

/// The statistics after the account gave `delta` of its `balance` away.
pub open spec fn spec_debit(
    quote_decimals: u8,
    stats: AccountStats,
    balance: u128,
    delta: u128,
) -> Result<AccountStats, ArithmeticError> {
    match spec_debit_total_cost(quote_decimals, stats.total_cost, balance, delta) {
        Err(e) => Err(e),
        Ok(total_cost) => Ok(AccountStats { total_cost, ..stats }),
    }
}

/// The statistics after the account received `delta`.
pub open spec fn spec_credit(stats: AccountStats, delta: u128) -> Result<
    AccountStats,
    ArithmeticError,
> {
    match spec_credit_total_cost(stats.total_cost, delta) {
        Err(e) => Err(e),
        Ok(total_cost) => Ok(AccountStats { total_cost, ..stats }),
    }
}

/// The account statistics after a change of balances. A transfer debits the
/// sender first and then credits the recipient, who may be the sender; a
/// burn debits; a mint credits.
pub open spec fn spec_apply_event(
    stats: Map<Seq<char>, AccountStats>,
    quote_decimals: u8,
    event: BalanceChangeEvent,
) -> Result<Map<Seq<char>, AccountStats>, ArithmeticError> {
    match event {
        BalanceChangeEvent::Transfer { initiator, recipient, initiator_balance, amount, .. } => {
            match spec_debit(
                quote_decimals,
                spec_stats_of(stats, initiator@),
                initiator_balance,
                amount,
            ) {
                Err(e) => Err(e),
                Ok(debited) => {
                    let stats = stats.insert(initiator@, debited);
                    match spec_credit(spec_stats_of(stats, recipient@), amount) {
                        Err(e) => Err(e),
                        Ok(credited) => Ok(stats.insert(recipient@, credited)),
                    }
                },
            }
        },
        BalanceChangeEvent::Burn { initiator, initiator_balance, amount } => {
            match spec_debit(
                quote_decimals,
                spec_stats_of(stats, initiator@),
                initiator_balance,
                amount,
            ) {
                Err(e) => Err(e),
                Ok(debited) => Ok(stats.insert(initiator@, debited)),
            }
        },
        BalanceChangeEvent::Mint { recipient, amount, .. } => {
            match spec_credit(spec_stats_of(stats, recipient@), amount) {
                Err(e) => Err(e),
                Ok(credited) => Ok(stats.insert(recipient@, credited)),
            }
        },
    }
}

/// The refusal given to a notice that does not come from the base asset's
/// token contract.
pub open spec fn spec_unrecognized_reason(sender: Seq<char>) -> Seq<char> {
    "OnBalanceChange received msg from unrecognized cw20: "@ + sender
}

/// What is changed by a notice from `sender`, or the error it ends in: the
/// base asset must exist and `sender` must be its token contract; then the
/// event is applied to the account statistics.
pub open spec fn spec_on_balance_change(state: State, sender: Seq<char>, event: BalanceChangeEvent) -> Result<
    Map<Seq<char>, AccountStats>,
    ContractErrorView,
> {
    match state.base_token {
        None => Err(ContractErrorView::NotFound { kind: "base_token"@ }),
        Some(token) => if token@ != TokenView::Address(sender) {
            Err(ContractErrorView::NotAuthorized { reason: spec_unrecognized_reason(sender) })
        } else {
            match spec_apply_event(state.account_stats@, state.curve.quote_decimals, event) {
                Err(e) => Err(ContractErrorView::Arithmetic(e)),
                Ok(stats) => Ok(stats),
            }
        },
    }
}

impl State {
    /// Everything but the account statistics is as in `before`.
    pub open spec fn same_but_accounts(self, before: State) -> bool {
        &&& self.curve == before.curve
        &&& self.quote_reserve_virtual == before.quote_reserve_virtual
        &&& self.quote_token == before.quote_token
        &&& self.base_token == before.base_token
        &&& self.operator_addr == before.operator_addr
        &&& self.fee_addr == before.fee_addr
        &&& self.fee_pct_buy == before.fee_pct_buy
        &&& self.fee_pct_sell == before.fee_pct_sell
        &&& self.ohlc_bars == before.ohlc_bars
        &&& self.net_taker_fee == before.net_taker_fee
        &&& self.net_maker_fee == before.net_maker_fee
        &&& self.taker_stats == before.taker_stats
        &&& self.maker_stats == before.maker_stats
    }
}

/// That a notice ended in `after` and `r`: the account statistics are the
/// ones the event leaves and nothing else has changed, or the notice was
/// refused and the state is as it was.
pub open spec fn is_balance_change_outcome(
    before: State,
    after: State,
    ctx: Context,
    msg: BalanceChangeMsg,
    r: Result<Response, ContractError>,
) -> bool {
    match spec_on_balance_change(before, ctx.sender@, msg.event) {
        Ok(stats) => {
            &&& r is Ok
            &&& r->Ok_0@ == ResponseView::of_action(Action::OnBalanceChange)
            &&& after.account_stats@ == stats
            &&& after.same_but_accounts(before)
        },
        Err(e) => {
            &&& r is Err
            &&& r->Err_0@ == e
            &&& after == before
        },
    }
}

/// The average cost of one base unit of a holding of `total_base_amount`
/// units that cost `total_cost`, scaled by the quote decimals.
pub fn calc_avg_cost_basis(quote_decimals: u8, total_cost: u128, total_base_amount: u128) -> (r:
    Result<u128, ContractError>)
    ensures
        r == lift(spec_calc_avg_cost_basis(quote_decimals, total_cost, total_base_amount)),
{
    let scale: u128 = pow10(quote_decimals)?;
    mul_ratio_u128(total_cost, scale, total_base_amount)
}

/// The statistics of an account after it gave `delta` of its `balance`
/// base units away. An account left with no balance is left with no cost.
pub fn debit(quote_decimals: u8, stats: AccountStats, balance: u128, delta: u128) -> (r: Result<
    AccountStats,
    ContractError,
>)
    ensures
        r == lift(spec_debit(quote_decimals, stats, balance, delta)),
        delta == balance ==> r == Ok::<AccountStats, ContractError>(
            AccountStats { total_cost: 0, ..stats },
        ),
{
    let mut stats = stats;
    if delta == balance {
        stats.total_cost = 0;
    } else {
        let cost_basis: u128 = calc_avg_cost_basis(quote_decimals, stats.total_cost, balance)?;
        let scale: u128 = pow10(quote_decimals)?;
        let cost_of_tokens_sold: u128 = mul_ratio_u128(delta, cost_basis, scale)?;
        stats.total_cost = sub_u128(stats.total_cost, cost_of_tokens_sold)?;
    }
    Ok(stats)
}

/// The statistics of an account after it received `delta` base units.
pub fn credit(stats: AccountStats, delta: u128) -> (r: Result<AccountStats, ContractError>)
    ensures
        r == lift(spec_credit(stats, delta)),
{
    let mut stats = stats;
    stats.total_cost = sub_u128(stats.total_cost, delta)?;
    Ok(stats)
}

/// Brings the sender's cost basis up to date after it gave `delta` of its
/// `initiator_balance` base units away. On failure nothing is changed.
pub fn update_initiator_total_cost(
    accounts: &mut AccountBook,
    quote_decimals: u8,
    initiator: &String,
    initiator_balance: u128,
    delta: u128,
) -> (r: Result<(), ContractError>)
    ensures
        match spec_debit(
            quote_decimals,
            spec_stats_of(old(accounts)@, initiator@),
            initiator_balance,
            delta,
        ) {
            Ok(debited) => r is Ok && final(accounts)@ == old(accounts)@.insert(
                initiator@,
                debited,
            ),
            Err(e) => {
                &&& r == Err::<(), ContractError>(ContractError::Arithmetic(e))
                &&& *final(accounts) == *old(accounts)
            },
        },
        delta == initiator_balance ==> r is Ok && final(accounts)@[initiator@].total_cost == 0,
{
    let debited = debit(
        quote_decimals,
        accounts.stats_of(initiator.as_str()),
        initiator_balance,
        delta,
    )?;
    accounts.insert(initiator.clone(), debited);
    Ok(())
}

/// Brings the recipient's cost basis up to date after it received `delta`
/// base units. On failure nothing is changed.
pub fn update_recipient_total_cost(
    accounts: &mut AccountBook,
    recipient: &String,
    delta: u128,
) -> (r: Result<(), ContractError>)
    ensures
        match spec_credit(spec_stats_of(old(accounts)@, recipient@), delta) {
            Ok(credited) => r is Ok && final(accounts)@ == old(accounts)@.insert(
                recipient@,
                credited,
            ),
            Err(e) => {
                &&& r == Err::<(), ContractError>(ContractError::Arithmetic(e))
                &&& *final(accounts) == *old(accounts)
            },
        },
{
    let credited = credit(accounts.stats_of(recipient.as_str()), delta)?;
    accounts.insert(recipient.clone(), credited);
    Ok(())
}

/// Checks that a notice comes from the base asset's token contract.
fn ensure_from_base_token(base_token: &Option<Token>, sender: &String) -> (r: Result<
    (),
    ContractError,
>)
    ensures
        match *base_token {
            None => r is Err && r->Err_0@ == (ContractErrorView::NotFound { kind: "base_token"@ }),
            Some(token) => if token@ != TokenView::Address(sender@) {
                r is Err && r->Err_0@ == (ContractErrorView::NotAuthorized {
                    reason: spec_unrecognized_reason(sender@),
                })
            } else {
                r is Ok
            },
        },
{
    let token = match base_token {
        Some(token) => token,
        None => {
            return Err(ContractError::NotFound { kind: String::from_str("base_token") });
        },
    };
    let recognized = match token {
        Token::Address(address) => *address == *sender,
        Token::Denom(_) => false,
    };
    if !recognized {
        let mut reason = String::from_str("OnBalanceChange received msg from unrecognized cw20: ");
        reason.append(sender.as_str());
        return Err(ContractError::NotAuthorized { reason });
    }
    Ok(())
}

/// Takes note of a change of balances of the base asset, which only the
/// base asset's token contract may report.
///
/// On success the account statistics are the ones that the event leaves
/// and nothing else has changed. On any failure the state is left as it
/// was.
pub fn exec_on_balance_change(state: &mut State, ctx: Context, msg: BalanceChangeMsg) -> (r: Result<
    Response,
    ContractError,
>)
    ensures
        is_balance_change_outcome(*old(state), *final(state), ctx, msg, r),
{
    let quote_decimals: u8 = state.curve.quote_decimals;
    ensure_from_base_token(&state.base_token, &ctx.sender)?;

    match msg.event {
        BalanceChangeEvent::Transfer { initiator, initiator_balance, recipient, amount, .. } => {
            let debited = debit(
                quote_decimals,
                state.account_stats.stats_of(initiator.as_str()),
                initiator_balance,
                amount,
            )?;
            let before = if recipient == initiator {
                debited
            } else {
                state.account_stats.stats_of(recipient.as_str())
            };
            let credited = credit(before, amount)?;
            state.account_stats.insert(initiator, debited);
            state.account_stats.insert(recipient, credited);
        },
        BalanceChangeEvent::Burn { initiator, initiator_balance, amount } => {
            update_initiator_total_cost(
                &mut state.account_stats,
                quote_decimals,
                &initiator,
                initiator_balance,
                amount,
            )?;
        },
        BalanceChangeEvent::Mint { recipient, amount, .. } => {
            update_recipient_total_cost(&mut state.account_stats, &recipient, amount)?;
        },
    }
    Ok(Response::of_action(Action::OnBalanceChange))
}

} // verus!
