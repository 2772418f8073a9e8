//! Swaps paid for with a tracked asset: the token contract hands the
//! tokens over together with the swap that their sender asks for.

use vstd::prelude::*;
use vstd::string::*;
use crate::context::Context;
use crate::error::{ContractError, ContractErrorView};
use crate::execute::buy_sell::{exec_buy, exec_sell, is_buy_outcome, is_sell_outcome};
use crate::msg::{BuyMsg, Cw20ReceiveInnerMsg, Cw20ReceiveMsg, SellMsg};
use crate::response::Response;
use crate::state::State;
use crate::token::{Token, TokenView};

verus! {

/// The refusal given to a token sender who is not the operator.
pub open spec fn spec_operator_only_reason() -> Seq<char> {
    "Only the defined operator can buy and sell"@
}

/// The refusal given to tokens of a contract that is not the expected one.
pub open spec fn spec_unrecognized_token_reason() -> Seq<char> {
    "Received unrecognized cw20 token"@
}

/// The refusal given where the expected asset is native.
pub open spec fn spec_not_cw20_reason() -> Seq<char> {
    "Curve token is not a cw20"@
}

/// The refusal given to a payload that is neither a buy nor a sell.
pub open spec fn spec_bad_payload_reason() -> Seq<char> {
    "Received tokens without a buy or sell message"@
}

/// Whether tokens handed over by the contract at `cw20_addr` are tokens of
/// the expected asset, and the refusal where they are not.
pub open spec fn spec_ensure_is_authorized_cw20(exp_token: TokenView, cw20_addr: Seq<char>) -> Result<
    (),
    ContractErrorView,
> {
    match exp_token {
        TokenView::Address(exp_cw20_addr) => if exp_cw20_addr != cw20_addr {
            Err(ContractErrorView::NotAuthorized { reason: spec_unrecognized_token_reason() })
        } else {
            Ok(())
        },
        TokenView::Denom(_) => Err(
            ContractErrorView::NotAuthorized { reason: spec_not_cw20_reason() },
        ),
    }
}

/// The swap that received tokens lead to.
pub enum Route {
    Buy { ctx: Context, buy: BuyMsg, amount: u128 },
    Sell { ctx: Context, sell: SellMsg, amount: u128 },
}

/// The account that a swap paid for with tokens names: with an operator
/// configured, the one the operator named; with none, the sender of the
/// tokens.
pub open spec fn spec_routed_initiator(
    operator: Option<String>,
    token_sender: String,
    named: Option<String>,
) -> Option<String> {
    if operator is None {
        Some(token_sender)
    } else {
        named
    }
}

/// Where received tokens lead, or the refusal.
///
/// With an operator configured, only the operator may send tokens. The
/// payload must be a buy or a sell. Tokens for a buy must come from the
/// quote asset's contract, tokens for a sell from the base asset's. The
/// swap is then made with the sender of the tokens as its sender.
pub open spec fn spec_route(state: State, ctx: Context, msg: Cw20ReceiveMsg) -> Result<
    Route,
    ContractErrorView,
> {
    if state.operator_addr is Some && state.operator_addr->0@ != msg.sender@ {
        Err(ContractErrorView::NotAuthorized { reason: spec_operator_only_reason() })
    } else {
        let inner_ctx = Context { sender: msg.sender, ..ctx };
        match msg.msg {
            None => Err(ContractErrorView::ValidationError { reason: spec_bad_payload_reason() }),
            Some(Cw20ReceiveInnerMsg::Buy(buy)) => match spec_ensure_is_authorized_cw20(
                state.quote_token@,
                ctx.sender@,
            ) {
                Err(e) => Err(e),
                Ok(_) => Ok(
                    Route::Buy {
                        ctx: inner_ctx,
                        buy: BuyMsg {
                            initiator: spec_routed_initiator(
                                state.operator_addr,
                                msg.sender,
                                buy.initiator,
                            ),
                            ..buy
                        },
                        amount: msg.amount,
                    },
                ),
            },
            Some(Cw20ReceiveInnerMsg::Sell(sell)) => match state.base_token {
                None => Err(ContractErrorView::NotFound { kind: "base_token"@ }),
                Some(base_token) => match spec_ensure_is_authorized_cw20(
                    base_token@,
                    ctx.sender@,
                ) {
                    Err(e) => Err(e),
                    Ok(_) => Ok(
                        Route::Sell {
                            ctx: inner_ctx,
                            sell: SellMsg {
                                initiator: spec_routed_initiator(
                                    state.operator_addr,
                                    msg.sender,
                                    sell.initiator,
                                ),
                                ..sell
                            },
                            amount: msg.amount,
                        },
                    ),
                },
            },
        }
    }
}

/// That received tokens ended in `after` and `r`: the outcome of the swap
/// they lead to, or the refusal with the state as it was.
pub open spec fn is_receive_outcome(
    before: State,
    after: State,
    ctx: Context,
    msg: Cw20ReceiveMsg,
    r: Result<Response, ContractError>,
) -> bool {
    match spec_route(before, ctx, msg) {
        Err(e) => {
            &&& r is Err
            &&& r->Err_0@ == e
            &&& after == before
        },
        Ok(Route::Buy { ctx, buy, amount }) => is_buy_outcome(
            before,
            after,
            ctx,
            buy,
            Some(amount),
            r,
        ),
        Ok(Route::Sell { ctx, sell, amount }) => is_sell_outcome(
            before,
            after,
            ctx,
            sell,
            amount,
            r,
        ),
    }
}

/// Checks that tokens handed over by the contract at `cw20_addr` are tokens
/// of the expected asset.
pub fn ensure_is_authorized_cw20(exp_token: &Token, cw20_addr: &String) -> (r: Result<
    (),
    ContractError,
>)
    ensures
        match spec_ensure_is_authorized_cw20(exp_token@, cw20_addr@) {
            Ok(_) => r is Ok,
            Err(e) => r is Err && r->Err_0@ == e,
        },
{
    match exp_token {
        Token::Address(exp_cw20_addr) => {
            if *exp_cw20_addr != *cw20_addr {
                return Err(
                    ContractError::NotAuthorized {
                        reason: String::from_str("Received unrecognized cw20 token"),
                    },
                );
            }
        },
        Token::Denom(_) => {
            return Err(
                ContractError::NotAuthorized {
                    reason: String::from_str("Curve token is not a cw20"),
                },
            );
        },
    }
    Ok(())
}

/// Makes the swap that comes with received tokens.
///
/// `ctx.sender` is the token contract that hands the tokens over;
/// `msg.sender` is the account that sent them, for which the swap is made
/// unless an operator names another.
pub fn exec_cw20_receive(state: &mut State, ctx: Context, msg: Cw20ReceiveMsg) -> (r: Result<
    Response,
    ContractError,
>)
    ensures
        is_receive_outcome(*old(state), *final(state), ctx, msg, r),
{
    let Cw20ReceiveMsg { sender: token_sender, amount, msg } = msg;
    let mut using_operator = false;
    if let Some(operator_addr) = &state.operator_addr {
        using_operator = true;
        if *operator_addr != token_sender {
            return Err(
                ContractError::NotAuthorized {
                    reason: String::from_str("Only the defined operator can buy and sell"),
                },
            );
        }
    }
    let msg = match msg {
        Some(msg) => msg,
        None => {
            return Err(
                ContractError::ValidationError {
                    reason: String::from_str("Received tokens without a buy or sell message"),
                },
            );
        },
    };
    match msg {
        Cw20ReceiveInnerMsg::Buy(buy) => {
            ensure_is_authorized_cw20(&state.quote_token, &ctx.sender)?;
            let initiator = if using_operator {
                buy.initiator
            } else {
                Some(token_sender.clone())
            };
            let buy = BuyMsg { initiator, min_out_amount: buy.min_out_amount };
            let ctx = Context {
                contract_addr: ctx.contract_addr,
                time: ctx.time,
                sender: token_sender,
                funds: ctx.funds,
            };
            exec_buy(state, ctx, buy, Some(amount))
        },
        Cw20ReceiveInnerMsg::Sell(sell) => {
            match &state.base_token {
                Some(base_token) => {
                    ensure_is_authorized_cw20(base_token, &ctx.sender)?;
                },
                None => {
                    return Err(
                        ContractError::NotFound { kind: String::from_str("base_token") },
                    );
                },
            }
            let initiator = if using_operator {
                sell.initiator
            } else {
                Some(token_sender.clone())
            };
            let sell = SellMsg { initiator, min_out_amount: sell.min_out_amount };
            let ctx = Context {
                contract_addr: ctx.contract_addr,
                time: ctx.time,
                sender: token_sender,
                funds: ctx.funds,
            };
            exec_sell(state, ctx, sell, amount)
        },
    }
}

} // verus!
