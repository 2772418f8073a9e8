//! The entry points: each message goes to the operation it asks for.

use vstd::prelude::*;
use crate::context::Context;
use crate::error::{ContractError, ContractErrorView};
use crate::execute::buy_sell::{exec_buy, is_buy_outcome};
use crate::execute::cw20_receive::{exec_cw20_receive, is_receive_outcome};
use crate::execute::on_balance_change::{exec_on_balance_change, is_balance_change_outcome};
use crate::execute::set_config::exec_set_config;
use crate::models::config::Config;
use crate::msg::{
    AccountResponse, ConfigResponse, ExecuteMsg, InstantiateMsg, MigrateMsg, OverviewResponse,
    QueryMsg, Reply,
};
use crate::query::account::{is_account_outcome, query_account};
use crate::query::config::query_config;
use crate::query::overview::{is_overview_outcome, query_overview};
use crate::query::ReadonlyContext;
use crate::response::{Action, Response, ResponseView};
use crate::state::{
    handle_cw20_instantiate_reply, init, spec_init_response, spec_token_msg, State,
    CW20_INSTANTIATE_REPLY_ID,
};
use crate::token::TokenView;
use crate::outside::{reply_instantiate_address, reply_result_view};

verus! {

/// The answer to a query.
#[derive(Debug, PartialEq, Eq)]
pub enum QueryResponse {
    Config(ConfigResponse),
    Overview(OverviewResponse),
    Account(AccountResponse),
}

/// Creates the curve that `msg` describes: its state, and the request to
/// create the base asset's token contract.
pub fn instantiate(ctx: Context, msg: InstantiateMsg) -> (r: Result<
    (State, Response),
    ContractError,
>)
    ensures
        match spec_token_msg(ctx, msg) {
            Ok(bytes) => {
                &&& r is Ok
                &&& r->Ok_0.0.is_initial(msg)
                &&& r->Ok_0.0.wf()
                &&& r->Ok_0.1@ == spec_init_response(ctx, msg, bytes)
            },
            Err(e) => r is Err && r->Err_0@ == (ContractErrorView::ValidationError { reason: e }),
        },
{
    init(ctx, msg)
}

/// That `msg` on `before` ended in `after` and `r`: the outcome of the
/// operation that the message asks for.
pub open spec fn is_execute_outcome(
    before: State,
    after: State,
    ctx: Context,
    msg: ExecuteMsg,
    r: Result<Response, ContractError>,
) -> bool {
    match msg {
        ExecuteMsg::SetConfig(_) => {
            &&& r is Ok
            &&& r->Ok_0@ == ResponseView::of_action(Action::SetConfig)
            &&& after == before
        },
        ExecuteMsg::OnBalanceChange(msg) => is_balance_change_outcome(before, after, ctx, msg, r),
        ExecuteMsg::Receive(msg) => is_receive_outcome(before, after, ctx, msg, r),
        ExecuteMsg::Buy(msg) => is_buy_outcome(before, after, ctx, msg, None, r),
    }
}

/// Carries out what `msg` asks for: a new configuration, a swap paid for
/// with received tokens, a notice of changed balances, or a buy paid for
/// with the attached funds.
pub fn execute(state: &mut State, ctx: Context, msg: ExecuteMsg) -> (r: Result<
    Response,
    ContractError,
>)
    ensures
        is_execute_outcome(*old(state), *final(state), ctx, msg, r),
{
    match msg {
        ExecuteMsg::SetConfig(config) => exec_set_config(state, ctx, config),
        ExecuteMsg::OnBalanceChange(msg) => exec_on_balance_change(state, ctx, msg),
        ExecuteMsg::Receive(msg) => exec_cw20_receive(state, ctx, msg),
        ExecuteMsg::Buy(msg) => exec_buy(state, ctx, msg, None),
    }
}

/// Takes the host's report on a request. The report on the creation of the
/// base asset's token contract tells the curve its base asset; any other
/// report is ignored.
pub fn reply(state: &mut State, msg: Reply) -> (r: Result<Response, ContractError>)
    ensures
        msg.id != CW20_INSTANTIATE_REPLY_ID ==> {
            &&& r is Ok
            &&& r->Ok_0@ == ResponseView::empty()
            &&& *final(state) == *old(state)
        },
        msg.id == CW20_INSTANTIATE_REPLY_ID ==> match reply_instantiate_address(
            msg.id,
            reply_result_view(msg.result),
        ) {
            Ok(a) => {
                &&& r is Ok
                &&& r->Ok_0@ == ResponseView::empty()
                &&& final(state).base_token is Some
                &&& final(state).base_token->0@ == TokenView::Address(a)
                &&& final(state).same_but_base_token(*old(state))
            },
            Err(e) => {
                &&& r is Err
                &&& r->Err_0@ == (ContractErrorView::ValidationError { reason: e })
                &&& *final(state) == *old(state)
            },
        },
{
    if msg.id == CW20_INSTANTIATE_REPLY_ID {
        handle_cw20_instantiate_reply(state, &msg)?;
    }
    Ok(Response::new())
}

/// Carries the state over to a new version of the code. Nothing in the
/// state depends on the version, so it stays as it is.
pub fn migrate(state: &mut State, msg: MigrateMsg) -> (r: Result<Response, ContractError>)
    ensures
        r is Ok,
        r->Ok_0@ == ResponseView::empty(),
        *final(state) == *old(state),
{
    Ok(Response::new())
}

/// Answers `msg` from the state: each query gets the answer of its kind, or
/// the failure of the query it stands for.
pub fn query(ctx: ReadonlyContext, msg: QueryMsg) -> (r: Result<QueryResponse, ContractError>)
    ensures
        match msg {
            QueryMsg::Config {  } => r == Ok::<QueryResponse, ContractError>(
                QueryResponse::Config(ConfigResponse(Config {  })),
            ),
            QueryMsg::Overview {  } => match r {
                Ok(answer) => answer is Overview && is_overview_outcome(
                    *ctx.state,
                    Ok(answer->Overview_0),
                ),
                Err(e) => is_overview_outcome(*ctx.state, Err(e)),
            },
            QueryMsg::Account { address } => match r {
                Ok(answer) => answer is Account && is_account_outcome(
                    *ctx.state,
                    address@,
                    Ok(answer->Account_0),
                ),
                Err(e) => is_account_outcome(*ctx.state, address@, Err(e)),
            },
        },
{
    match msg {
        QueryMsg::Config {  } => Ok(QueryResponse::Config(query_config(ctx)?)),
        QueryMsg::Overview {  } => Ok(QueryResponse::Overview(query_overview(ctx)?)),
        QueryMsg::Account { address } => Ok(QueryResponse::Account(query_account(ctx, address)?)),
    }
}

} // verus!
