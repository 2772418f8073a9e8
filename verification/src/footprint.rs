//! What an operation reads and writes of the books. A host that keeps the
//! books elsewhere need only bring the records named here.

use vstd::prelude::*;
use crate::context::Context;
use crate::contract::is_execute_outcome;
use crate::error::{ContractError, ContractErrorView};
use crate::execute::buy_sell::{spec_fill_buy, spec_fill_sell, spec_plan_buy, spec_plan_sell};
use crate::execute::cw20_receive::{spec_route, Route};
use crate::execute::on_balance_change::spec_on_balance_change;
use crate::models::account::AccountStats;
use crate::models::ohlc::spec_bucket_start;
use crate::msg::{
    BalanceChangeEvent, BalanceChangeMsg, BuyMsg, Cw20ReceiveInnerMsg, Cw20ReceiveMsg,
    ExecuteMsg, SellMsg,
};
use crate::response::{Response, ResponseView};
use crate::state::State;
use crate::token::{Token, TokenView};
use crate::utils::opt_view;

verus! {

/// The characters of each of some texts.
pub open spec fn texts_view(texts: Seq<String>) -> Seq<Seq<char>> {
    texts.map_values(|text: String| text@)
}

/// The accounts that a swap made by `sender` can be for.
pub open spec fn spec_swap_accounts(sender: Seq<char>, initiator: Option<Seq<char>>) -> Seq<
    Seq<char>,
> {
    match initiator {
        Some(initiator) => seq![sender, initiator],
        None => seq![sender],
    }
}

/// The accounts whose statistics `msg` can read or write: for a swap, its
/// sender and the account it names; for a notice of changed balances, the
/// accounts it debits and credits.
pub open spec fn spec_touched_accounts(ctx: Context, msg: ExecuteMsg) -> Seq<Seq<char>> {
    match msg {
        ExecuteMsg::SetConfig(_) => seq![],
        ExecuteMsg::Buy(buy) => spec_swap_accounts(ctx.sender@, opt_view(buy.initiator)),
        ExecuteMsg::Receive(received) => match received.msg {
            Some(Cw20ReceiveInnerMsg::Buy(buy)) => spec_swap_accounts(
                received.sender@,
                opt_view(buy.initiator),
            ),
            Some(Cw20ReceiveInnerMsg::Sell(sell)) => spec_swap_accounts(
                received.sender@,
                opt_view(sell.initiator),
            ),
            None => seq![received.sender@],
        },
        ExecuteMsg::OnBalanceChange(change) => match change.event {
            BalanceChangeEvent::Transfer { initiator, recipient, .. } => seq![
                initiator@,
                recipient@,
            ],
            BalanceChangeEvent::Burn { initiator, .. } => seq![initiator@],
            BalanceChangeEvent::Mint { recipient, .. } => seq![recipient@],
        },
    }
}

/// The sender of a swap and the account it names.
fn swap_accounts(sender: &String, initiator: &Option<String>) -> (r: Vec<String>)
    ensures
        texts_view(r@) == spec_swap_accounts(sender@, opt_view(*initiator)),
{
    let mut accounts: Vec<String> = Vec::new();
    accounts.push(sender.clone());
    if let Some(initiator) = initiator {
        accounts.push(initiator.clone());
    }
    assert(texts_view(accounts@) =~= spec_swap_accounts(sender@, opt_view(*initiator)));
    accounts
}

/// The accounts whose statistics `msg` can read or write.
pub fn touched_accounts(ctx: &Context, msg: &ExecuteMsg) -> (r: Vec<String>)
    ensures
        texts_view(r@) == spec_touched_accounts(*ctx, *msg),
{
    match msg {
        ExecuteMsg::SetConfig(_) => {
            let accounts: Vec<String> = Vec::new();
            assert(texts_view(accounts@) =~= Seq::<Seq<char>>::empty());
            accounts
        },
        ExecuteMsg::Buy(buy) => swap_accounts(&ctx.sender, &buy.initiator),
        ExecuteMsg::Receive(received) => match &received.msg {
            Some(Cw20ReceiveInnerMsg::Buy(buy)) => swap_accounts(&received.sender, &buy.initiator),
            Some(Cw20ReceiveInnerMsg::Sell(sell)) => swap_accounts(
                &received.sender,
                &sell.initiator,
            ),
            None => swap_accounts(&received.sender, &None),
        },
        ExecuteMsg::OnBalanceChange(change) => {
            let mut accounts: Vec<String> = Vec::new();
            match &change.event {
                BalanceChangeEvent::Transfer { initiator, recipient, .. } => {
                    accounts.push(initiator.clone());
                    accounts.push(recipient.clone());
                },
                BalanceChangeEvent::Burn { initiator, .. } => {
                    accounts.push(initiator.clone());
                },
                BalanceChangeEvent::Mint { recipient, .. } => {
                    accounts.push(recipient.clone());
                },
            }
            assert(texts_view(accounts@) =~= spec_touched_accounts(*ctx, *msg));
            accounts
        },
    }
}

/// The characters of an optional token.
pub open spec fn opt_token_view(token: Option<Token>) -> Option<TokenView> {
    match token {
        Some(token) => Some(token@),
        None => None,
    }
}

/// That two states hold the same pool, settings, fee totals and global
/// statistics.
pub open spec fn same_singletons(a: State, b: State) -> bool {
    &&& a.curve == b.curve
    &&& a.quote_reserve_virtual == b.quote_reserve_virtual
    &&& a.quote_token@ == b.quote_token@
    &&& opt_token_view(a.base_token) == opt_token_view(b.base_token)
    &&& opt_view(a.operator_addr) == opt_view(b.operator_addr)
    &&& a.fee_addr@ == b.fee_addr@
    &&& a.fee_pct_buy == b.fee_pct_buy
    &&& a.fee_pct_sell == b.fee_pct_sell
    &&& a.net_taker_fee == b.net_taker_fee
    &&& a.net_maker_fee == b.net_maker_fee
    &&& a.taker_stats@ == b.taker_stats@
    &&& a.maker_stats@ == b.maker_stats@
}

/// That two books keep the same record, or both none, for `account`.
pub open spec fn same_record(
    a: Map<Seq<char>, AccountStats>,
    b: Map<Seq<char>, AccountStats>,
    account: Seq<char>,
) -> bool {
    &&& a.contains_key(account) == b.contains_key(account)
    &&& a.contains_key(account) ==> a[account] == b[account]
}

/// That two states keep the same records for `accounts` and the same
/// candlestick, or both none, for `bucket`.
pub open spec fn same_records(a: State, b: State, accounts: Seq<Seq<char>>, bucket: u64) -> bool {
    &&& forall|account: Seq<char>| #[trigger]
        accounts.contains(account) ==> same_record(a.account_stats@, b.account_stats@, account)
    &&& a.ohlc_bars@.contains_key(bucket) == b.ohlc_bars@.contains_key(bucket)
    &&& a.ohlc_bars@.contains_key(bucket) ==> a.ohlc_bars@[bucket] == b.ohlc_bars@[bucket]
}

/// What an operation hands back, as contracts see it.
pub open spec fn result_view(r: Result<Response, ContractError>) -> Result<
    ResponseView,
    ContractErrorView,
> {
    match r {
        Ok(response) => Ok(response@),
        Err(e) => Err(e@),
    }
}

/// A buy reads of the books only the records of its sender and of the
/// account it names, and the candlestick of its bucket: on two states that
/// agree on these and on everything else, it decides the same.
pub proof fn lemma_buy_is_local(
    a: State,
    b: State,
    ctx: Context,
    msg: BuyMsg,
    amount: Option<u128>,
    accounts: Seq<Seq<char>>,
)
    requires
        same_singletons(a, b),
        same_records(a, b, accounts, spec_bucket_start(ctx.time.spec_seconds())),
        accounts.contains(ctx.sender@),
        msg.initiator is Some ==> accounts.contains(msg.initiator->0@),
    ensures
        spec_plan_buy(a, ctx, msg, amount) == spec_plan_buy(b, ctx, msg, amount),
        spec_plan_buy(a, ctx, msg, amount) is Ok ==> accounts.contains(
            spec_plan_buy(a, ctx, msg, amount)->Ok_0.initiator,
        ),
{
    assert(spec_fill_buy(a, ctx, amount) == spec_fill_buy(b, ctx, amount));
}

/// A sell reads of the books only the records of its sender and of the
/// account it names, and the candlestick of its bucket: on two states that
/// agree on these and on everything else, it decides the same.
pub proof fn lemma_sell_is_local(
    a: State,
    b: State,
    ctx: Context,
    msg: SellMsg,
    amount: u128,
    accounts: Seq<Seq<char>>,
)
    requires
        same_singletons(a, b),
        same_records(a, b, accounts, spec_bucket_start(ctx.time.spec_seconds())),
        accounts.contains(ctx.sender@),
        msg.initiator is Some ==> accounts.contains(msg.initiator->0@),
    ensures
        spec_plan_sell(a, ctx, msg, amount) == spec_plan_sell(b, ctx, msg, amount),
        spec_plan_sell(a, ctx, msg, amount) is Ok ==> accounts.contains(
            spec_plan_sell(a, ctx, msg, amount)->Ok_0.initiator,
        ),
{
    assert(spec_fill_sell(a, msg.min_out_amount, amount) == spec_fill_sell(
        b,
        msg.min_out_amount,
        amount,
    ));
}

/// Received tokens lead to the same swap on two states with the same
/// settings.
pub proof fn lemma_route_is_local(a: State, b: State, ctx: Context, msg: Cw20ReceiveMsg)
    requires
        same_singletons(a, b),
    ensures
        spec_route(a, ctx, msg) == spec_route(b, ctx, msg),
{
}

/// A notice of changed balances reads of the books only the records of the
/// accounts it debits and credits: on two states that agree on these and on
/// everything else, it fails alike or leaves the same records for them.
pub proof fn lemma_balance_change_is_local(
    a: State,
    b: State,
    ctx: Context,
    msg: BalanceChangeMsg,
    account: Seq<char>,
)
    requires
        same_singletons(a, b),
        same_records(
            a,
            b,
            spec_touched_accounts(ctx, ExecuteMsg::OnBalanceChange(msg)),
            spec_bucket_start(ctx.time.spec_seconds()),
        ),
        spec_touched_accounts(ctx, ExecuteMsg::OnBalanceChange(msg)).contains(account),
    ensures
        ({
            let in_a = spec_on_balance_change(a, ctx.sender@, msg.event);
            let in_b = spec_on_balance_change(b, ctx.sender@, msg.event);
            &&& in_a is Ok <==> in_b is Ok
            &&& in_a is Err ==> in_a == in_b
            &&& in_a is Ok ==> same_record(in_a->Ok_0, in_b->Ok_0, account)
        }),
{
    let accounts = spec_touched_accounts(ctx, ExecuteMsg::OnBalanceChange(msg));
    match msg.event {
        BalanceChangeEvent::Transfer { initiator, recipient, .. } => {
            assert(accounts[0] == initiator@);
            assert(accounts[1] == recipient@);
            assert(accounts.contains(initiator@));
            assert(accounts.contains(recipient@));
        },
        BalanceChangeEvent::Burn { initiator, .. } => {
            assert(accounts[0] == initiator@);
            assert(accounts.contains(initiator@));
        },
        BalanceChangeEvent::Mint { recipient, .. } => {
            assert(accounts[0] == recipient@);
            assert(accounts.contains(recipient@));
        },
    }
}

/// An operation writes of the books only the records of the accounts it
/// touches and the candlestick of its bucket.
pub proof fn lemma_execute_writes_only_touched(
    before: State,
    after: State,
    ctx: Context,
    msg: ExecuteMsg,
    r: Result<Response, ContractError>,
    account: Seq<char>,
    bucket: u64,
)
    requires
        is_execute_outcome(before, after, ctx, msg, r),
    ensures
        !spec_touched_accounts(ctx, msg).contains(account) ==> same_record(
            after.account_stats@,
            before.account_stats@,
            account,
        ),
        bucket != spec_bucket_start(ctx.time.spec_seconds()) ==> {
            &&& after.ohlc_bars@.contains_key(bucket) == before.ohlc_bars@.contains_key(bucket)
            &&& after.ohlc_bars@.contains_key(bucket) ==> after.ohlc_bars@[bucket]
                == before.ohlc_bars@[bucket]
        },
{
    let accounts = spec_touched_accounts(ctx, msg);
    match msg {
        ExecuteMsg::SetConfig(_) => {},
        ExecuteMsg::Buy(buy) => {
            lemma_swap_accounts_hold(ctx.sender@, opt_view(buy.initiator));
        },
        ExecuteMsg::Receive(received) => {
            match received.msg {
                Some(Cw20ReceiveInnerMsg::Buy(buy)) => {
                    lemma_swap_accounts_hold(received.sender@, opt_view(buy.initiator));
                },
                Some(Cw20ReceiveInnerMsg::Sell(sell)) => {
                    lemma_swap_accounts_hold(received.sender@, opt_view(sell.initiator));
                },
                None => {},
            }
        },
        ExecuteMsg::OnBalanceChange(change) => {
            match change.event {
                BalanceChangeEvent::Transfer { initiator, recipient, .. } => {
                    assert(accounts[0] == initiator@);
                    assert(accounts[1] == recipient@);
                },
                BalanceChangeEvent::Burn { initiator, .. } => {
                    assert(accounts[0] == initiator@);
                },
                BalanceChangeEvent::Mint { recipient, .. } => {
                    assert(accounts[0] == recipient@);
                },
            }
        },
    }
}

/// The accounts of a swap hold its sender and the account it names.
pub proof fn lemma_swap_accounts_hold(sender: Seq<char>, initiator: Option<Seq<char>>)
    ensures
        spec_swap_accounts(sender, initiator).contains(sender),
        initiator is Some ==> spec_swap_accounts(sender, initiator).contains(initiator->0),
{
    let accounts = spec_swap_accounts(sender, initiator);
    assert(accounts[0] == sender);
    if initiator is Some {
        assert(accounts[1] == initiator->0);
    }
}

/// An operation reads of the books only the records of the accounts it
/// touches and the candlestick of its bucket. Carried out on two states
/// that agree on these and on everything else, it hands back the same, and
/// the two states agree again afterwards.
pub proof fn lemma_execute_is_local(
    a: State,
    a_after: State,
    a_r: Result<Response, ContractError>,
    b: State,
    b_after: State,
    b_r: Result<Response, ContractError>,
    ctx: Context,
    msg: ExecuteMsg,
)
    requires
        is_execute_outcome(a, a_after, ctx, msg, a_r),
        is_execute_outcome(b, b_after, ctx, msg, b_r),
        same_singletons(a, b),
        same_records(
            a,
            b,
            spec_touched_accounts(ctx, msg),
            spec_bucket_start(ctx.time.spec_seconds()),
        ),
    ensures
        result_view(a_r) == result_view(b_r),
        same_singletons(a_after, b_after),
        same_records(
            a_after,
            b_after,
            spec_touched_accounts(ctx, msg),
            spec_bucket_start(ctx.time.spec_seconds()),
        ),
{
    let accounts = spec_touched_accounts(ctx, msg);
    match msg {
        ExecuteMsg::SetConfig(_) => {},
        ExecuteMsg::Buy(buy) => {
            lemma_swap_accounts_hold(ctx.sender@, opt_view(buy.initiator));
            lemma_buy_is_local(a, b, ctx, buy, None, accounts);
        },
        ExecuteMsg::Receive(received) => {
            lemma_route_is_local(a, b, ctx, received);
            match spec_route(a, ctx, received) {
                Err(_) => {},
                Ok(Route::Buy { ctx: inner, buy, amount }) => {
                    let named = received.msg->0->Buy_0.initiator;
                    lemma_swap_accounts_hold(received.sender@, opt_view(named));
                    lemma_buy_is_local(a, b, inner, buy, Some(amount), accounts);
                },
                Ok(Route::Sell { ctx: inner, sell, amount }) => {
                    let named = received.msg->0->Sell_0.initiator;
                    lemma_swap_accounts_hold(received.sender@, opt_view(named));
                    lemma_sell_is_local(a, b, inner, sell, amount, accounts);
                },
            }
        },
        ExecuteMsg::OnBalanceChange(change) => {
            assert forall|account: Seq<char>| #[trigger] accounts.contains(account) implies same_record(
                a_after.account_stats@,
                b_after.account_stats@,
                account,
            ) by {
                lemma_balance_change_is_local(a, b, ctx, change, account);
            }
            if accounts.len() > 0 {
                lemma_balance_change_is_local(a, b, ctx, change, accounts[0]);
            }
        },
    }
}

} // verus!
