use cw_curve::context::{Context, Timestamp};
use cw_curve::error::{ArithmeticError, ContractError};
use cw_curve::execute::buy_sell::{build_fee_transfer_submsg, exec_buy, exec_sell, gross_input};
use cw_curve::models::account::{AccountStats, MaxSwapInfo, SwapStats};
use cw_curve::models::ohlc::OhlcBar;
use cw_curve::msg::{BaseTokenInitArgs, BuyMsg, InstantiateMsg, QuoteTokenInitArgs, SellMsg};
use cw_curve::response::{Action, SubMsg, TradeReceipt};
use cw_curve::state::{init_with_token_msg, set_base_token, State};
use cw_curve::token::{Coin, Token, Transfer};

fn at(seconds: u64) -> Timestamp {
    Timestamp::from_seconds(seconds).unwrap()
}

fn ctx(sender: &str, seconds: u64, funds: Vec<Coin>) -> Context {
    Context { contract_addr: "curve".to_string(), time: at(seconds), sender: sender.to_string(), funds }
}

fn uquote(amount: u128) -> Vec<Coin> {
    vec![Coin { denom: "uquote".to_string(), amount }]
}

fn market(taker_fee_pct: u128, maker_fee_pct: u128, operator: Option<&str>) -> State {
    let msg = InstantiateMsg {
        operator_addr: operator.map(|o| o.to_string()),
        base_token: BaseTokenInitArgs {
            code_id: 1,
            symbol: "BASE".to_string(),
            decimals: 6,
            name: "Base".to_string(),
            image_url: None,
            description: None,
            project_url: None,
            cap: None,
        },
        base_reserve: 1_000_000,
        quote_token: QuoteTokenInitArgs { token: Token::Denom("uquote".to_string()), decimals: 6 },
        quote_reserve: 1_000,
        taker_fee_pct,
        maker_fee_pct,
        fee_addr: "treasury".to_string(),
    };
    let (mut state, _) = init_with_token_msg(ctx("creator", 0, vec![]), msg, Ok(vec![])).unwrap();
    set_base_token(&mut state, Ok("base_token".to_string())).unwrap();
    state
}

fn buy(initiator: Option<&str>, min_out_amount: Option<u128>) -> BuyMsg {
    BuyMsg { initiator: initiator.map(|i| i.to_string()), min_out_amount }
}

fn sell(initiator: Option<&str>, min_out_amount: Option<u128>) -> SellMsg {
    SellMsg { initiator: initiator.map(|i| i.to_string()), min_out_amount }
}

fn pay(token: Token, recipient: &str, amount: u128) -> SubMsg {
    SubMsg::Transfer(Transfer { token, recipient: recipient.to_string(), amount })
}

fn base() -> Token {
    Token::Address("base_token".to_string())
}

fn quote() -> Token {
    Token::Denom("uquote".to_string())
}

/// The parts of the state that a swap may touch, for comparison.
fn snapshot(
    state: &State,
    accounts: &[&str],
) -> (cw_curve::curve::Curve, u128, u128, SwapStats, SwapStats, Vec<(u64, OhlcBar)>, Vec<Option<AccountStats>>, usize)
{
    (
        state.curve,
        state.net_taker_fee,
        state.net_maker_fee,
        state.taker_stats.clone(),
        state.maker_stats.clone(),
        state.ohlc_bars.iter().map(|(t, bar)| (*t, *bar)).collect(),
        accounts.iter().map(|a| state.account_stats.get(a).copied()).collect(),
        state.account_stats.len(),
    )
}

#[test]
fn fee_free_buy_follows_the_curve() {
    let mut state = market(0, 0, None);
    let response = exec_buy(&mut state, ctx("alice", 61, uquote(100)), buy(None, None), None).unwrap();
    assert_eq!(state.curve.quote_reserve, 1_100);
    assert_eq!(state.curve.base_reserve, 909_090);
    assert_eq!(response.action, Some(Action::Buy));
    assert_eq!(response.trade, Some(TradeReceipt { in_amount: 100, out_amount: 90_910 }));
    // no fee, so only the purchase is paid out
    assert_eq!(response.messages, vec![pay(base(), "alice", 90_910)]);
    assert_eq!(state.net_taker_fee, 0);
}

#[test]
fn buy_takes_the_fee_before_the_curve() {
    let mut state = market(10_000, 0, None);
    let response =
        exec_buy(&mut state, ctx("alice", 61, uquote(1_000)), buy(None, None), None).unwrap();
    // fee = 1_000 * 10_000 / 1_000_000 = 10, so 990 reach the curve
    assert_eq!(state.net_taker_fee, 10);
    assert_eq!(state.net_maker_fee, 0);
    assert_eq!(state.curve.quote_reserve, 1_990);
    // 1_000_000_000 / 1_990 = 502_512
    assert_eq!(state.curve.base_reserve, 502_512);
    assert_eq!(response.trade, Some(TradeReceipt { in_amount: 1_000, out_amount: 497_488 }));
    assert_eq!(
        response.messages,
        vec![pay(quote(), "treasury", 10), pay(base(), "alice", 497_488)]
    );
    assert_eq!(
        state.account_stats.stats_of("alice"),
        AccountStats { n_buys: 1, net_quote_in: 990, net_base_out: 497_488, ..AccountStats::default() }
    );
    assert_eq!(
        state.taker_stats,
        SwapStats {
            n: 1,
            max: Some(MaxSwapInfo { initiator: "alice".to_string(), amount: 497_488, time: at(61) })
        }
    );
    assert_eq!(state.maker_stats, SwapStats { n: 0, max: None });
    // the price after the swap: 1_990 * 10^6 / 502_512 = 3_960
    assert_eq!(
        state.ohlc_bars.get(&60),
        Some(&OhlcBar { o: 3_960, c: 3_960, h: 3_960, l: 3_960, vb: 497_488, vq: 990, t: 60, n: 1 })
    );
    assert_eq!(state.ohlc_bars.len(), 1);
    assert_eq!(state.account_stats.len(), 1);
}

#[test]
fn buy_leaves_the_settings_alone() {
    let mut state = market(10_000, 20_000, Some("operator"));
    exec_buy(&mut state, ctx("operator", 61, uquote(1_000)), buy(Some("alice"), None), None)
        .unwrap();
    assert_eq!(state.quote_reserve_virtual, 1_000);
    assert_eq!(state.quote_token, quote());
    assert_eq!(state.base_token, Some(base()));
    assert_eq!(state.operator_addr, Some("operator".to_string()));
    assert_eq!(state.fee_addr, "treasury");
    assert_eq!(state.fee_pct_buy, 10_000);
    assert_eq!(state.fee_pct_sell, 20_000);
}

#[test]
fn buy_with_an_announced_amount_needs_no_funds() {
    let mut state = market(0, 0, None);
    let response = exec_buy(&mut state, ctx("alice", 0, vec![]), buy(None, None), Some(100)).unwrap();
    assert_eq!(response.trade, Some(TradeReceipt { in_amount: 100, out_amount: 90_910 }));
}

#[test]
fn taker_fees_add_up_over_buys() {
    let mut state = market(25_000, 0, None);
    let inputs: [u128; 5] = [1_000, 39, 40, 123_456, 7];
    let mut expected = 0;
    for (i, input) in inputs.iter().enumerate() {
        exec_buy(&mut state, ctx("alice", i as u64, uquote(*input)), buy(None, None), None).unwrap();
        expected += input * 25_000 / 1_000_000;
        assert_eq!(state.net_taker_fee, expected);
    }
    // 25 + 0 + 1 + 3_086 + 0
    assert_eq!(state.net_taker_fee, 3_112);
    assert_eq!(state.net_maker_fee, 0);
}

#[test]
fn a_zero_fee_is_accumulated_and_not_paid() {
    let mut state = market(10_000, 0, None);
    let response = exec_buy(&mut state, ctx("alice", 0, uquote(99)), buy(None, None), None).unwrap();
    assert_eq!(state.net_taker_fee, 0);
    assert_eq!(response.messages.len(), 1);
    assert_eq!(build_fee_transfer_submsg(&"treasury".to_string(), &quote(), 0), None);
    assert_eq!(
        build_fee_transfer_submsg(&"treasury".to_string(), &quote(), 3),
        Some(pay(quote(), "treasury", 3))
    );
}

#[test]
fn buy_below_the_bound_changes_nothing() {
    let mut state = market(10_000, 0, None);
    exec_buy(&mut state, ctx("alice", 5, uquote(500)), buy(None, None), None).unwrap();
    let before = snapshot(&state, &["alice", "bob"]);
    let r = exec_buy(&mut state, ctx("bob", 6, uquote(1_000)), buy(None, Some(u128::MAX)), None);
    assert_eq!(r, Err(ContractError::TooMuchSlippage {}));
    assert_eq!(snapshot(&state, &["alice", "bob"]), before);
}

#[test]
fn buy_exactly_at_the_bound_passes() {
    let mut state = market(0, 0, None);
    assert!(exec_buy(&mut state, ctx("alice", 0, uquote(100)), buy(None, Some(90_910)), None).is_ok());
    let mut state = market(0, 0, None);
    assert_eq!(
        exec_buy(&mut state, ctx("alice", 0, uquote(100)), buy(None, Some(90_911)), None),
        Err(ContractError::TooMuchSlippage {})
    );
}

#[test]
fn sell_below_the_bound_changes_nothing() {
    let mut state = market(0, 50_000, None);
    exec_buy(&mut state, ctx("alice", 5, uquote(500)), buy(None, None), None).unwrap();
    let before = snapshot(&state, &["alice"]);
    let r = exec_sell(&mut state, ctx("alice", 6, vec![]), sell(None, Some(u128::MAX)), 1_000);
    assert_eq!(r, Err(ContractError::TooMuchSlippage {}));
    assert_eq!(snapshot(&state, &["alice"]), before);
}

#[test]
fn sell_bound_applies_before_the_fee() {
    let mut state = market(0, 500_000, None);
    // the curve gives 200; the bound of 200 is met although the seller gets 100
    let response =
        exec_sell(&mut state, ctx("alice", 0, vec![]), sell(None, Some(200)), 250_000).unwrap();
    assert_eq!(response.trade, Some(TradeReceipt { in_amount: 250_000, out_amount: 100 }));
}

#[test]
fn sell_takes_the_fee_after_the_curve() {
    let mut state = market(0, 50_000, None);
    let response =
        exec_sell(&mut state, ctx("alice", 125, vec![]), sell(None, None), 250_000).unwrap();
    // the curve gives 200; fee = 200 * 50_000 / 1_000_000 = 10
    assert_eq!(state.curve.base_reserve, 1_250_000);
    assert_eq!(state.curve.quote_reserve, 800);
    assert_eq!(state.net_maker_fee, 10);
    assert_eq!(state.net_taker_fee, 0);
    assert_eq!(response.action, Some(Action::Sell));
    assert_eq!(response.trade, Some(TradeReceipt { in_amount: 250_000, out_amount: 190 }));
    assert_eq!(
        response.messages,
        vec![pay(quote(), "treasury", 10), pay(quote(), "alice", 190)]
    );
    assert_eq!(
        state.account_stats.stats_of("alice"),
        AccountStats { n_sells: 1, net_base_in: 250_000, net_quote_out: 190, ..AccountStats::default() }
    );
    assert_eq!(
        state.maker_stats,
        SwapStats {
            n: 1,
            max: Some(MaxSwapInfo { initiator: "alice".to_string(), amount: 250_000, time: at(125) })
        }
    );
    assert_eq!(state.taker_stats, SwapStats { n: 0, max: None });
    // the price after the swap: 800 * 10^6 / 1_250_000 = 640
    assert_eq!(
        state.ohlc_bars.get(&120),
        Some(&OhlcBar { o: 640, c: 640, h: 640, l: 640, vb: 250_000, vq: 190, t: 120, n: 1 })
    );
}

#[test]
fn largest_swap_is_replaced_only_by_a_strictly_larger_one() {
    let mut state = market(0, 0, None);
    exec_sell(&mut state, ctx("alice", 1, vec![]), sell(None, None), 500).unwrap();
    exec_sell(&mut state, ctx("bob", 2, vec![]), sell(None, None), 500).unwrap();
    assert_eq!(state.maker_stats.n, 2);
    assert_eq!(
        state.maker_stats.max,
        Some(MaxSwapInfo { initiator: "alice".to_string(), amount: 500, time: at(1) })
    );
    exec_sell(&mut state, ctx("carol", 3, vec![]), sell(None, None), 499).unwrap();
    assert_eq!(state.maker_stats.max.as_ref().unwrap().initiator, "alice");
    exec_sell(&mut state, ctx("dave", 4, vec![]), sell(None, None), 501).unwrap();
    assert_eq!(state.maker_stats.n, 4);
    assert_eq!(
        state.maker_stats.max,
        Some(MaxSwapInfo { initiator: "dave".to_string(), amount: 501, time: at(4) })
    );
}

#[test]
fn swaps_of_one_minute_share_a_candlestick() {
    let mut state = market(0, 0, None);
    exec_buy(&mut state, ctx("alice", 119, uquote(100)), buy(None, None), None).unwrap();
    // price 1_100 * 10^6 / 909_090 = 1_210
    exec_sell(&mut state, ctx("alice", 60, vec![]), sell(None, None), 90_910).unwrap();
    // back at 1_000_000 base; 1_000_000_000 / 1_000_000 = 1_000 quote; price 1_000
    assert_eq!(
        state.ohlc_bars.get(&60),
        Some(&OhlcBar {
            o: 1_210,
            c: 1_000,
            h: 1_210,
            l: 1_000,
            vb: 90_910 + 90_910,
            vq: 100 + 100,
            t: 60,
            n: 2
        })
    );
    exec_buy(&mut state, ctx("alice", 120, uquote(100)), buy(None, None), None).unwrap();
    assert_eq!(state.ohlc_bars.len(), 2);
    let opened = state.ohlc_bars.get(&120).unwrap();
    assert_eq!(opened.o, 1_210);
    assert_eq!(opened.n, 1);
}

#[test]
fn buy_without_the_quote_asset_attached_misses_funds() {
    let mut state = market(0, 0, None);
    let funds = vec![Coin { denom: "uother".to_string(), amount: 100 }];
    assert_eq!(
        exec_buy(&mut state, ctx("alice", 0, funds), buy(None, None), None),
        Err(ContractError::MissingFunds { denom: "uquote".to_string() })
    );
    assert_eq!(
        exec_buy(&mut state, ctx("alice", 0, vec![]), buy(None, None), None),
        Err(ContractError::MissingFunds { denom: "uquote".to_string() })
    );
    assert_eq!(state.curve.quote_reserve, 1_000);
}

#[test]
fn buy_with_another_amount_attached_than_announced_is_refused() {
    let mut state = market(0, 0, None);
    assert_eq!(
        exec_buy(&mut state, ctx("alice", 0, uquote(99)), buy(None, None), Some(100)),
        Err(ContractError::InsufficientFunds {
            denom: "uquote".to_string(),
            amount: 99,
            exp_amount: 100
        })
    );
    assert_eq!(state.curve.quote_reserve, 1_000);
    assert!(exec_buy(&mut state, ctx("alice", 0, uquote(100)), buy(None, None), Some(100)).is_ok());
}

#[test]
fn gross_input_reads_the_first_coin_of_the_quote_asset() {
    let funds = vec![
        Coin { denom: "uother".to_string(), amount: 1 },
        Coin { denom: "uquote".to_string(), amount: 2 },
        Coin { denom: "uquote".to_string(), amount: 3 },
    ];
    assert_eq!(gross_input(&quote(), &funds, None), Ok(2));
    assert_eq!(gross_input(&quote(), &funds, Some(2)), Ok(2));
    assert_eq!(
        gross_input(&quote(), &funds, Some(3)),
        Err(ContractError::InsufficientFunds { denom: "uquote".to_string(), amount: 2, exp_amount: 3 })
    );
    // funds are native: a tracked asset is never among them
    assert_eq!(gross_input(&Token::Address("uquote".to_string()), &funds, Some(9)), Ok(9));
    assert_eq!(
        gross_input(&Token::Address("uquote".to_string()), &funds, None),
        Err(ContractError::MissingFunds { denom: "uquote".to_string() })
    );
}

#[test]
fn buy_before_the_base_token_exists_is_refused() {
    let mut state = market(0, 0, None);
    state.base_token = None;
    assert_eq!(
        exec_buy(&mut state, ctx("alice", 0, uquote(100)), buy(None, None), None),
        Err(ContractError::NotFound { kind: "base_token".to_string() })
    );
}

#[test]
fn buy_overflowing_the_fee_total_changes_nothing() {
    let mut state = market(10_000, 0, None);
    state.net_taker_fee = u128::MAX;
    let before = snapshot(&state, &["alice"]);
    assert_eq!(
        exec_buy(&mut state, ctx("alice", 0, uquote(1_000)), buy(None, None), None),
        Err(ContractError::Arithmetic(ArithmeticError::Overflow))
    );
    assert_eq!(snapshot(&state, &["alice"]), before);
}

#[test]
fn fee_above_the_whole_underflows() {
    let mut state = market(0, 0, None);
    state.fee_pct_buy = 2_000_000;
    state.fee_pct_sell = 2_000_000;
    let before = snapshot(&state, &["alice"]);
    assert_eq!(
        exec_buy(&mut state, ctx("alice", 0, uquote(1_000)), buy(None, None), None),
        Err(ContractError::Arithmetic(ArithmeticError::Underflow))
    );
    assert_eq!(
        exec_sell(&mut state, ctx("alice", 0, vec![]), sell(None, None), 250_000),
        Err(ContractError::Arithmetic(ArithmeticError::Underflow))
    );
    assert_eq!(snapshot(&state, &["alice"]), before);
}

#[test]
fn account_overflow_changes_nothing() {
    let mut state = market(10_000, 10_000, None);
    let full = AccountStats { n_buys: u32::MAX, n_sells: u32::MAX, ..AccountStats::default() };
    state.account_stats.insert("alice".to_string(), full);
    let before = snapshot(&state, &["alice"]);
    assert_eq!(
        exec_buy(&mut state, ctx("alice", 0, uquote(1_000)), buy(None, None), None),
        Err(ContractError::Arithmetic(ArithmeticError::Overflow))
    );
    assert_eq!(
        exec_sell(&mut state, ctx("alice", 0, vec![]), sell(None, None), 250_000),
        Err(ContractError::Arithmetic(ArithmeticError::Overflow))
    );
    assert_eq!(snapshot(&state, &["alice"]), before);
}

#[test]
fn swap_count_overflow_changes_nothing() {
    let mut state = market(10_000, 10_000, None);
    state.taker_stats.n = u64::MAX;
    state.maker_stats.n = u64::MAX;
    let before = snapshot(&state, &["alice"]);
    assert_eq!(
        exec_buy(&mut state, ctx("alice", 0, uquote(1_000)), buy(None, None), None),
        Err(ContractError::Arithmetic(ArithmeticError::Overflow))
    );
    assert_eq!(
        exec_sell(&mut state, ctx("alice", 0, vec![]), sell(None, None), 250_000),
        Err(ContractError::Arithmetic(ArithmeticError::Overflow))
    );
    assert_eq!(snapshot(&state, &["alice"]), before);
}

#[test]
fn candlestick_overflow_changes_nothing() {
    let mut state = market(10_000, 10_000, None);
    state.ohlc_bars.insert(0, OhlcBar { o: 1, c: 1, h: 1, l: 1, vb: u128::MAX, vq: 0, t: 0, n: 1 });
    let before = snapshot(&state, &["alice"]);
    assert_eq!(
        exec_buy(&mut state, ctx("alice", 0, uquote(1_000)), buy(None, None), None),
        Err(ContractError::Arithmetic(ArithmeticError::Overflow))
    );
    assert_eq!(
        exec_sell(&mut state, ctx("alice", 0, vec![]), sell(None, None), 250_000),
        Err(ContractError::Arithmetic(ArithmeticError::Overflow))
    );
    assert_eq!(snapshot(&state, &["alice"]), before);
}

#[test]
fn sell_draining_the_pool_divides_by_zero_at_the_price() {
    let mut state = market(0, 0, None);
    state.curve.base_reserve = 0;
    let before = snapshot(&state, &["alice"]);
    assert_eq!(
        exec_sell(&mut state, ctx("alice", 0, vec![]), sell(None, None), 0),
        Err(ContractError::Arithmetic(ArithmeticError::DivideByZero))
    );
    assert_eq!(snapshot(&state, &["alice"]), before);
}

#[test]
fn non_operator_may_not_swap() {
    let mut state = market(0, 0, Some("operator"));
    let before = snapshot(&state, &["alice", "operator"]);
    assert_eq!(
        exec_buy(&mut state, ctx("alice", 0, uquote(100)), buy(None, None), None),
        Err(ContractError::NotAuthorized { reason: "only operator operator may buy".to_string() })
    );
    assert_eq!(
        exec_buy(&mut state, ctx("alice", 0, uquote(100)), buy(Some("alice"), None), None),
        Err(ContractError::NotAuthorized { reason: "only operator operator may buy".to_string() })
    );
    assert_eq!(
        exec_sell(&mut state, ctx("alice", 0, vec![]), sell(None, None), 1_000),
        Err(ContractError::NotAuthorized { reason: "only operator operator may sell".to_string() })
    );
    assert_eq!(snapshot(&state, &["alice", "operator"]), before);
}

#[test]
fn operator_swaps_for_the_account_it_names() {
    let mut state = market(10_000, 0, Some("operator"));
    let response = exec_buy(
        &mut state,
        ctx("operator", 0, uquote(1_000)),
        buy(Some("alice"), None),
        None,
    )
    .unwrap();
    assert_eq!(
        response.messages,
        vec![pay(quote(), "treasury", 10), pay(base(), "alice", 497_488)]
    );
    assert_eq!(
        state.account_stats.get("alice"),
        Some(&AccountStats {
            n_buys: 1,
            net_quote_in: 990,
            net_base_out: 497_488,
            ..AccountStats::default()
        })
    );
    assert_eq!(state.account_stats.get("operator"), None);
    assert_eq!(state.taker_stats.max.as_ref().unwrap().initiator, "alice");

    exec_sell(&mut state, ctx("operator", 1, vec![]), sell(Some("alice"), None), 1_000).unwrap();
    assert_eq!(state.account_stats.get("alice").unwrap().n_sells, 1);
    assert_eq!(state.account_stats.get("operator"), None);
}

#[test]
fn operator_naming_nobody_swaps_for_itself() {
    let mut state = market(0, 0, Some("operator"));
    exec_buy(&mut state, ctx("operator", 0, uquote(100)), buy(None, None), None).unwrap();
    assert_eq!(state.account_stats.get("operator").unwrap().n_buys, 1);
}

#[test]
fn without_an_operator_nobody_swaps_for_another() {
    let mut state = market(0, 0, None);
    let before = snapshot(&state, &["alice", "bob"]);
    let reason =
        "only an operator can act on behalf of another account, but none is configured".to_string();
    assert_eq!(
        exec_buy(&mut state, ctx("alice", 0, uquote(100)), buy(Some("bob"), None), None),
        Err(ContractError::NotAuthorized { reason: reason.clone() })
    );
    assert_eq!(
        exec_sell(&mut state, ctx("alice", 0, vec![]), sell(Some("bob"), None), 1_000),
        Err(ContractError::NotAuthorized { reason })
    );
    assert_eq!(snapshot(&state, &["alice", "bob"]), before);
    // naming oneself is no delegation
    exec_buy(&mut state, ctx("alice", 0, uquote(100)), buy(Some("alice"), None), None).unwrap();
    assert_eq!(state.account_stats.get("alice").unwrap().n_buys, 1);
}

#[test]
fn slippage_is_reported_before_authorization() {
    let mut state = market(0, 0, Some("operator"));
    assert_eq!(
        exec_buy(&mut state, ctx("alice", 0, uquote(100)), buy(None, Some(u128::MAX)), None),
        Err(ContractError::TooMuchSlippage {})
    );
}

#[test]
fn maker_fees_add_up_over_sells() {
    let mut state = market(0, 30_000, None);
    let mut expected = 0;
    for (i, amount) in [250_000u128, 1_000, 77, 500_000].iter().enumerate() {
        let quote_before = state.curve.quote_reserve;
        exec_sell(&mut state, ctx("alice", i as u64, vec![]), sell(None, None), *amount).unwrap();
        let curve_out = quote_before - state.curve.quote_reserve;
        expected += curve_out * 30_000 / 1_000_000;
        assert_eq!(state.net_maker_fee, expected);
    }
    // the curve gives 200, 1, 0 and 228: 6 + 0 + 0 + 6
    assert_eq!(state.net_maker_fee, 12);
    assert_eq!(state.net_taker_fee, 0);
}
