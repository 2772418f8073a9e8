use cw_curve::context::{Context, Timestamp};
use cw_curve::error::{ArithmeticError, ContractError};
use cw_curve::execute::on_balance_change::{
    calc_avg_cost_basis, credit, debit, exec_on_balance_change, update_initiator_total_cost,
    update_recipient_total_cost,
};
use cw_curve::models::account::AccountStats;
use cw_curve::msg::{
    BalanceChangeEvent, BalanceChangeMsg, BaseTokenInitArgs, InstantiateMsg, QuoteTokenInitArgs,
};
use cw_curve::response::Action;
use cw_curve::state::{init_with_token_msg, set_base_token, State};
use cw_curve::token::Token;

fn ctx(sender: &str) -> Context {
    Context {
        contract_addr: "curve".to_string(),
        time: Timestamp { nanos: 0 },
        sender: sender.to_string(),
        funds: vec![],
    }
}

fn market() -> State {
    let msg = InstantiateMsg {
        operator_addr: None,
        base_token: BaseTokenInitArgs {
            code_id: 1,
            symbol: "BASE".to_string(),
            decimals: 6,
            name: "Base".to_string(),
            image_url: None,
            description: None,
            project_url: None,
            cap: None,
        },
        base_reserve: 1_000_000,
        quote_token: QuoteTokenInitArgs { token: Token::Denom("uquote".to_string()), decimals: 6 },
        quote_reserve: 1_000,
        taker_fee_pct: 0,
        maker_fee_pct: 0,
        fee_addr: "treasury".to_string(),
    };
    let (mut state, _) = init_with_token_msg(ctx("creator"), msg, Ok(vec![])).unwrap();
    set_base_token(&mut state, Ok("base_token".to_string())).unwrap();
    state
}

fn with_cost(total_cost: u128) -> AccountStats {
    AccountStats { total_cost, n_buys: 2, net_quote_in: 5, ..AccountStats::default() }
}

fn transfer(initiator: &str, recipient: &str, initiator_balance: u128, amount: u128) -> BalanceChangeMsg {
    BalanceChangeMsg {
        event: BalanceChangeEvent::Transfer {
            initiator: initiator.to_string(),
            recipient: recipient.to_string(),
            initiator_balance,
            recipient_balance: 0,
            amount,
        },
    }
}

fn burn(initiator: &str, initiator_balance: u128, amount: u128) -> BalanceChangeMsg {
    BalanceChangeMsg {
        event: BalanceChangeEvent::Burn {
            initiator: initiator.to_string(),
            initiator_balance,
            amount,
        },
    }
}

fn mint(recipient: &str, amount: u128) -> BalanceChangeMsg {
    BalanceChangeMsg {
        event: BalanceChangeEvent::Mint {
            initiator: "minter".to_string(),
            recipient: recipient.to_string(),
            recipient_balance: 0,
            amount,
        },
    }
}

fn underflow<T>() -> Result<T, ContractError> {
    Err(ContractError::Arithmetic(ArithmeticError::Underflow))
}

#[test]
fn average_cost_is_cost_per_unit_scaled() {
    // 500 * 10^6 / 2_000
    assert_eq!(calc_avg_cost_basis(6, 500, 2_000), Ok(250_000));
    // 10 * 10^2 / 3, rounded down
    assert_eq!(calc_avg_cost_basis(2, 10, 3), Ok(333));
    assert_eq!(
        calc_avg_cost_basis(6, 500, 0),
        Err(ContractError::Arithmetic(ArithmeticError::DivideByZero))
    );
    assert_eq!(
        calc_avg_cost_basis(39, 500, 1),
        Err(ContractError::Arithmetic(ArithmeticError::Overflow))
    );
    assert_eq!(
        calc_avg_cost_basis(38, u128::MAX, 1),
        Err(ContractError::Arithmetic(ArithmeticError::Overflow))
    );
}

#[test]
fn debit_removes_the_share_of_the_units_given_away() {
    // cost per unit = 500 * 10^6 / 2_000 = 250_000; removed = 400 * 250_000 / 10^6 = 100
    assert_eq!(debit(6, with_cost(500), 2_000, 400), Ok(with_cost(400)));
    // cost per unit = 10 * 10^2 / 3 = 333; removed = 2 * 333 / 10^2 = 6
    assert_eq!(debit(2, with_cost(10), 3, 2), Ok(with_cost(4)));
}

#[test]
fn debit_of_the_whole_balance_leaves_no_cost() {
    assert_eq!(debit(6, with_cost(500), 2_000, 2_000), Ok(with_cost(0)));
    // by the formula a residue of 1 would stay: 10 * 10^2 / 3 = 333; 3 * 333 / 10^2 = 9
    assert_eq!(debit(2, with_cost(10), 3, 3), Ok(with_cost(0)));
    // no balance and nothing given away: nothing is left either
    assert_eq!(debit(6, with_cost(500), 0, 0), Ok(with_cost(0)));
    // the scale is not needed for that
    assert_eq!(debit(200, with_cost(500), 7, 7), Ok(with_cost(0)));
}

#[test]
fn debit_of_nothing_keeps_the_cost() {
    assert_eq!(debit(6, with_cost(500), 2_000, 0), Ok(with_cost(500)));
}

#[test]
fn debit_beyond_the_balance_underflows() {
    // cost per unit 250_000; removed = 4_000 * 250_000 / 10^6 = 1_000 > 500
    assert_eq!(debit(6, with_cost(500), 2_000, 4_000), underflow());
}

#[test]
fn debit_from_no_balance_divides_by_zero() {
    assert_eq!(
        debit(6, with_cost(500), 0, 1),
        Err(ContractError::Arithmetic(ArithmeticError::DivideByZero))
    );
}

#[test]
fn credit_takes_the_amount_off_the_cost() {
    assert_eq!(credit(with_cost(500), 200), Ok(with_cost(300)));
    assert_eq!(credit(with_cost(500), 500), Ok(with_cost(0)));
    assert_eq!(credit(with_cost(500), 501), underflow());
    assert_eq!(credit(AccountStats::default(), 0), Ok(AccountStats::default()));
}

#[test]
fn updates_write_the_account_or_nothing() {
    let mut state = market();
    state.account_stats.insert("alice".to_string(), with_cost(500));
    assert_eq!(
        update_initiator_total_cost(&mut state.account_stats, 6, &"alice".to_string(), 2_000, 400),
        Ok(())
    );
    assert_eq!(state.account_stats.get("alice"), Some(&with_cost(400)));
    assert_eq!(
        update_initiator_total_cost(&mut state.account_stats, 6, &"alice".to_string(), 2_000, 40_000),
        underflow()
    );
    assert_eq!(state.account_stats.get("alice"), Some(&with_cost(400)));
    assert_eq!(
        update_recipient_total_cost(&mut state.account_stats, &"alice".to_string(), 150),
        Ok(())
    );
    assert_eq!(state.account_stats.get("alice"), Some(&with_cost(250)));
    assert_eq!(
        update_recipient_total_cost(&mut state.account_stats, &"bob".to_string(), 1),
        underflow()
    );
    assert_eq!(state.account_stats.get("bob"), None);
    // an untouched account is created by its first update
    assert_eq!(
        update_recipient_total_cost(&mut state.account_stats, &"bob".to_string(), 0),
        Ok(())
    );
    assert_eq!(state.account_stats.get("bob"), Some(&AccountStats::default()));
    assert_eq!(
        update_initiator_total_cost(&mut state.account_stats, 6, &"carol".to_string(), 9, 9),
        Ok(())
    );
    assert_eq!(state.account_stats.get("carol"), Some(&AccountStats::default()));
}

#[test]
fn full_withdrawal_resets_the_cost_to_zero() {
    let mut state = market();
    state.account_stats.insert("alice".to_string(), with_cost(10));
    state.curve.quote_decimals = 2;
    let response = exec_on_balance_change(&mut state, ctx("base_token"), burn("alice", 3, 3)).unwrap();
    assert_eq!(response.action, Some(Action::OnBalanceChange));
    assert_eq!(response.trade, None);
    assert!(response.messages.is_empty());
    assert_eq!(state.account_stats.get("alice"), Some(&with_cost(0)));
}

#[test]
fn transfer_debits_the_sender_and_credits_the_recipient() {
    let mut state = market();
    state.account_stats.insert("alice".to_string(), with_cost(500));
    state.account_stats.insert("bob".to_string(), with_cost(450));
    exec_on_balance_change(&mut state, ctx("base_token"), transfer("alice", "bob", 2_000, 400)).unwrap();
    assert_eq!(state.account_stats.get("alice"), Some(&with_cost(400)));
    assert_eq!(state.account_stats.get("bob"), Some(&with_cost(50)));
    assert_eq!(state.curve.base_reserve, 1_000_000);
    assert_eq!(state.net_taker_fee, 0);
}

#[test]
fn failed_credit_undoes_the_debit() {
    let mut state = market();
    state.account_stats.insert("alice".to_string(), with_cost(500));
    assert_eq!(
        exec_on_balance_change(&mut state, ctx("base_token"), transfer("alice", "bob", 2_000, 400)),
        underflow()
    );
    assert_eq!(state.account_stats.get("alice"), Some(&with_cost(500)));
    assert_eq!(state.account_stats.get("bob"), None);
    assert_eq!(state.account_stats.len(), 1);
}

#[test]
fn transfer_to_oneself_credits_what_the_debit_left() {
    let mut state = market();
    state.account_stats.insert("alice".to_string(), with_cost(500));
    // debit: 500 - 100 = 400; credit: 400 - 400 = 0
    exec_on_balance_change(&mut state, ctx("base_token"), transfer("alice", "alice", 2_000, 400))
        .unwrap();
    assert_eq!(state.account_stats.get("alice"), Some(&with_cost(0)));
    assert_eq!(state.account_stats.len(), 1);
    // debit: 300 - 50 = 250; credit: 250 - 500 underflows
    state.account_stats.insert("alice".to_string(), with_cost(300));
    assert_eq!(
        exec_on_balance_change(&mut state, ctx("base_token"), transfer("alice", "alice", 3_000, 500)),
        underflow()
    );
    assert_eq!(state.account_stats.get("alice"), Some(&with_cost(300)));
}

#[test]
fn mint_credits_the_recipient() {
    let mut state = market();
    state.account_stats.insert("bob".to_string(), with_cost(450));
    exec_on_balance_change(&mut state, ctx("base_token"), mint("bob", 50)).unwrap();
    assert_eq!(state.account_stats.get("bob"), Some(&with_cost(400)));
    assert_eq!(exec_on_balance_change(&mut state, ctx("base_token"), mint("bob", 401)), underflow());
    assert_eq!(state.account_stats.get("bob"), Some(&with_cost(400)));
}

#[test]
fn burn_debits_the_initiator() {
    let mut state = market();
    state.account_stats.insert("alice".to_string(), with_cost(500));
    exec_on_balance_change(&mut state, ctx("base_token"), burn("alice", 2_000, 400)).unwrap();
    assert_eq!(state.account_stats.get("alice"), Some(&with_cost(400)));
}

#[test]
fn only_the_base_token_may_report() {
    let mut state = market();
    state.account_stats.insert("alice".to_string(), with_cost(500));
    assert_eq!(
        exec_on_balance_change(&mut state, ctx("mallory"), burn("alice", 2_000, 2_000)),
        Err(ContractError::NotAuthorized {
            reason: "OnBalanceChange received msg from unrecognized cw20: mallory".to_string()
        })
    );
    assert_eq!(state.account_stats.get("alice"), Some(&with_cost(500)));
    state.base_token = Some(Token::Denom("base_token".to_string()));
    assert_eq!(
        exec_on_balance_change(&mut state, ctx("base_token"), burn("alice", 2_000, 2_000)),
        Err(ContractError::NotAuthorized {
            reason: "OnBalanceChange received msg from unrecognized cw20: base_token".to_string()
        })
    );
    state.base_token = None;
    assert_eq!(
        exec_on_balance_change(&mut state, ctx("base_token"), burn("alice", 2_000, 2_000)),
        Err(ContractError::NotFound { kind: "base_token".to_string() })
    );
    assert_eq!(state.account_stats.get("alice"), Some(&with_cost(500)));
}
