//! The messages the curve takes and the answers its queries give.

use vstd::prelude::*;
use crate::models::account::{AccountStats, SwapStats};
use crate::models::config::Config;
use crate::math::U256;
use crate::token::Token;

verus! {

/// How the base asset's token contract is to be created.
#[derive(Debug, PartialEq, Eq)]
pub struct BaseTokenInitArgs {
    /// The code from which the token contract is instantiated.
    pub code_id: u64,
    pub symbol: String,
    pub decimals: u8,
    pub name: String,
    pub image_url: Option<String>,
    pub description: Option<String>,
    pub project_url: Option<String>,
    /// The largest supply that minting may reach, if there is a limit.
    pub cap: Option<u128>,
}

/// The quote asset and its decimals.
#[derive(Debug, PartialEq, Eq)]
pub struct QuoteTokenInitArgs {
    pub token: Token,
    pub decimals: u8,
}

/// What the curve is created with.
#[derive(Debug, PartialEq, Eq)]
pub struct InstantiateMsg {
    /// The account that alone may swap, for others, once it is set.
    pub operator_addr: Option<String>,
    pub base_token: BaseTokenInitArgs,
    /// The base units the pool starts with.
    pub base_reserve: u128,
    pub quote_token: QuoteTokenInitArgs,
    /// The virtual quote units the pool starts with.
    pub quote_reserve: u128,
    /// The buy-side fee, in parts per million.
    pub taker_fee_pct: u128,
    /// The sell-side fee, in parts per million.
    pub maker_fee_pct: u128,
    /// The account that receives the fees.
    pub fee_addr: String,
}

/// A notice that balances of the base asset have changed.
#[derive(Debug, PartialEq, Eq)]
pub struct BalanceChangeMsg {
    pub event: BalanceChangeEvent,
}

/// Tokens received from a token contract, with the swap to make of them.
#[derive(Debug, PartialEq, Eq)]
pub struct Cw20ReceiveMsg {
    /// The account that sent the tokens.
    pub sender: String,
    /// How many it sent.
    pub amount: u128,
    /// The swap asked for, or nothing where the payload does not decode to
    /// one.
    pub msg: Option<Cw20ReceiveInnerMsg>,
}

/// The host's report on something it was asked to do.
#[derive(Debug, PartialEq, Eq)]
pub struct Reply {
    /// The number the request was made under.
    pub id: u64,
    /// The data that came back, if any, or the failure as text.
    pub result: Result<Option<Vec<u8>>, String>,
}

/// What the curve can be asked to do.
#[derive(Debug, PartialEq, Eq)]
pub enum ExecuteMsg {
    SetConfig(Config),
    Receive(Cw20ReceiveMsg),
    OnBalanceChange(BalanceChangeMsg),
    Buy(BuyMsg),
}

/// What the curve can be asked about.
#[derive(Debug, PartialEq, Eq)]
pub enum QueryMsg {
    Config {},
    Overview {},
    Account { address: String },
}

/// What a migration carries: nothing.
#[derive(Clone, Copy, Debug, PartialEq, Eq, Structural)]
pub struct MigrateMsg {}

/// The answer to the configuration query.
#[derive(Clone, Copy, Debug, PartialEq, Eq, Structural)]
pub struct ConfigResponse(pub Config);

/// The fee settings.
#[derive(Debug, PartialEq, Eq)]
pub struct CurveFeeOverview {
    pub recipient: String,
    pub taker_pct: u128,
    pub maker_pct: u128,
}

/// The global statistics.
#[derive(Debug, PartialEq, Eq)]
pub struct CurveStatsOverview {
    /// The buys.
    pub bids: SwapStats,
    /// The sells.
    pub asks: SwapStats,
    pub net_maker_fee: u128,
    pub net_taker_fee: u128,
}

/// The pool.
#[derive(Debug, PartialEq, Eq)]
pub struct CurveAmmOverview {
    pub base_token: Token,
    pub base_reserve: u128,
    pub base_decimals: u8,
    pub quote_token: Token,
    /// The quote units that can be redeemed: the reserve less the virtual
    /// offset.
    pub quote_reserve_real: u128,
    pub quote_reserve_virtual: u128,
    pub quote_decimals: u8,
    pub constant_product: U256,
}

/// The answer to the overview query.
#[derive(Debug, PartialEq, Eq)]
pub struct OverviewResponse {
    pub fees: CurveFeeOverview,
    pub stats: CurveStatsOverview,
    pub amm: CurveAmmOverview,
}

/// The answer to the account query.
#[derive(Clone, Copy, Debug, PartialEq, Eq, Structural)]
pub struct AccountResponse {
    pub stats: AccountStats,
}

/// A buy: quote units in, base units out.
#[derive(Debug, PartialEq, Eq)]
pub struct BuyMsg {
    /// The account to buy for, where it is not the sender.
    pub initiator: Option<String>,
    /// The fewest base units the buyer accepts.
    pub min_out_amount: Option<u128>,
}

/// A sell: base units in, quote units out.
#[derive(Debug, PartialEq, Eq)]
pub struct SellMsg {
    /// The account to sell for, where it is not the sender.
    pub initiator: Option<String>,
    /// The fewest quote units the seller accepts, before the fee.
    pub min_out_amount: Option<u128>,
}

/// The swap that comes with received tokens.
#[derive(Debug, PartialEq, Eq)]
pub enum Cw20ReceiveInnerMsg {
    Buy(BuyMsg),
    Sell(SellMsg),
}

/// A change of balances of the base asset. A balance given here is the
/// balance before the change.
#[derive(Debug, PartialEq, Eq)]
pub enum BalanceChangeEvent {
    Transfer {
        initiator: String,
        recipient: String,
        initiator_balance: u128,
        recipient_balance: u128,
        amount: u128,
    },
    Burn { initiator: String, initiator_balance: u128, amount: u128 },
    Mint { initiator: String, recipient: String, recipient_balance: u128, amount: u128 },
}

} // verus!
