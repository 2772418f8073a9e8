//! Per-account counters and the global record of swaps.

use vstd::prelude::*;
use vstd::hash_map::StringHashMap;
use crate::context::Timestamp;
use crate::error::{ArithmeticError, ContractError, lift};
use crate::math::{add_u128, add_u32, add_u64, spec_add_u128, spec_add_u32, spec_add_u64};

verus! {

/// What is kept of one account.
#[derive(Clone, Copy, Debug, PartialEq, Eq, Structural)]
pub struct Account {
    pub stats: AccountStats,
}

/// The trading history of one account. An account that never traded has
/// the all-zero record.
#[derive(Clone, Copy, Debug, PartialEq, Eq, Structural)]
pub struct AccountStats {
    /// Buys made.
    pub n_buys: u32,
    /// Sells made.
    pub n_sells: u32,
    /// What the account's present holding has cost, in quote units.
    pub total_cost: u128,
    /// Quote units paid into the curve, after fees.
    pub net_quote_in: u128,
    /// Quote units received from the curve, after fees.
    pub net_quote_out: u128,
    /// Base units paid into the curve.
    pub net_base_in: u128,
    /// Base units received from the curve.
    pub net_base_out: u128,
}

impl Default for AccountStats {
    fn default() -> (r: Self)
        ensures
            r == AccountStats::zero(),
    {
        AccountStats {
            n_buys: 0,
            n_sells: 0,
            total_cost: 0,
            net_quote_in: 0,
            net_quote_out: 0,
            net_base_in: 0,
            net_base_out: 0,
        }
    }
}

impl AccountStats {
    /// The record of an account that never traded.
    pub open spec fn zero() -> AccountStats {
        AccountStats {
            n_buys: 0,
            n_sells: 0,
            total_cost: 0,
            net_quote_in: 0,
            net_quote_out: 0,
            net_base_in: 0,
            net_base_out: 0,
        }
    }

    /// The record after one more buy that paid `quote_in` and received
    /// `base_out`. The counter is checked first, then the quote leg, then
    /// the base leg.
    pub open spec fn spec_record_buy(self, quote_in: u128, base_out: u128) -> Result<
        AccountStats,
        ArithmeticError,
    > {
        match spec_add_u32(self.n_buys, 1) {
            Err(e) => Err(e),
            Ok(n_buys) => match spec_add_u128(self.net_quote_in, quote_in) {
                Err(e) => Err(e),
                Ok(net_quote_in) => match spec_add_u128(self.net_base_out, base_out) {
                    Err(e) => Err(e),
                    Ok(net_base_out) => Ok(
                        AccountStats { n_buys, net_quote_in, net_base_out, ..self },
                    ),
                },
            },
        }
    }

    /// The record after one more sell that paid `base_in` and received
    /// `quote_out`. The counter is checked first, then the base leg, then
    /// the quote leg.
    pub open spec fn spec_record_sell(self, base_in: u128, quote_out: u128) -> Result<
        AccountStats,
        ArithmeticError,
    > {
        match spec_add_u32(self.n_sells, 1) {
            Err(e) => Err(e),
            Ok(n_sells) => match spec_add_u128(self.net_base_in, base_in) {
                Err(e) => Err(e),
                Ok(net_base_in) => match spec_add_u128(self.net_quote_out, quote_out) {
                    Err(e) => Err(e),
                    Ok(net_quote_out) => Ok(
                        AccountStats { n_sells, net_base_in, net_quote_out, ..self },
                    ),
                },
            },
        }
    }

    /// Counts a buy and adds its two legs to the account's flows.
    pub fn record_buy(self, quote_in: u128, base_out: u128) -> (r: Result<
        AccountStats,
        ContractError,
    >)
        ensures
            r == lift(self.spec_record_buy(quote_in, base_out)),
    {
        let n_buys: u32 = add_u32(self.n_buys, 1)?;
        let net_quote_in: u128 = add_u128(self.net_quote_in, quote_in)?;
        let net_base_out: u128 = add_u128(self.net_base_out, base_out)?;
        Ok(AccountStats { n_buys, net_quote_in, net_base_out, ..self })
    }

    /// Counts a sell and adds its two legs to the account's flows.
    pub fn record_sell(self, base_in: u128, quote_out: u128) -> (r: Result<
        AccountStats,
        ContractError,
    >)
        ensures
            r == lift(self.spec_record_sell(base_in, quote_out)),
    {
        let n_sells: u32 = add_u32(self.n_sells, 1)?;
        let net_base_in: u128 = add_u128(self.net_base_in, base_in)?;
        let net_quote_out: u128 = add_u128(self.net_quote_out, quote_out)?;
        Ok(AccountStats { n_sells, net_base_in, net_quote_out, ..self })
    }
}

/// The statistics of every account that has been touched, by the account's
/// address. Its view is the map from addresses to records.
pub struct AccountBook {
    entries: StringHashMap<AccountStats>,
}

impl View for AccountBook {
    type V = Map<Seq<char>, AccountStats>;

    closed spec fn view(&self) -> Map<Seq<char>, AccountStats> {
        self.entries@
    }
}

/// The record kept for `account` in `stats`, or the all-zero record where
/// none is kept.
pub open spec fn spec_stats_of(stats: Map<Seq<char>, AccountStats>, account: Seq<char>) -> AccountStats {
    if stats.contains_key(account) {
        stats[account]
    } else {
        AccountStats::zero()
    }
}

impl AccountBook {
    /// The book in which no account has been touched.
    pub fn new() -> (r: AccountBook)
        ensures
            r@ == Map::<Seq<char>, AccountStats>::empty(),
    {
        AccountBook { entries: StringHashMap::new() }
    }

    /// The number of accounts that have been touched.
    pub fn len(&self) -> (r: usize)
        ensures
            r == self@.len(),
    {
        self.entries.len()
    }

    /// Whether no account has been touched.
    pub fn is_empty(&self) -> (r: bool)
        ensures
            r == self@.is_empty(),
    {
        self.entries.is_empty()
    }

    /// The record kept for `account`, if one is kept.
    pub fn get<'a>(&'a self, account: &str) -> (r: Option<&'a AccountStats>)
        ensures
            match r {
                Some(stats) => self@.contains_key(account@) && *stats == self@[account@],
                None => !self@.contains_key(account@),
            },
    {
        self.entries.get(account)
    }

    /// The record kept for `account`, or the all-zero record where none is
    /// kept.
    pub fn stats_of(&self, account: &str) -> (r: AccountStats)
        ensures
            r == spec_stats_of(self@, account@),
    {
        match self.entries.get(account) {
            Some(stats) => *stats,
            None => AccountStats::default(),
        }
    }

    /// Keeps `stats` as the record of `account`, in place of any record
    /// kept for it before.
    pub fn insert(&mut self, account: String, stats: AccountStats)
        ensures
            final(self)@ == old(self)@.insert(account@, stats),
    {
        self.entries.insert(account, stats);
    }
}

/// The largest swap seen so far on one side.
#[derive(Debug, PartialEq, Eq)]
pub struct MaxSwapInfo {
    /// The account the swap was made for.
    pub initiator: String,
    /// The amount that ranks the swap.
    pub amount: u128,
    /// When it was made.
    pub time: Timestamp,
}

/// A `MaxSwapInfo` as contracts see it.
pub struct MaxSwapInfoView {
    pub initiator: Seq<char>,
    pub amount: u128,
    pub time: Timestamp,
}

impl View for MaxSwapInfo {
    type V = MaxSwapInfoView;

    open spec fn view(&self) -> MaxSwapInfoView {
        MaxSwapInfoView { initiator: self.initiator@, amount: self.amount, time: self.time }
    }
}

impl Clone for MaxSwapInfo {
    fn clone(&self) -> (r: Self)
        ensures
            r == *self,
    {
        MaxSwapInfo { initiator: self.initiator.clone(), amount: self.amount, time: self.time }
    }
}

/// The swaps of one side, buys or sells: how many there were, and the
/// largest of them.
#[derive(Debug, PartialEq, Eq)]
pub struct SwapStats {
    /// The number of swaps.
    pub n: u64,
    /// The largest swap, once there has been one. Of two swaps of the same
    /// amount the earlier stays.
    pub max: Option<MaxSwapInfo>,
}

/// A `SwapStats` as contracts see it.
pub struct SwapStatsView {
    pub n: u64,
    pub max: Option<MaxSwapInfoView>,
}

impl View for SwapStats {
    type V = SwapStatsView;

    open spec fn view(&self) -> SwapStatsView {
        SwapStatsView {
            n: self.n,
            max: match self.max {
                Some(m) => Some(m@),
                None => None,
            },
        }
    }
}

impl Clone for SwapStats {
    fn clone(&self) -> (r: Self)
        ensures
            r == *self,
    {
        SwapStats {
            n: self.n,
            max: match &self.max {
                Some(m) => Some(m.clone()),
                None => None,
            },
        }
    }
}

impl Default for SwapStats {
    fn default() -> (r: Self)
        ensures
            r@ == SwapStatsView::empty(),
    {
        SwapStats { n: 0, max: None }
    }
}

impl SwapStatsView {
    /// No swap yet.
    pub open spec fn empty() -> SwapStatsView {
        SwapStatsView { n: 0, max: None }
    }

    /// The statistics after one more swap of `amount` made for `initiator`
    /// at `time`: the count grows by one, and the swap becomes the largest
    /// where there was none or its amount is strictly greater.
    pub open spec fn spec_record(self, amount: u128, initiator: Seq<char>, time: Timestamp) -> Result<
        SwapStatsView,
        ArithmeticError,
    > {
        match spec_add_u64(self.n, 1) {
            Err(e) => Err(e),
            Ok(n) => Ok(
                SwapStatsView {
                    n,
                    max: if self.max is None || amount > self.max->0.amount {
                        Some(MaxSwapInfoView { initiator, amount, time })
                    } else {
                        self.max
                    },
                },
            ),
        }
    }
}

impl SwapStats {
    /// Counts a swap and keeps it as the largest where it is.
    pub fn record(&self, amount: u128, initiator: &String, time: Timestamp) -> (r: Result<
        SwapStats,
        ContractError,
    >)
        ensures
            match self@.spec_record(amount, initiator@, time) {
                Ok(stats) => r is Ok && r->Ok_0@ == stats,
                Err(e) => r == Err::<SwapStats, ContractError>(ContractError::Arithmetic(e)),
            },
    {
        let n: u64 = add_u64(self.n, 1)?;
        let replace = match &self.max {
            None => true,
            Some(m) => amount > m.amount,
        };
        if replace {
            Ok(SwapStats { n, max: Some(MaxSwapInfo { initiator: initiator.clone(), amount, time }) })
        } else {
            Ok(SwapStats { n, max: self.max.clone() })
        }
    }
}

} // verus!
