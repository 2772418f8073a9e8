//! Candlesticks: one open/high/low/close bar per minute of trading.

use std::collections::BTreeMap;
use vstd::prelude::*;
use crate::context::Timestamp;
use crate::error::{ArithmeticError, ContractError, lift};
use crate::math::{add_u128, add_u32, spec_add_u128, spec_add_u32};

verus! {

/// The length of a bucket, in seconds.
pub const BUCKET_SECONDS: u64 = 60;

/// The price and volume of the trades of one bucket.
#[derive(Clone, Copy, Debug, PartialEq, Eq, Structural)]
pub struct OhlcBar {
    /// The price of the first trade.
    pub o: u128,
    /// The price of the latest trade.
    pub c: u128,
    /// The highest price.
    pub h: u128,
    /// The lowest price.
    pub l: u128,
    /// Base units traded.
    pub vb: u128,
    /// Quote units traded.
    pub vq: u128,
    /// The second at which the bucket starts.
    pub t: u64,
    /// The number of trades.
    pub n: u32,
}

/// The start of the bucket that holds `seconds`: the latest multiple of the
/// bucket length that is not after it.
pub open spec fn spec_bucket_start(seconds: u64) -> u64 {
    ((seconds / BUCKET_SECONDS) * BUCKET_SECONDS) as u64
}

/// The start of the bucket that holds `seconds`.
pub fn bucket_start(seconds: u64) -> (t: u64)
    ensures
        t == spec_bucket_start(seconds),
        t <= seconds < t + BUCKET_SECONDS,
        t % BUCKET_SECONDS == 0,
{
    seconds - (seconds % BUCKET_SECONDS)
}

impl OhlcBar {
    /// The bar of a bucket in which nothing has traded.
    pub open spec fn spec_new(t: u64) -> OhlcBar {
        OhlcBar { o: 0, c: 0, h: 0, l: 0, vb: 0, vq: 0, t, n: 0 }
    }

    /// The bar after one more trade at `price`. The first trade sets open,
    /// high and low; a later one can only raise the high and lower the low.
    /// The close is the price of the latest trade. Then the volumes are
    /// added, quote before base, and the trade is counted.
    pub open spec fn spec_record(self, price: u128, base_volume: u128, quote_volume: u128) -> Result<
        OhlcBar,
        ArithmeticError,
    > {
        let o = if self.n > 0 {
            self.o
        } else {
            price
        };
        let h = if self.n > 0 && price <= self.h {
            self.h
        } else {
            price
        };
        let l = if self.n > 0 && price >= self.l {
            self.l
        } else {
            price
        };
        match spec_add_u128(self.vq, quote_volume) {
            Err(e) => Err(e),
            Ok(vq) => match spec_add_u128(self.vb, base_volume) {
                Err(e) => Err(e),
                Ok(vb) => match spec_add_u32(self.n, 1) {
                    Err(e) => Err(e),
                    Ok(n) => Ok(OhlcBar { o, c: price, h, l, vb, vq, t: self.t, n }),
                },
            },
        }
    }

    /// The bar that a trade at `time` leaves in the series: the bar of its
    /// bucket, a new one where there was none, with the trade recorded.
    pub open spec fn spec_upsert(
        bars: Map<u64, OhlcBar>,
        time: Timestamp,
        price: u128,
        base_volume: u128,
        quote_volume: u128,
    ) -> Result<OhlcBar, ArithmeticError> {
        let t = spec_bucket_start(time.spec_seconds());
        let bar = if bars.contains_key(t) {
            bars[t]
        } else {
            OhlcBar::spec_new(t)
        };
        bar.spec_record(price, base_volume, quote_volume)
    }

    /// The bar of a bucket in which nothing has traded.
    pub fn new(t: u64) -> (r: Self)
        ensures
            r == OhlcBar::spec_new(t),
    {
        OhlcBar { o: 0, h: 0, l: 0, c: 0, vb: 0, vq: 0, n: 0, t }
    }

    /// Records one more trade in the bar.
    pub fn record(self, price: u128, base_volume: u128, quote_volume: u128) -> (r: Result<
        OhlcBar,
        ContractError,
    >)
        ensures
            r == lift(self.spec_record(price, base_volume, quote_volume)),
    {
        let mut bar = self;
        if bar.n > 0 {
            if price > bar.h {
                bar.h = price;
            }
            if price < bar.l {
                bar.l = price;
            }
        } else {
            bar.o = price;
            bar.h = price;
            bar.l = price;
        }
        bar.c = price;
        bar.vq = add_u128(bar.vq, quote_volume)?;
        bar.vb = add_u128(bar.vb, base_volume)?;
        bar.n = add_u32(bar.n, 1)?;
        Ok(bar)
    }

    /// Records a trade at `time` in the bar of its bucket, creating the bar
    /// where the bucket had none, and returns the bar as it now stands. On
    /// failure the series is left as it was.
    pub fn upsert(
        bars: &mut BTreeMap<u64, OhlcBar>,
        time: Timestamp,
        price: u128,
        base_volume: u128,
        quote_volume: u128,
    ) -> (r: Result<OhlcBar, ContractError>)
        ensures
            r == lift(OhlcBar::spec_upsert(old(bars)@, time, price, base_volume, quote_volume)),
            match r {
                Ok(bar) => final(bars)@ == old(bars)@.insert(
                    spec_bucket_start(time.spec_seconds()),
                    bar,
                ),
                Err(_) => *final(bars) == *old(bars),
            },
    {
        let t: u64 = bucket_start(time.seconds());
        let bar = match bars.get(&t) {
            Some(bar) => *bar,
            None => OhlcBar::new(t),
        };
        let bar = bar.record(price, base_volume, quote_volume)?;
        bars.insert(t, bar);
        Ok(bar)
    }
}

} // verus!
