//! A constant-product bonding curve between a base asset and a quote asset.
//!
//! The curve keeps two reserves whose product is held at a constant `k`,
//! rounding in the pool's favour. Around it stand a fee in parts per
//! million on each side, an optional operator who alone may swap, per-account
//! and global trade statistics, one candlestick per minute, and the cost
//! basis of every holder of the base asset.
//!
//! All of it works on an explicit [`state::State`]. An operation takes the
//! state by mutable reference, and either succeeds and hands back what the
//! host is to do next, or fails and leaves the state as it was. What each
//! operation decides is written down as a spec function; the executable
//! code is proved against it with Verus.
//!
//! - [`math`]: checked arithmetic on amounts and on their 256-bit product.
//! - [`curve`]: the pool, its swaps and its prices.
//! - [`token`], [`context`], [`msg`], [`response`]: the assets, the
//!   surroundings of a call, the messages and what is handed back.
//! - [`models`]: account statistics, swap statistics, candlesticks.
//! - [`utils`]: who a swap is made for.
//! - [`state`]: the state and its creation.
//! - [`execute`]: buying, selling, swaps paid for with tokens, cost-basis
//!   tracking.
//! - [`query`]: the questions the curve answers.
//! - [`contract`]: the entry points.
//! - [`footprint`]: which records an operation reads and writes.
//! - [`theorems`]: what holds of the operations taken together.
//! - [`outside`]: the calls into other crates, whose contracts are taken on
//!   trust.

pub mod context;
pub mod contract;
pub mod curve;
pub mod error;
pub mod execute;
pub mod footprint;
pub mod math;
pub mod models;
pub mod msg;
pub mod outside;
pub mod query;
pub mod response;
pub mod state;
pub mod theorems;
pub mod token;
pub mod utils;
