//! The records that the curve keeps: per-account and global statistics,
//! candlesticks, and the configuration.

pub mod account;
pub mod config;
pub mod ohlc;
