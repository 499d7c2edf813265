//! Verified core of a dump-and-hedge trading bot for binary Up/Down markets.
//!
//! The library holds the decisions of the bot: the round state machine and its
//! trade log, the sliding window of recent prices, the labels by which trade
//! kinds travel through the dashboard, the configuration defaults and the
//! clock arithmetic of the trading loop. Price arithmetic is floating point
//! and is done by the caller, which hands the library the outcome of each
//! comparison.

pub mod models;
pub mod config;
pub mod history;
pub mod pricing;
pub mod trader;
pub mod schedule;
