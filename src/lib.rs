//! Per-symbol bounded price windows with an on-demand Relative Strength
//! Index, computed exactly over integer prices.
//!
//! Prices are integer ticks, timestamps are milliseconds since the Unix
//! epoch, and an RSI value is an integer in millionths of a point, so that
//! `0..=100_000_000` covers the indicator's range `[0, 100]`.

pub mod signal;
pub mod series;
pub mod models;
mod outside;
pub mod registry;
pub mod generator;
