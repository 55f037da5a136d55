use vstd::prelude::*;

use crate::outside::{fresh_id, now_millis};
use crate::signal::{classify, classify_spec, RsiSignal};

verus! {

/// Price ticks per unit of currency.
pub const TICKS_PER_UNIT: u64 = 1_000_000;

/// The side of a trade.
#[derive(Debug, Clone, Copy, PartialEq, Eq, Structural)]
pub enum TradeSide {
    Buy,
    Sell,
}

/// One trade of an instrument.
#[derive(Debug, Clone)]
pub struct TradeData {
    pub id: String,
    pub symbol: String,
    /// Price in ticks.
    pub price: u64,
    pub volume: u64,
    /// Milliseconds since the Unix epoch.
    pub timestamp: i64,
    pub side: TradeSide,
    pub exchange: String,
}

impl TradeData {
    /// A trade stamped with a fresh identifier and the current time.
    pub fn new(symbol: String, price: u64, volume: u64, side: TradeSide, exchange: String) -> (r:
        Self)
        ensures
            r.id@.len() == 36,
            r.symbol == symbol,
            r.price == price,
            r.volume == volume,
            r.side == side,
            r.exchange == exchange,
    {
        TradeData {
            id: fresh_id(),
            symbol,
            price,
            volume,
            timestamp: now_millis(),
            side,
            exchange,
        }
    }
}

/// An RSI reading for one symbol.
#[derive(Debug, Clone)]
pub struct RsiData {
    pub id: String,
    pub symbol: String,
    /// The indicator in millionths of a point.
    pub rsi_value: u64,
    /// Milliseconds since the Unix epoch.
    pub timestamp: i64,
    pub period: u32,
    pub signal: RsiSignal,
}

impl RsiData {
    /// A reading of `rsi_value`, classified, stamped with a fresh identifier
    /// and the current time.
    pub fn new(symbol: String, rsi_value: u64, period: u32) -> (r: Self)
        ensures
            r.id@.len() == 36,
            r.symbol == symbol,
            r.rsi_value == rsi_value,
            r.period == period,
            r.signal == classify_spec(rsi_value),
    {
        let signal = classify(rsi_value);
        RsiData { id: fresh_id(), symbol, rsi_value, timestamp: now_millis(), period, signal }
    }
}

} // verus!
