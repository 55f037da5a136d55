use rsi_stream::generator::{step_price, step_rsi, DataGenerator, MAX_MOVE_BP, MAX_RSI_MOVE};
use rsi_stream::models::{RsiData, TradeData, TradeSide};
use rsi_stream::signal::{RsiSignal, RSI_MAX};

const SYMBOLS: [&str; 8] = ["AAPL", "GOOGL", "MSFT", "TSLA", "AMZN", "NVDA", "META", "NFLX"];

#[test]
fn step_price_moves_by_basis_points() {
    assert_eq!(step_price(10_000, MAX_MOVE_BP), 10_000);
    assert_eq!(step_price(10_000, 0), 9_500);
    assert_eq!(step_price(10_000, 2 * MAX_MOVE_BP), 10_500);
    assert_eq!(step_price(1, 0), 1);
    assert_eq!(step_price(u64::MAX, 2 * MAX_MOVE_BP), u64::MAX);
}

#[test]
fn step_rsi_stays_in_range() {
    assert_eq!(step_rsi(50_000_000, MAX_RSI_MOVE), 50_000_000);
    assert_eq!(step_rsi(50_000_000, 0), 48_000_000);
    assert_eq!(step_rsi(1_000_000, 0), 0);
    assert_eq!(step_rsi(RSI_MAX - 1, 2 * MAX_RSI_MOVE), RSI_MAX);
}

#[test]
fn apply_trade_uses_the_draws() {
    let mut g = DataGenerator::new();
    let t = g.apply_trade(2, MAX_MOVE_BP, 500, false, 1);
    assert_eq!(t.symbol, "MSFT");
    assert_eq!(t.volume, 500);
    assert_eq!(t.side, TradeSide::Sell);
    assert_eq!(t.exchange, "NASDAQ");
    let again = g.apply_trade(2, MAX_MOVE_BP, 1, true, 7);
    assert_eq!(again.price, t.price);
    assert_eq!(again.exchange, "BATS");
    assert_eq!(again.side, TradeSide::Buy);
}

#[test]
fn generated_trades_are_well_formed() {
    let mut g = DataGenerator::new();
    for _ in 0..50 {
        let t: TradeData = g.generate_trade_data();
        assert!(SYMBOLS.contains(&t.symbol.as_str()));
        assert!((100..10_000).contains(&t.volume));
        assert!(t.price >= 1);
        assert!(["NYSE", "NASDAQ", "BATS"].contains(&t.exchange.as_str()));
        assert_eq!(t.id.len(), 36);
    }
}

#[test]
fn generated_readings_are_well_formed() {
    let mut g = DataGenerator::new();
    for _ in 0..50 {
        let r: RsiData = g.generate_rsi_data();
        assert!(SYMBOLS.contains(&r.symbol.as_str()));
        assert!(r.rsi_value <= RSI_MAX);
        assert_eq!(r.period, 14);
    }
}

#[test]
fn apply_rsi_classifies() {
    let mut g = DataGenerator::new();
    let r = g.apply_rsi(0, MAX_RSI_MOVE);
    assert_eq!(r.symbol, "AAPL");
    assert!((20_000_000..80_000_000).contains(&r.rsi_value));
    let expected = if r.rsi_value >= 70_000_000 {
        RsiSignal::Overbought
    } else if r.rsi_value <= 30_000_000 {
        RsiSignal::Oversold
    } else {
        RsiSignal::Neutral
    };
    assert_eq!(r.signal, expected);
}

#[test]
fn new_ids_differ() {
    let a = RsiData::new("A".to_string(), 10, 14);
    let b = RsiData::new("A".to_string(), 10, 14);
    assert_eq!(a.id.len(), 36);
    assert_ne!(a.id, b.id);
    assert_eq!(a.signal, RsiSignal::Oversold);
}
