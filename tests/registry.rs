use rsi_stream::models::{TradeData, TradeSide};
use rsi_stream::registry::{DataProcessor, RSI_PERIOD};
use rsi_stream::signal::RsiSignal;

fn trade(symbol: &str, price: u64, timestamp: i64) -> TradeData {
    let mut t = TradeData::new(symbol.to_string(), price, 100, TradeSide::Buy, "NYSE".to_string());
    t.timestamp = timestamp;
    t
}

#[test]
fn ingest_reports_once_history_suffices() {
    let mut p = DataProcessor::new();
    for i in 0..RSI_PERIOD as u64 {
        assert!(p.process_trade_data(trade("AAPL", 100 + i, i as i64)).is_none());
    }
    let r = p.process_trade_data(trade("AAPL", 200, 99)).unwrap();
    assert_eq!(r.symbol, "AAPL");
    assert_eq!(r.rsi_value, 100_000_000);
    assert_eq!(r.period, 14);
    assert_eq!(r.signal, RsiSignal::Overbought);
    assert_eq!(r.id.len(), 36);
}

#[test]
fn ingest_falling_prices_is_oversold() {
    let mut p = DataProcessor::new();
    let mut last = None;
    for i in 0..20u64 {
        last = p.process_trade_data(trade("TSLA", 1_000 - i, i as i64));
    }
    let r = last.unwrap();
    assert_eq!(r.rsi_value, 0);
    assert_eq!(r.signal, RsiSignal::Oversold);
}

#[test]
fn symbols_are_kept_apart() {
    let mut p = DataProcessor::new();
    p.process_trade_data(trade("AAPL", 10, 0));
    p.process_trade_data(trade("MSFT", 20, 1));
    p.process_trade_data(trade("AAPL", 11, 2));
    let prices = p.get_latest_prices();
    assert_eq!(prices, vec![("AAPL".to_string(), 11), ("MSFT".to_string(), 20)]);
}

#[test]
fn empty_registry_has_no_snapshots() {
    let p = DataProcessor::new();
    assert!(p.get_latest_prices().is_empty());
    assert!(p.get_latest_rsi().is_empty());
}

#[test]
fn snapshot_is_independent_of_later_ingest() {
    let mut p = DataProcessor::new();
    p.process_trade_data(trade("AAPL", 10, 0));
    p.process_trade_data(trade("GOOGL", 30, 1));
    let snap = p.get_latest_prices();
    p.process_trade_data(trade("AAPL", 12, 2));
    p.process_trade_data(trade("NFLX", 5, 3));
    assert_eq!(snap, vec![("AAPL".to_string(), 10), ("GOOGL".to_string(), 30)]);
    assert_eq!(p.get_latest_prices().len(), 3);
}

#[test]
fn latest_rsi_omits_short_histories() {
    let mut p = DataProcessor::new();
    for i in 0..15u64 {
        p.process_trade_data(trade("LONG", 100 + (i % 2) * 10, i as i64));
    }
    for i in 0..5u64 {
        p.process_trade_data(trade("SHORT", 100 + i, i as i64));
    }
    let rsi = p.get_latest_rsi();
    assert_eq!(rsi.len(), 1);
    assert_eq!(rsi[0].0, "LONG");
    // 7 rises and 7 falls of 10 over the last 14 changes.
    assert_eq!(rsi[0].1, 50_000_000);
    let short = p.latest_rsi_for(3);
    assert_eq!(short.len(), 2);
    assert_eq!(short[1], ("SHORT".to_string(), 100_000_000));
}
