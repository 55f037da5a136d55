use rsi_stream::series::{PriceHistory, CAPACITY};
use rsi_stream::signal::{classify, RsiSignal, RSI_MAX};

fn history_of(prices: &[u64]) -> PriceHistory {
    let mut h = PriceHistory::new("TEST".to_string());
    for (i, p) in prices.iter().enumerate() {
        h.add_price(*p, i as i64);
    }
    h
}

#[test]
fn classify_boundaries() {
    assert_eq!(classify(70_000_000), RsiSignal::Overbought);
    assert_eq!(classify(69_999_000), RsiSignal::Neutral);
    assert_eq!(classify(30_000_000), RsiSignal::Oversold);
    assert_eq!(classify(30_001_000), RsiSignal::Neutral);
    assert_eq!(classify(0), RsiSignal::Oversold);
    assert_eq!(classify(RSI_MAX), RsiSignal::Overbought);
    assert_eq!(classify(50_000_000), RsiSignal::Neutral);
}

#[test]
fn rsi_of_mixed_window() {
    let h = history_of(&[1_000_000, 2_000_000, 1_500_000, 3_000_000]);
    // gains 2.5, losses 0.5: 100 - 100 / (1 + 5) = 83.333...
    assert_eq!(h.calculate_rsi(3), Some(83_333_333));
}

#[test]
fn rsi_undefined_until_period_plus_one() {
    let mut h = PriceHistory::new("X".to_string());
    for i in 0..14u64 {
        h.add_price(100 + i, i as i64);
        assert_eq!(h.calculate_rsi(14), None);
    }
    h.add_price(200, 14);
    assert!(h.calculate_rsi(14).is_some());
    assert_eq!(history_of(&[5, 6, 7]).calculate_rsi(3), None);
    assert_eq!(PriceHistory::new("E".to_string()).calculate_rsi(1), None);
}

#[test]
fn rising_window_is_one_hundred() {
    let h = history_of(&[10, 11, 11, 15, 20, 20]);
    assert_eq!(h.calculate_rsi(5), Some(RSI_MAX));
}

#[test]
fn falling_window_is_zero() {
    let h = history_of(&[20, 18, 18, 15, 11, 10]);
    assert_eq!(h.calculate_rsi(5), Some(0));
}

#[test]
fn flat_window_is_one_hundred() {
    let h = history_of(&[7, 7, 7, 7]);
    assert_eq!(h.calculate_rsi(3), Some(RSI_MAX));
}

#[test]
fn rsi_uses_only_the_last_period_changes() {
    // An early fall is outside the last two changes, which both rise.
    let h = history_of(&[50, 10, 20, 30]);
    assert_eq!(h.calculate_rsi(2), Some(RSI_MAX));
    // Over three changes: gains 20, losses 40 -> 33.333333.
    assert_eq!(h.calculate_rsi(3), Some(33_333_333));
}

#[test]
fn rsi_with_extreme_prices_stays_in_range() {
    let h = history_of(&[u64::MAX, 1, u64::MAX, 1, u64::MAX]);
    assert_eq!(h.calculate_rsi(4), Some(50_000_000));
    let h = history_of(&[1, u64::MAX, u64::MAX - 1]);
    let v = h.calculate_rsi(2).unwrap();
    assert!(v <= RSI_MAX);
    assert_eq!(v, 99_999_999);
}

#[test]
fn capacity_keeps_latest_hundred() {
    let mut h = PriceHistory::new("AAPL".to_string());
    for i in 1..=105u64 {
        h.add_price(i * 10, i as i64);
        assert_eq!(h.prices.len(), h.timestamps.len());
        assert!(h.prices.len() <= CAPACITY);
    }
    assert_eq!(h.prices.len(), 100);
    assert_eq!(h.prices[0], 60);
    assert_eq!(h.timestamps[0], 6);
    assert_eq!(*h.prices.last().unwrap(), 1050);
    let expected: Vec<u64> = (6..=105u64).map(|i| i * 10).collect();
    assert_eq!(h.prices, expected);
}

#[test]
fn add_price_below_capacity_keeps_all() {
    let h = history_of(&[3, 1, 2]);
    assert_eq!(h.prices, vec![3, 1, 2]);
    assert_eq!(h.timestamps, vec![0, 1, 2]);
    assert_eq!(h.symbol, "TEST");
}
