use tradebot::kalshi::trade_tape::{TradeRecord, TradeTape};

const SEC: u64 = 1_000_000_000;
const NOW: u64 = 5_000 * SEC;

fn make_trade(ticker: &str, price: i64, count: i64, side: &str) -> TradeRecord {
    TradeRecord {
        ticker: ticker.to_string(),
        price_cents: price,
        count,
        taker_side: side.to_string(),
        timestamp: NOW,
    }
}

fn ratio(parts: Option<(i128, i128)>) -> f64 {
    match parts {
        Some((num, den)) => num as f64 / den as f64,
        None => 0.0,
    }
}

#[test]
fn test_record_and_bounded() {
    let mut tape = TradeTape::new(3);
    tape.record(make_trade("A", 50, 10, "yes"));
    tape.record(make_trade("A", 51, 20, "no"));
    tape.record(make_trade("A", 52, 30, "yes"));
    assert_eq!(tape.len(), 3);

    tape.record(make_trade("A", 53, 40, "no"));
    assert_eq!(tape.len(), 3);
}

#[test]
fn test_aggressiveness_balanced() {
    let mut tape = TradeTape::new(100);
    tape.record(make_trade("A", 50, 10, "yes"));
    tape.record(make_trade("A", 50, 10, "no"));
    let aggr = ratio(tape.aggressiveness(60 * SEC, NOW));
    assert!((aggr).abs() < 0.001);
}

#[test]
fn test_aggressiveness_bullish() {
    let mut tape = TradeTape::new(100);
    tape.record(make_trade("A", 50, 30, "yes"));
    tape.record(make_trade("A", 50, 10, "no"));
    let aggr = ratio(tape.aggressiveness(60 * SEC, NOW));
    assert!((aggr - 0.5).abs() < 0.001);
}

#[test]
fn test_aggressiveness_empty() {
    let tape = TradeTape::new(100);
    assert_eq!(ratio(tape.aggressiveness(60 * SEC, NOW)), 0.0);
    assert_eq!(tape.aggressiveness(60 * SEC, NOW), None);
}

#[test]
fn test_recent_volume() {
    let mut tape = TradeTape::new(100);
    tape.record(make_trade("A", 50, 10, "yes"));
    tape.record(make_trade("A", 50, 20, "no"));
    tape.record(make_trade("A", 50, 30, "yes"));
    assert_eq!(tape.recent_volume(60 * SEC, NOW), 60);
}

#[test]
fn test_vwap() {
    let mut tape = TradeTape::new(100);
    tape.record(make_trade("A", 50, 10, "yes"));
    tape.record(make_trade("A", 60, 20, "yes"));
    let parts = tape.vwap(60 * SEC, NOW).unwrap();
    let weighted: f64 = parts.trades.iter().map(|(p, c)| *p as f64 * *c as f64).sum();
    let vwap = weighted / parts.volume as f64 / 100.0;
    assert!((vwap - 0.5667).abs() < 0.001);
}

#[test]
fn test_vwap_empty() {
    let tape = TradeTape::new(100);
    assert!(tape.vwap(60 * SEC, NOW).is_none());
}

#[test]
fn test_last_trade() {
    let mut tape = TradeTape::new(100);
    tape.record(make_trade("A", 50, 10, "yes"));
    tape.record(make_trade("B", 60, 20, "no"));
    tape.record(make_trade("A", 55, 15, "no"));

    let last_a = tape.last_trade("A").unwrap();
    assert_eq!(last_a.price_cents, 55);

    let last_b = tape.last_trade("B").unwrap();
    assert_eq!(last_b.price_cents, 60);

    assert!(tape.last_trade("C").is_none());
}

#[test]
fn windows_look_back_only_so_far() {
    let mut tape = TradeTape::new(2);
    assert!(tape.is_empty());
    let mut old = make_trade("A", 40, 7, "no");
    old.timestamp = NOW - 100 * SEC;
    tape.record(old);
    tape.record(make_trade("A", 50, 5, "yes"));
    assert_eq!(tape.recent_volume(60 * SEC, NOW), 5);
    assert_eq!(tape.recent_volume(200 * SEC, NOW), 12);
    assert_eq!(tape.aggressiveness(200 * SEC, NOW), Some((-2, 12)));
    tape.record(make_trade("A", 51, 6, "yes"));
    assert_eq!(tape.recent_volume(200 * SEC, NOW), 11);
    assert!(!tape.is_empty());
}

#[test]
fn nothing_fits_on_a_tape_of_size_zero() {
    let mut tape = TradeTape::new(0);
    tape.record(make_trade("A", 50, 10, "yes"));
    assert_eq!(tape.len(), 0);
    assert!(tape.is_empty());
    let mut tape = TradeTape::new(1);
    tape.record(make_trade("A", 50, 10, "yes"));
    tape.record(make_trade("A", 51, 20, "no"));
    assert_eq!(tape.len(), 1);
    assert_eq!(tape.last_trade("A").unwrap().price_cents, 51);
}
