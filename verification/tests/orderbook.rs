use rust_decimal::Decimal;
use tradebot::kalshi::orderbook::{MidPriceSource, OrderbookManager, Side};
use tradebot::kalshi::price::Price;

const SEC: u64 = 1_000_000_000;
const NOW: u64 = 5_000 * SEC;

fn decimal(p: Price) -> Decimal {
    Decimal::from_i128_with_scale(p.mantissa, p.scale)
}

fn exact(text: &str) -> Decimal {
    Decimal::from_str_exact(text).unwrap()
}

fn price(text: &str) -> Price {
    let d = exact(text);
    Price { mantissa: d.mantissa(), scale: d.scale() }
}

#[test]
fn test_orderbook_snapshot_and_queries() {
    let mut mgr = OrderbookManager::new();
    mgr.apply_snapshot("TEST-TICKER", vec![(45, 10), (44, 20), (43, 30)], vec![(55, 15), (56, 25), (57, 35)], NOW);

    let (bid_price, bid_size) = mgr.best_bid("TEST-TICKER").unwrap();
    assert_eq!(decimal(bid_price), exact("0.45"));
    assert_eq!(bid_size, 10);

    let (ask_price, ask_size) = mgr.best_ask("TEST-TICKER").unwrap();
    assert_eq!(decimal(ask_price), exact("0.55"));
    assert_eq!(ask_size, 15);

    let mid = mgr.mid_price("TEST-TICKER").unwrap();
    assert_eq!(decimal(mid), exact("0.50"));

    let spread = mgr.spread("TEST-TICKER").unwrap();
    assert_eq!(decimal(spread), exact("0.10"));
}

#[test]
fn test_delta_application() {
    let mut mgr = OrderbookManager::new();
    mgr.apply_snapshot("T", vec![(50, 10)], vec![(60, 10)], NOW);

    mgr.apply_delta("T", Side::Bid, 50, 5, NOW);
    assert_eq!(mgr.depth_at_price("T", Side::Bid, price("0.50")), 15);

    mgr.apply_delta("T", Side::Bid, 50, -15, NOW);
    assert_eq!(mgr.depth_at_price("T", Side::Bid, price("0.50")), 0);
}

#[test]
fn test_estimated_fill_price() {
    let mut mgr = OrderbookManager::new();
    mgr.apply_snapshot("T", vec![], vec![(55, 10), (56, 20), (57, 30)], NOW);

    let fill = mgr.estimated_fill_price("T", Side::Bid, 5).unwrap();
    assert_eq!(decimal(fill), exact("0.55"));

    let fill = mgr.estimated_fill_price("T", Side::Bid, 15).unwrap();
    let expected = (exact("0.55") * Decimal::from(10) + exact("0.56") * Decimal::from(5)) / Decimal::from(15);
    assert_eq!(decimal(fill), expected);

    assert!(mgr.estimated_fill_price("T", Side::Bid, 100).is_none());
}

#[test]
fn test_order_imbalance() {
    let mut mgr = OrderbookManager::new();
    mgr.apply_snapshot("T", vec![(50, 100)], vec![(60, 100)], NOW);

    let (bid, ask) = mgr.order_imbalance("T").unwrap();
    assert!((bid as f64 / (bid + ask) as f64 - 0.5).abs() < 0.001);

    mgr.apply_delta("T", Side::Bid, 49, 200, NOW);
    let (bid, ask) = mgr.order_imbalance("T").unwrap();
    assert!(bid as f64 / (bid + ask) as f64 > 0.5);
    assert_eq!((bid, ask), (300, 100));
}

#[test]
fn test_staleness() {
    let mut mgr = OrderbookManager::new();
    mgr.apply_snapshot("T", vec![(50, 10)], vec![(60, 10)], NOW);

    assert!(!mgr.is_stale("T", 60 * SEC, NOW));
    assert!(mgr.is_stale("NONEXISTENT", 60 * SEC, NOW));
    assert!(!mgr.is_stale("T", 60 * SEC, NOW + 60 * SEC));
    assert!(mgr.is_stale("T", 60 * SEC, NOW + 60 * SEC + 1));
}

#[test]
fn test_mid_price_with_fallback_full_book() {
    let mut mgr = OrderbookManager::new();
    mgr.apply_snapshot("T", vec![(40, 10)], vec![(60, 10)], NOW);

    let (mid, src) = mgr.mid_price_with_fallback("T").unwrap();
    assert_eq!(decimal(mid), exact("0.50"));
    assert_eq!(src, MidPriceSource::Orderbook);
}

#[test]
fn test_mid_price_with_fallback_book_plus_ticker() {
    let mut mgr = OrderbookManager::new();
    mgr.apply_snapshot("T", vec![(40, 10)], vec![], NOW);
    mgr.update_ticker_tob("T", None, Some(60), NOW);

    let (mid, src) = mgr.mid_price_with_fallback("T").unwrap();
    assert_eq!(decimal(mid), exact("0.50"));
    assert_eq!(src, MidPriceSource::OrderbookPlusTicker);
}

#[test]
fn test_mid_price_with_fallback_one_sided() {
    let mut mgr = OrderbookManager::new();
    mgr.apply_snapshot("T", vec![], vec![(55, 10)], NOW);

    let (mid, src) = mgr.mid_price_with_fallback("T").unwrap();
    assert_eq!(decimal(mid), exact("0.55"));
    assert_eq!(src, MidPriceSource::OneSided);
}

#[test]
fn test_mid_price_with_fallback_ticker_only() {
    let mut mgr = OrderbookManager::new();
    mgr.update_ticker_tob("T", Some(45), Some(55), NOW);

    let (mid, src) = mgr.mid_price_with_fallback("T").unwrap();
    assert_eq!(decimal(mid), exact("0.50"));
    assert_eq!(src, MidPriceSource::TickerOnly);
}

#[test]
fn test_mid_price_with_fallback_nothing() {
    let mgr = OrderbookManager::new();
    assert!(mgr.mid_price_with_fallback("T").is_none());
}

#[test]
fn test_update_ticker_tob() {
    let mut mgr = OrderbookManager::new();
    mgr.update_ticker_tob("T", Some(45), Some(55), NOW);

    let tob = mgr.ticker_tob("T").unwrap();
    assert_eq!(tob.yes_bid, Some(45));
    assert_eq!(tob.yes_ask, Some(55));
    assert!(tob.last_update.is_some());

    mgr.update_ticker_tob("T", None, Some(60), NOW);
    let tob = mgr.ticker_tob("T").unwrap();
    assert_eq!(tob.yes_bid, Some(45));
    assert_eq!(tob.yes_ask, Some(60));
}

#[test]
fn test_book_status() {
    let mut mgr = OrderbookManager::new();

    let s = mgr.book_status("T");
    assert!(!s.has_entry);
    assert!(!s.has_bids);
    assert!(!s.has_asks);
    assert!(!s.has_tob);

    mgr.apply_snapshot("T", vec![(50, 10)], vec![], NOW);
    let s = mgr.book_status("T");
    assert!(s.has_entry);
    assert!(s.has_bids);
    assert!(!s.has_asks);
    assert!(!s.has_tob);

    mgr.update_ticker_tob("T", Some(45), None, NOW);
    let s = mgr.book_status("T");
    assert!(s.has_tob);
}

#[test]
fn test_no_side_delta_complements_price() {
    let mut om = OrderbookManager::new();
    om.apply_delta("TEST", Side::Ask, 100 - 92, 50, NOW);
    let ask = om.best_ask("TEST");
    assert!(ask.is_some(), "ask book should have an entry");
    let (price, size) = ask.unwrap();
    assert_eq!(decimal(price).to_string(), "0.08");
    assert_eq!(size, 50);
}

#[test]
fn test_yes_side_delta_preserves_price() {
    let mut om = OrderbookManager::new();
    om.apply_delta("TEST", Side::Bid, 45, 30, NOW);
    let bid = om.best_bid("TEST");
    assert!(bid.is_some(), "bid book should have an entry");
    let (price, size) = bid.unwrap();
    assert_eq!(decimal(price).to_string(), "0.45");
    assert_eq!(size, 30);
}

#[test]
fn prices_are_those_of_decimal_arithmetic() {
    let mut om = OrderbookManager::new();
    let hundred = Decimal::from(100);
    let two = Decimal::from(2);
    for (b, a) in [(1, 2), (7, 100), (33, 34), (50, 60), (10, 10), (99, 3)] {
        om.apply_snapshot("T", vec![(b, 1)], vec![(a, 1)], NOW);
        let bid = Decimal::from(b) / hundred;
        let ask = Decimal::from(a) / hundred;
        assert_eq!(decimal(om.best_bid("T").unwrap().0), bid);
        assert_eq!(decimal(om.best_ask("T").unwrap().0), ask);
        assert_eq!(decimal(om.mid_price("T").unwrap()), (bid + ask) / two);
        assert_eq!(decimal(om.spread("T").unwrap()), ask - bid);
    }
}

#[test]
fn snapshots_replace_and_deltas_undo_each_other() {
    let mut om = OrderbookManager::new();
    om.apply_snapshot("T", vec![(40, 3), (41, 0), (42, -5)], vec![(50, 2), (50, 7)], NOW);
    assert_eq!(om.level_size("T", Side::Bid, 40), 3);
    assert_eq!(om.level_size("T", Side::Bid, 41), 0);
    assert_eq!(om.level_size("T", Side::Bid, 42), 0);
    assert_eq!(om.level_size("T", Side::Ask, 50), 7);
    om.apply_delta("T", Side::Bid, 43, 4, NOW);
    om.apply_delta("T", Side::Bid, 43, -4, NOW);
    assert_eq!(om.best_bid("T").unwrap().1, 3);
    om.apply_snapshot("T", vec![], vec![], NOW);
    assert!(om.best_bid("T").is_none());
    assert!(om.book_status("T").has_entry);
    om.remove("T");
    assert!(!om.book_status("T").has_entry);
}

#[test]
fn fills_walk_the_other_side() {
    let mut om = OrderbookManager::new();
    om.apply_snapshot("T", vec![(45, 10), (44, 10)], vec![(55, 10)], NOW);
    assert_eq!(om.fill_cost("T", Side::Ask, 15), Some(45 * 10 + 44 * 5));
    assert_eq!(om.fill_cost("T", Side::Ask, 21), None);
    assert_eq!(om.fill_cost("U", Side::Ask, 1), None);
    assert_eq!(decimal(om.estimated_fill_price("T", Side::Ask, 20).unwrap()), exact("0.445"));
}

#[test]
fn depth_needs_whole_cents() {
    let mut om = OrderbookManager::new();
    om.apply_snapshot("T", vec![(45, 10)], vec![(8, 5)], NOW);
    assert_eq!(om.depth_at_price("T", Side::Bid, price("0.450")), 10);
    assert_eq!(om.depth_at_price("T", Side::Ask, price("0.08")), 5);
    assert_eq!(om.depth_at_price("T", Side::Bid, price("0.44")), 0);
    assert_eq!(om.depth_at_price("U", Side::Bid, price("0.45")), 0);
}

#[test]
fn a_missing_book_is_made_once() {
    let mut books = OrderbookManager::new();
    let made = books.get_or_create("T", 7);
    assert_eq!(made.ticker, "T");
    assert!(made.bids.is_empty() && made.asks.is_empty());
    assert_eq!(made.last_update, 7);
    books.apply_snapshot("T", vec![(40, 3)], vec![], 8);
    let again = books.get_or_create("T", 9);
    assert_eq!(again.bids.get(&40), Some(&3));
    assert_eq!(again.last_update, 8);
    assert!(books.book_status("T").has_entry);
    books.remove("T");
    assert!(!books.book_status("T").has_entry);
}

#[test]
fn an_unknown_book_has_no_fill_price_whatever_the_size() {
    let books = OrderbookManager::new();
    assert!(books.estimated_fill_price("T", Side::Bid, 0).is_none());
    assert!(books.fill_cost("T", Side::Ask, 10).is_none());
}
