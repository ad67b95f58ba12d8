use std::collections::VecDeque;
use tradebot::feed_health::FeedHealth;
use tradebot::float::Float;
use tradebot::kalshi::client::{
    after_attempt, market_path, markets_path, order_path, orders_path, parse_error_response, settlements_path,
    AfterAttempt, Attempted,
};
use tradebot::kalshi::error::KalshiError;
use tradebot::kalshi::orderbook::{OrderbookManager, Side};
use tradebot::kalshi::session::{channels, Session, SocketEvent, SocketStep, Subscriptions};
use tradebot::kalshi::trade_tape::TradeTape;
use tradebot::kalshi::types::OrderQueryParams;
use tradebot::kalshi::websocket::{handle_text_message, read_message, WsFeedMessage, WsRawMessage};
use tradebot::orderbook_feed::{
    build_ticker_summary, momentum_points, volume_surge, FeedConsumer, TickerState,
};

const SEC: u64 = 1_000_000_000;
const NOW: u64 = 1_000 * SEC;

fn raw(channel: Option<&str>, content: Option<&str>) -> WsRawMessage {
    WsRawMessage { msg_type: None, channel: channel.map(String::from), msg: content.map(String::from), sid: None }
}

fn momentum(history: &VecDeque<(u64, i64)>) -> f64 {
    let points = match momentum_points(history) {
        Some(p) => p,
        None => return 0.0,
    };
    let n = points.len() as f64;
    let (mut sx, mut sy, mut sxy, mut sxx) = (0.0, 0.0, 0.0, 0.0);
    for (t, p) in points {
        let (x, y) = (t as f64 / SEC as f64, p as f64);
        sx += x;
        sy += y;
        sxy += x * y;
        sxx += x * x;
    }
    let d = n * sxx - sx * sx;
    if d.abs() < 1e-12 { 0.0 } else { (n * sxy - sx * sy) / d }
}

fn history(price: impl Fn(i64) -> i64) -> VecDeque<(u64, i64)> {
    (0..5).map(|i| (NOW - 10 * SEC + i as u64 * 2 * SEC, price(i))).collect()
}

#[test]
fn test_price_momentum_rising() {
    let slope = momentum(&history(|i| 50 + i * 2));
    assert!(slope > 0.0, "slope should be positive for rising prices, got {}", slope);
    assert!((slope - 1.0).abs() < 0.1);
}

#[test]
fn test_price_momentum_falling() {
    let slope = momentum(&history(|i| 60 - i * 2));
    assert!(slope < 0.0, "slope should be negative for falling prices, got {}", slope);
}

#[test]
fn test_price_momentum_flat() {
    let slope = momentum(&history(|_| 50));
    assert!(slope.abs() < 0.001, "slope should be ~0 for flat prices, got {}", slope);
}

#[test]
fn test_price_momentum_insufficient_data() {
    assert_eq!(momentum(&VecDeque::new()), 0.0);
    let one: VecDeque<(u64, i64)> = [(NOW, 50)].into_iter().collect();
    assert_eq!(momentum(&one), 0.0);
}

#[test]
fn test_ticker_state_oi_delta_tracking() {
    let mut state = TickerState::default();
    assert!(state.prev_open_interest.is_none());

    state.record_open_interest(100);
    assert!(state.prev_open_interest.is_none());

    state.record_open_interest(120);
    assert_eq!(state.prev_open_interest, Some(100));
    assert_eq!(state.open_interest.unwrap() - state.prev_open_interest.unwrap(), 20);
}

#[test]
fn test_ticker_state_price_history_pruning() {
    let mut state = TickerState::default();
    let old = NOW - 120 * SEC;
    for i in 0..5u64 {
        state.last_price_history.push_back((old + i * SEC, 50));
    }
    for i in 0..2u64 {
        state.last_price_history.push_back((NOW - i * SEC, 55));
    }
    state.record_price(55, NOW);
    assert_eq!(state.last_price_history.len(), 3);
}

#[test]
fn surges_exceed_three_times_the_usual() {
    let f = |x: f64| Float::from_bits(x.to_bits());
    assert!(volume_surge(f(31.0), f(10.0), f(30.0)));
    assert!(!volume_surge(f(30.0), f(10.0), f(30.0)));
    assert!(!volume_surge(f(30.0), f(0.0), f(0.0)));
}

#[test]
fn messages_reach_books_tape_and_states() {
    let mut books = OrderbookManager::new();
    let mut tape = TradeTape::new(10);
    let mut health = FeedHealth::new();
    let mut consumer = FeedConsumer::new();
    let texts = [
        ("orderbook_delta", r#"{"market_ticker":"T","yes":{"bids":[[40,10],["x",1]],"asks":[[60,5]]}}"#),
        ("orderbook_delta", r#"{"market_ticker":"T","side":"no","price":45,"delta":7}"#),
        ("trade", r#"{"market_ticker":"T","yes_price":50,"count":3,"taker_side":"yes"}"#),
        ("ticker", r#"{"market_ticker":"T","yes_bid":41,"last_price":50,"open_interest":9,"market_status":"open"}"#),
    ];
    for (channel, content) in texts {
        for msg in handle_text_message(&raw(Some(channel), Some(content))).unwrap() {
            assert!(FeedConsumer::admits(&msg, &books, NOW));
            consumer.handle(msg, &mut books, &mut tape, &mut health, NOW);
        }
    }
    assert_eq!(books.level_size("T", Side::Bid, 40), 10);
    assert_eq!(books.level_size("T", Side::Ask, 55), 7);
    assert_eq!(tape.last_trade("T").unwrap().count, 3);
    assert!(health.is_healthy("kalshi_ws", NOW));
    assert_eq!(books.ticker_tob("T").unwrap().yes_bid, Some(41));
    assert_eq!(consumer.state("T").unwrap().open_interest, Some(9));
    assert_eq!(consumer.take_dirty(), vec!["T".to_string()]);
    assert!(consumer.take_dirty().is_empty());
    assert!(consumer.stale_tickers(&books, NOW).is_empty());
    assert_eq!(consumer.stale_tickers(&books, NOW + 31 * SEC), vec!["T".to_string()]);
    let s = build_ticker_summary("T", &books, &tape, &consumer, true);
    assert!(s.told && s.volume_surge);
    assert_eq!(s.last_trade, Some((50, 3)));
    assert_eq!(s.market_status.as_deref(), Some("open"));
    let big = WsFeedMessage::OrderbookDelta { ticker: "T".into(), side: "yes".into(), price_cents: 40, delta: i64::MAX };
    assert!(!FeedConsumer::admits(&big, &books, NOW));
    let closed = r#"{"market_ticker":"T","market_status":"settled"}"#;
    for msg in handle_text_message(&raw(Some("ticker"), Some(closed))).unwrap() {
        consumer.handle(msg, &mut books, &mut tape, &mut health, NOW);
    }
    assert!(!books.book_status("T").has_entry);
}

#[test]
fn malformed_messages_are_told_apart() {
    let told = |channel, content| handle_text_message(&raw(channel, content)).map(|v| v.len());
    assert_eq!(told(Some("trade"), Some("no json")), None);
    assert_eq!(told(None, Some("1e999")), None);
    assert_eq!(told(None, None), Some(0));
    assert_eq!(told(Some("trade"), None), Some(0));
    assert_eq!(told(Some("trade"), Some("null")), Some(0));
    assert_eq!(told(Some("trade"), Some("7")), Some(0));
    let trade = r#"{"market_ticker":"T","yes_price":50,"count":3}"#;
    assert_eq!(told(Some("trade"), Some(trade)), Some(1));
    assert_eq!(told(Some("other"), Some(trade)), Some(0));
    assert_eq!(told(None, Some(trade)), Some(0));
    assert!(read_message(Some("trade"), None).is_empty());
}

#[test]
fn sessions_subscribe_once_and_watch_for_pongs() {
    let mut subs = Subscriptions::new();
    let (mut session, first) = Session::open(&subs, NOW);
    assert!(first.is_none());
    let want = vec!["A".to_string(), "B".to_string(), "A".to_string()];
    match session.handle(&mut subs, SocketEvent::Wanted(&want), NOW) {
        SocketStep::Subscribe(cmd) => {
            assert_eq!(cmd.id, 1);
            assert_eq!(cmd.market_tickers, vec!["A".to_string(), "B".to_string()]);
        },
        _ => panic!("no command"),
    }
    assert!(matches!(session.handle(&mut subs, SocketEvent::Wanted(&want), NOW), SocketStep::Continue));
    assert!(matches!(session.handle(&mut subs, SocketEvent::PingDue, NOW + 35 * SEC), SocketStep::Ping));
    assert!(matches!(session.handle(&mut subs, SocketEvent::PingDue, NOW + 36 * SEC), SocketStep::Fail(e) if e == "pong timeout"));
    session.handle(&mut subs, SocketEvent::Pong, NOW + 36 * SEC);
    assert!(matches!(session.handle(&mut subs, SocketEvent::PingDue, NOW + 37 * SEC), SocketStep::Ping));
    assert!(matches!(session.handle(&mut subs, SocketEvent::Cancelled, NOW), SocketStep::CloseAndStop));
    let bad = raw(Some("trade"), Some("x"));
    assert!(matches!(session.handle(&mut subs, SocketEvent::Message(&bad), NOW), SocketStep::Malformed(e) if e == "content is not JSON"));
    let ack = raw(None, None);
    assert!(matches!(session.handle(&mut subs, SocketEvent::Message(&ack), NOW), SocketStep::Continue));
    let trade = raw(Some("trade"), Some(r#"{"market_ticker":"T","yes_price":50,"count":3}"#));
    match session.handle(&mut subs, SocketEvent::Message(&trade), NOW) {
        SocketStep::Forward(v) => assert!(matches!(&v[0], WsFeedMessage::Trade { price_cents: 50, count: 3, .. })),
        _ => panic!("not told"),
    }
    let twice = SocketEvent::Unreadable("duplicate field `channel`".to_string());
    assert!(matches!(session.handle(&mut subs, twice, NOW), SocketStep::Malformed(e) if e == "duplicate field `channel`"));
    assert!(matches!(session.handle(&mut subs, SocketEvent::CloseFrame, NOW), SocketStep::Stop));
    let (again, cmd) = Session::open(&subs, NOW);
    assert_eq!(again.cmd_id, 2);
    assert_eq!(cmd.unwrap().market_tickers.len(), 2);
    assert_eq!(channels(), ["orderbook_delta", "trade", "ticker"]);
}

#[test]
fn paths_are_escaped() {
    assert_eq!(markets_path("open", None), "/trade-api/v2/markets?status=open");
    assert_eq!(markets_path("a b", Some("x&y")), "/trade-api/v2/markets?status=a%20b&category=x%26y");
    assert_eq!(market_path("KX-T/9.5~_"), "/trade-api/v2/markets/KX-T%2F9.5~_");
    assert_eq!(order_path("\u{e9}"), "/trade-api/v2/portfolio/orders/%C3%A9");
    let params = OrderQueryParams { ticker: Some("T".into()), status: Some("resting".into()) };
    assert_eq!(orders_path(&params), "/trade-api/v2/portfolio/orders?ticker=T&status=resting&");
    assert_eq!(orders_path(&OrderQueryParams::default()), "/trade-api/v2/portfolio/orders?");
    assert_eq!(settlements_path(-5), "/trade-api/v2/markets/settlements?min_close_ts=-5");
}

#[test]
fn statuses_become_errors() {
    assert!(matches!(parse_error_response(401, ""), KalshiError::AuthFailure));
    assert!(matches!(parse_error_response(403, ""), KalshiError::AuthFailure));
    assert!(matches!(parse_error_response(429, ""), KalshiError::RateLimit { retry_after_secs: 1 }));
    assert!(matches!(parse_error_response(400, "insufficient funds"), KalshiError::InsufficientFunds));
    assert!(matches!(parse_error_response(400, "low balance"), KalshiError::InsufficientFunds));
    assert!(matches!(parse_error_response(400, "market closed"), KalshiError::MarketClosed));
    assert!(matches!(parse_error_response(400, "bad"), KalshiError::InvalidOrder { reason } if reason == "bad"));
    assert!(matches!(parse_error_response(503, ""), KalshiError::ServerError(503)));
    assert!(matches!(parse_error_response(418, "tea"), KalshiError::Other(m) if m == "HTTP 418: tea"));
}

#[test]
fn only_server_errors_are_tried_again() {
    assert!(matches!(after_attempt(0, Attempted::Answered(200, "")), AfterAttempt::Success));
    assert!(matches!(after_attempt(0, Attempted::Answered(500, "")), AfterAttempt::Retry(1)));
    assert!(matches!(after_attempt(1, Attempted::Answered(500, "")), AfterAttempt::Retry(2)));
    assert!(matches!(after_attempt(2, Attempted::Answered(500, "")), AfterAttempt::Failed(KalshiError::ServerError(500))));
    assert!(matches!(after_attempt(0, Attempted::Answered(429, "")), AfterAttempt::Failed(KalshiError::RateLimit { .. })));
    assert!(matches!(after_attempt(1, Attempted::Unreachable("x".into())), AfterAttempt::Retry(2)));
    assert!(matches!(
        after_attempt(2, Attempted::Unreachable("down".into())),
        AfterAttempt::Failed(KalshiError::NetworkError(m)) if m == "down"
    ));
}

#[test]
fn errors_have_messages() {
    let errors = [
        KalshiError::RateLimit { retry_after_secs: 1 },
        KalshiError::InsufficientFunds,
        KalshiError::MarketClosed,
        KalshiError::InvalidOrder { reason: "r".into() },
        KalshiError::AuthFailure,
        KalshiError::ServerError(500),
        KalshiError::NetworkError("n".into()),
        KalshiError::SigningError("s".into()),
        KalshiError::WebSocketError("w".into()),
        KalshiError::Other("o".into()),
    ];
    let texts: Vec<String> = errors.iter().map(|e| e.message()).collect();
    for (i, t) in texts.iter().enumerate() {
        assert!(!t.is_empty());
        assert!(!texts[..i].contains(t));
    }
}
