use tradebot::crypto_asset::CryptoAsset;
use tradebot::feeds::binance_futures::{
    futures_stream_url, parse_binance_futures_message, BinanceFuturesState, FuturesMessage, FuturesUpdate,
};
use tradebot::feeds::binance_spot::{
    build_stream_url, parse_binance_spot_message_multi, BinanceSpotAssetState, MAX_BARS,
};
use tradebot::feeds::coinbase::{parse_coinbase_message_multi, CoinbaseAssetState, CoinbaseMessage, QuoteSide};
use tradebot::feeds::deribit::parse_deribit_message;
use tradebot::feeds::stream::{fresh_feeds, state_keys, stream_step, StreamEvent, StreamStep, Venue};
use tradebot::float::Float;

const SEC: u64 = 1_000_000_000;

fn float(x: f64) -> Float {
    Float::from_bits(x.to_bits())
}

fn num(x: Float) -> f64 {
    f64::from_bits(x.bits)
}

fn parsed(s: Option<String>) -> Option<Float> {
    s.and_then(|s| s.parse::<f64>().ok()).map(float)
}

fn futures(msg: &str) -> BinanceFuturesState {
    let mut state = BinanceFuturesState::default();
    let level = |l: Option<(String, String)>| l.map(|(p, q)| (parsed(Some(p)).unwrap(), parsed(Some(q)).unwrap()));
    state.apply(match parse_binance_futures_message(msg) {
        FuturesMessage::Trade { price } => FuturesUpdate::Trade { price: parsed(price) },
        FuturesMessage::Depth { bid, ask } => FuturesUpdate::Depth { bid: level(bid), ask: level(ask) },
        FuturesMessage::Mark { mark, rate } => FuturesUpdate::Mark { mark: parsed(mark), rate: parsed(rate) },
        FuturesMessage::Nothing => FuturesUpdate::Nothing,
    });
    state
}

fn obi(bid: f64, ask: f64) -> f64 {
    num(BinanceFuturesState::obi(float(bid + ask), float(bid / (bid + ask))))
}

#[test]
fn test_parse_agg_trade() {
    let state = futures(r#"{"data":{"e":"aggTrade","s":"BTCUSDT","p":"95234.50","q":"0.1"}}"#);
    assert!((num(state.perp_price) - 95234.50).abs() < 0.01);
}

#[test]
fn test_parse_mark_price() {
    let state = futures(r#"{"data":{"e":"markPriceUpdate","s":"BTCUSDT","p":"95200.00","r":"0.00015"}}"#);
    assert!((num(state.mark_price) - 95200.0).abs() < 0.01);
    assert!((num(state.funding_rate) - 0.00015).abs() < 0.00001);
}

#[test]
fn test_parse_depth_update() {
    let state = futures(r#"{"data":{"e":"depthUpdate","b":[["95000.00","1.5"]],"a":[["95100.00","2.0"]]}}"#);
    assert!((num(state.best_bid) - 95000.0).abs() < 0.01);
    assert!((num(state.best_ask) - 95100.0).abs() < 0.01);
    assert!((num(state.bid_qty) - 1.5).abs() < 0.01);
}

#[test]
fn test_obi_balanced() {
    assert!((obi(10.0, 10.0) - 0.5).abs() < 0.001);
}

#[test]
fn test_obi_buy_pressure() {
    assert!((obi(30.0, 10.0) - 0.75).abs() < 0.001);
    assert_eq!(obi(0.0, 0.0), 0.5);
}

#[test]
fn test_basis() {
    let state =
        BinanceFuturesState { perp_price: float(95300.0), mark_price: float(95200.0), ..Default::default() };
    assert!((num(state.basis(float(95300.0 - 95200.0))) - 100.0).abs() < 0.01);
    assert_eq!(num(BinanceFuturesState::default().basis(float(7.0))), 0.0);
}

struct Spot {
    btc: BinanceSpotAssetState,
    eth: BinanceSpotAssetState,
}

impl Spot {
    fn new() -> Self {
        Spot { btc: BinanceSpotAssetState::default(), eth: BinanceSpotAssetState::default() }
    }

    fn take(&mut self, msg: &str) -> Option<CryptoAsset> {
        let trade = parse_binance_spot_message_multi(msg, &vec![CryptoAsset::BTC, CryptoAsset::ETH])?;
        let price = trade.price.parse::<f64>().ok()?;
        let qty = trade.qty.parse::<f64>().ok()?;
        let state = match trade.asset {
            CryptoAsset::BTC => &mut self.btc,
            CryptoAsset::ETH => &mut self.eth,
            _ => unreachable!(),
        };
        let volume = num(state.current.volume) + qty;
        state.handle_trade(float(price), float(qty), float(volume), trade.time_ms);
        Some(trade.asset)
    }
}

fn make_trade_msg(symbol: &str, price: f64, qty: f64, ts_ms: i64) -> String {
    format!(
        r#"{{"data":{{"e":"trade","s":"{}","p":"{:.2}","q":"{:.4}","T":{}}}}}"#,
        symbol, price, qty, ts_ms
    )
}

#[test]
fn test_parse_trade_btc() {
    let mut spot = Spot::new();
    let asset = spot.take(&make_trade_msg("BTCUSDT", 95000.50, 0.1, 1700000000000));
    assert_eq!(asset, Some(CryptoAsset::BTC));
    assert!((num(spot.btc.spot_price) - 95000.50).abs() < 0.01);
    assert_eq!(num(spot.eth.spot_price), 0.0);
}

#[test]
fn test_parse_trade_eth() {
    let mut spot = Spot::new();
    let asset = spot.take(&make_trade_msg("ETHUSDT", 3500.0, 1.0, 1700000000000));
    assert_eq!(asset, Some(CryptoAsset::ETH));
    assert!((num(spot.eth.spot_price) - 3500.0).abs() < 0.01);
}

#[test]
fn test_parse_unknown_symbol() {
    let mut spot = Spot::new();
    let asset = spot.take(&make_trade_msg("XYZUSDT", 100.0, 1.0, 1700000000000));
    assert_eq!(asset, None);
}

#[test]
fn test_combined_stream_url() {
    let url = build_stream_url(
        "wss://stream.binance.us:9443/ws/btcusd@trade",
        &vec![CryptoAsset::BTC, CryptoAsset::ETH, CryptoAsset::SOL],
    );
    assert!(url.contains("btcusdt@trade"));
    assert!(url.contains("ethusdt@trade"));
    assert!(url.contains("solusdt@trade"));
    assert!(url.contains("/stream?streams="));
    assert_eq!(
        url,
        "wss://stream.binance.us:9443/stream?streams=btcusdt@trade/ethusdt@trade/solusdt@trade"
    );
}

#[test]
fn test_per_asset_ohlc_isolation() {
    let mut spot = Spot::new();
    let base_ms: i64 = 1700000000000;
    let minute_ms: i64 = 60_000;
    for i in 0..5 {
        spot.take(&make_trade_msg("BTCUSDT", 95000.0 + i as f64, 1.0, base_ms + i * minute_ms));
    }
    assert_eq!(spot.eth.bars_1m.len(), 0);
    assert!(spot.btc.bars_1m.len() > 0 || spot.btc.current_bar_minute >= 0);
    assert_eq!(spot.btc.bars_1m.len(), 4);
}

#[test]
fn bars_are_kept_for_an_hour() {
    let mut s = BinanceSpotAssetState::default();
    for i in 0..70i64 {
        let closed = s.handle_trade(float(100.0 + i as f64), float(1.0), float(1.0), i * 60_000);
        assert_eq!(closed, i > 0);
        assert!(!s.handle_trade(float(99.0), float(2.0), float(3.0), i * 60_000 + 1));
        assert_eq!(num(s.current.low), 99.0);
        assert_eq!(num(s.current.high), 100.0 + i as f64);
        assert_eq!(num(s.current.volume), 3.0);
        assert_eq!(s.realized_input().is_some(), i >= 31);
        assert_eq!(s.ewma_input().is_some(), i >= 2);
    }
    assert_eq!(s.bars_1m.len(), MAX_BARS);
    assert_eq!(s.volume_parts().len(), 6);
    assert_eq!(s.realized_input().unwrap().len(), 30);
    assert_eq!(s.ewma_input().unwrap().seed.unwrap().len(), 10);
    s.ewma_variance = float(0.1);
    assert!(s.ewma_input().unwrap().seed.is_none());
}

struct Coinbase {
    btc: CoinbaseAssetState,
    eth: CoinbaseAssetState,
}

impl Coinbase {
    fn new() -> Self {
        Coinbase { btc: CoinbaseAssetState::default(), eth: CoinbaseAssetState::default() }
    }

    fn take(&mut self, msg: &str) -> Option<CryptoAsset> {
        let message = parse_coinbase_message_multi(msg, &vec![CryptoAsset::BTC, CryptoAsset::ETH]);
        let updated = message.updated();
        if let CoinbaseMessage::Quotes { asset: Some(asset), quotes } = message {
            let state = match asset {
                CryptoAsset::BTC => &mut self.btc,
                CryptoAsset::ETH => &mut self.eth,
                _ => unreachable!(),
            };
            let read: Vec<(QuoteSide, Float)> =
                quotes.into_iter().filter_map(|q| parsed(q.price).map(|p| (q.side, p))).collect();
            if state.apply_quotes(&read) {
                let mid = (num(state.best_bid) + num(state.best_ask)) / 2.0;
                state.set_price(float(mid));
            }
        }
        updated
    }
}

#[test]
fn test_parse_l2_bid() {
    let mut c = Coinbase::new();
    let asset = c.take(r#"{"channel":"l2_data","events":[{"type":"update","product_id":"BTC-USD","updates":[{"side":"bid","price_level":"95000.50","new_quantity":"1.5"}]}]}"#);
    assert_eq!(asset, Some(CryptoAsset::BTC));
    assert!((num(c.btc.best_bid) - 95000.50).abs() < 0.01);
    assert_eq!(num(c.eth.best_bid), 0.0);
}

#[test]
fn test_parse_l2_ask() {
    let mut c = Coinbase::new();
    let asset = c.take(r#"{"channel":"l2_data","events":[{"type":"update","product_id":"ETH-USD","updates":[{"side":"offer","price_level":"3500.00","new_quantity":"2.0"}]}]}"#);
    assert_eq!(asset, Some(CryptoAsset::ETH));
    assert!((num(c.eth.best_ask) - 3500.0).abs() < 0.01);
}

#[test]
fn test_parse_l2_mid_price() {
    let mut c = Coinbase::new();
    c.take(r#"{"channel":"l2_data","events":[{"type":"update","product_id":"BTC-USD","updates":[{"side":"bid","price_level":"95000.00","new_quantity":"1.0"}]}]}"#);
    c.take(r#"{"channel":"l2_data","events":[{"type":"update","product_id":"BTC-USD","updates":[{"side":"offer","price_level":"95100.00","new_quantity":"1.0"}]}]}"#);
    assert!((num(c.btc.spot) - 95050.0).abs() < 0.01);
}

#[test]
fn test_multi_product_subscription_message() {
    let assets = vec![CryptoAsset::BTC, CryptoAsset::ETH, CryptoAsset::SOL];
    let product_ids: Vec<&str> = assets.iter().map(|a| a.coinbase_product_id()).collect();
    let mut sub = serde_json::Map::new();
    sub.insert("type".to_string(), serde_json::Value::from("subscribe"));
    sub.insert("product_ids".to_string(), serde_json::Value::from(product_ids));
    sub.insert("channel".to_string(), serde_json::Value::from("level2"));
    let sub_str = serde_json::Value::from(sub).to_string();
    assert!(sub_str.contains("BTC-USD"));
    assert!(sub_str.contains("ETH-USD"));
    assert!(sub_str.contains("SOL-USD"));
}

#[test]
fn trades_and_tickers_of_followed_products_count() {
    let followed = vec![CryptoAsset::BTC];
    let trades = r#"{"channel":"market_trades","events":[{"trades":[{"product_id":"BTC-USD","size":"0.5"},{"product_id":"ETH-USD","size":"9"},{"product_id":"BTC-USD"}]}]}"#;
    match parse_coinbase_message_multi(trades, &followed) {
        CoinbaseMessage::Trades(t) => {
            assert_eq!(t.len(), 2);
            assert_eq!(t[0].size.as_deref(), Some("0.5"));
            assert_eq!(t[1].size, None);
        },
        m => panic!("{:?}", m),
    }
    let ticker = r#"{"channel":"ticker","events":[{"tickers":[{"product_id":"ETH-USD","price":"1"},{"product_id":"BTC-USD","price":"95000"}]}]}"#;
    match parse_coinbase_message_multi(ticker, &followed) {
        CoinbaseMessage::Price { asset, price } => {
            assert_eq!(asset, CryptoAsset::BTC);
            assert_eq!(price.as_deref(), Some("95000"));
        },
        m => panic!("{:?}", m),
    }
    assert!(matches!(parse_coinbase_message_multi("{", &followed), CoinbaseMessage::Nothing));
    assert!(matches!(parse_coinbase_message_multi("[]", &followed), CoinbaseMessage::Nothing));
}

#[test]
fn traded_sizes_count_for_five_minutes() {
    let mut s = CoinbaseAssetState::default();
    s.record_trade(float(1.0), 10 * SEC);
    s.record_trade(float(2.0), 200 * SEC);
    let sizes: Vec<f64> = s.window_sizes(310 * SEC).into_iter().map(num).collect();
    assert_eq!(sizes, vec![1.0, 2.0]);
    let sizes: Vec<f64> = s.window_sizes(310 * SEC + 1).into_iter().map(num).collect();
    assert_eq!(sizes, vec![2.0]);
}

#[test]
fn test_parse_dvol_subscription() {
    let msg = r#"{"method":"subscription","params":{"channel":"deribit_volatility_index.btc_usd","data":{"volatility":52.3,"estimated_delivery_price":95000.0}}}"#;
    let dvol = parse_deribit_message(msg).unwrap().parse::<f64>().unwrap();
    assert!((dvol - 52.3).abs() < 0.01);
}

#[test]
fn test_ignore_non_subscription() {
    let msg = r#"{"jsonrpc":"2.0","id":1,"result":["deribit_volatility_index.btc_usd"]}"#;
    assert!(parse_deribit_message(msg).is_none());
}

#[test]
fn futures_streams_share_an_address() {
    let url = futures_stream_url("wss://fstream.binance.com");
    assert!(url.starts_with("wss://fstream.binance.com"), "{}", url);
    assert!(url.contains("btcusdt@aggTrade"), "{}", url);
}

#[test]
fn events_on_a_stream_have_their_steps() {
    let step = |e| stream_step(Venue::BinanceSpot, e);
    assert!(matches!(step(StreamEvent::Cancelled), StreamStep::CloseAndStop));
    assert!(matches!(step(StreamEvent::Text("x")), StreamStep::Read("x")));
    assert!(matches!(step(StreamEvent::CloseFrame), StreamStep::Stop));
    assert!(matches!(step(StreamEvent::Failed("no".into())), StreamStep::Fail(e) if e == "no"));
    assert!(matches!(step(StreamEvent::Ended), StreamStep::Fail(e) if e == "binance spot ws stream ended"));
    assert!(matches!(step(StreamEvent::OtherFrame), StreamStep::Continue));
    assert!(matches!(step(StreamEvent::FlushDue), StreamStep::Flush));
}

#[test]
fn bitcoin_speaks_for_its_venue() {
    assert_eq!(fresh_feeds(Venue::Coinbase, CryptoAsset::BTC), ["coinbase_btc", "coinbase"]);
    assert_eq!(fresh_feeds(Venue::BinanceSpot, CryptoAsset::ETH), ["binance_spot_eth"]);
    assert_eq!(state_keys(Venue::BinanceSpot, CryptoAsset::BTC), ["crypto:binance_spot:btc", "crypto:binance_spot"]);
    assert_eq!(state_keys(Venue::Coinbase, CryptoAsset::DOGE), ["crypto:coinbase:doge"]);
}

#[test]
fn only_positive_prices_make_trades() {
    let mut s = BinanceSpotAssetState::default();
    assert!(!s.take_trade(float(0.0), float(1.0), float(1.0), 60_000));
    assert_eq!(num(s.spot_price), 0.0);
    assert!(!s.take_trade(float(5.0), float(1.0), float(1.0), 60_000));
    assert!(s.take_trade(float(6.0), float(1.0), float(1.0), 120_000));
    assert_eq!(num(s.bars_1m[0].close), 5.0);
}
