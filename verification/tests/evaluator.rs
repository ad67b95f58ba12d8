use tradebot::config::Config;
use tradebot::config::{
    default_binance_futures_ws_url, default_binance_spot_ws_url, default_coinbase_ws_url,
    default_crypto_compress_factor, default_crypto_cooldown_secs, default_crypto_directional_min_conviction,
    default_crypto_entry_max_minutes, default_crypto_entry_min_minutes, default_crypto_kelly_fill_min,
    default_crypto_max_edge, default_crypto_max_market_disagreement, default_crypto_max_signals_per_hour,
    default_crypto_min_confidence, default_crypto_min_edge, default_crypto_min_kelly, default_crypto_prob_ceiling,
    default_crypto_risk_reward_max_ratio, default_crypto_vol_multiplier, default_db_pool_size,
    default_deribit_ws_url, default_rti_min_venues, default_rti_outlier_threshold_pct,
    default_rti_stale_threshold_secs, default_true, default_weather_cooldown_secs,
};
use tradebot::contract_discovery::{count_on_asset, select_contracts, tickers, ContractRow, CryptoContract};
use tradebot::crypto_asset::CryptoAsset;
use tradebot::crypto_evaluator::edge_tracker::{should_wait, EdgeTracker};
use tradebot::crypto_fv::determine_direction;
use tradebot::crypto_evaluator::entry::{
    estimate_size, judge_trade, judge_value, order_side, refused_entry, screen_entry,
    signal_entry, MicrostructureAdj, TradeFacts, ValueFacts,
};
use tradebot::crypto_evaluator::hurdles::{EntryStep, ScreenedEntry, Valuation};
use tradebot::crypto_evaluator::exit::{exit_candidate, judge_exit, ExitFacts};
use tradebot::crypto_evaluator::limiter::SignalLimiter;
use tradebot::crypto_evaluator::{
    asset_summary, contract_phase, effective_spread, read_ticker_signals, spread_regime, surge_signal,
    ContractPhase, ContractStep, Debounce,
};
use tradebot::crypto_state::CryptoStateInner;
use tradebot::feed_health::FeedHealth;
use tradebot::float::{Float, Setting};
use tradebot::kalshi::orderbook::{BookStatus, Side};
use tradebot::kalshi::trade_tape::{TradeRecord, TradeTape};
use tradebot::kill_switch::KillSwitchState;
use tradebot::order_manager::order::ManagedOrder;
use tradebot::order_manager::OrderManager;
use tradebot::time::Moment;

const SEC: u64 = 1_000_000_000;
const NOW: u64 = 10_000 * SEC;
const SOON: Moment = Moment { secs: 7, nanos: 500_000_000 };

fn float(x: f64) -> Float {
    Float::from_bits(x.to_bits())
}

fn num(x: Float) -> f64 {
    f64::from_bits(x.bits)
}

fn setting(x: f64) -> Setting {
    Setting { value: float(x), text: format!("{}", x) }
}

fn valid_config() -> Config {
    Config {
        database_url: "postgres://localhost/test".to_string(),
        redis_url: "redis://localhost:6379".to_string(),
        nats_url: "nats://localhost:4222".to_string(),
        kalshi_api_key: "test-key".to_string(),
        kalshi_private_key_path: "test.pem".to_string(),
        kalshi_base_url: "https://api.kalshi.com".to_string(),
        kalshi_ws_url: "wss://api.kalshi.com/ws".to_string(),
        binance_ws_url: default_binance_spot_ws_url(),
        mesonet_base_url: "https://mesonet.agron.iastate.edu".to_string(),
        coinbase_ws_url: default_coinbase_ws_url(),
        binance_futures_ws_url: default_binance_futures_ws_url(),
        deribit_ws_url: default_deribit_ws_url(),
        binance_spot_ws_url: default_binance_spot_ws_url(),
        enable_coinbase: false,
        enable_binance_futures: false,
        enable_binance_spot: false,
        enable_deribit: false,
        paper_mode: true,
        confirm_live_trading: String::new(),
        max_trade_size_cents: 2500,
        max_daily_loss_cents: 10000,
        max_positions: 5,
        max_exposure_cents: 15000,
        kelly_fraction_multiplier: setting(0.25),
        database_pool_size: default_db_pool_size(),
        log_level: "info".to_string(),
        log_format: "json".to_string(),
        discord_webhook_url: None,
        http_port: 3030,
        rti_stale_threshold_secs: default_rti_stale_threshold_secs(),
        rti_outlier_threshold_pct: default_rti_outlier_threshold_pct(),
        rti_min_venues: default_rti_min_venues(),
        kill_switch_all: false,
        kill_switch_crypto: false,
        kill_switch_weather: false,
        crypto_entry_min_minutes: default_crypto_entry_min_minutes(),
        crypto_entry_max_minutes: default_crypto_entry_max_minutes(),
        crypto_min_edge: default_crypto_min_edge(),
        crypto_min_kelly: default_crypto_min_kelly(),
        crypto_min_confidence: default_crypto_min_confidence(),
        crypto_max_edge: default_crypto_max_edge(),
        crypto_cooldown_secs: default_crypto_cooldown_secs(),
        weather_cooldown_secs: default_weather_cooldown_secs(),
        crypto_max_market_disagreement: default_crypto_max_market_disagreement(),
        crypto_directional_min_conviction: default_crypto_directional_min_conviction(),
        crypto_vol_multiplier: default_crypto_vol_multiplier(),
        crypto_prob_ceiling: default_crypto_prob_ceiling(),
        crypto_risk_reward_max_ratio: default_crypto_risk_reward_max_ratio(),
        crypto_kelly_fill_min: default_crypto_kelly_fill_min(),
        crypto_compress_factor: default_crypto_compress_factor(),
        crypto_max_signals_per_hour: default_crypto_max_signals_per_hour(),
        enable_crypto_btc: default_true(),
        enable_crypto_eth: false,
        enable_crypto_sol: false,
        enable_crypto_xrp: false,
        enable_crypto_doge: false,
    }
}

fn tape_with_trades(yes_count: i64, no_count: i64) -> TradeTape {
    let mut tape = TradeTape::new(100);
    for (count, side) in [(yes_count, "yes"), (no_count, "no")] {
        if count > 0 {
            tape.record(TradeRecord {
                ticker: "TEST".to_string(),
                price_cents: 50,
                count,
                taker_side: side.to_string(),
                timestamp: NOW,
            });
        }
    }
    tape
}

fn surge(tape: &TradeTape, surging: bool) -> f64 {
    num(surge_signal(surging, tape.aggressiveness(60 * SEC, NOW), true))
}

fn slope(points: Option<Vec<(u64, Float)>>) -> Option<f64> {
    let points = points?;
    let n = points.len() as f64;
    let xs: Vec<f64> = points.iter().map(|p| p.0 as f64 / SEC as f64).collect();
    let ys: Vec<f64> = points.iter().map(|p| num(p.1)).collect();
    let (sx, sy): (f64, f64) = (xs.iter().sum(), ys.iter().sum());
    let sxy: f64 = xs.iter().zip(&ys).map(|(x, y)| x * y).sum();
    let sxx: f64 = xs.iter().map(|x| x * x).sum();
    Some((n * sxy - sx * sy) / (n * sxx - sx * sx))
}

fn trend_of(edge: impl Fn(f64) -> f64) -> Option<f64> {
    let mut tracker = EdgeTracker::new();
    for i in 0..20u64 {
        tracker.record("TICKER", float(edge(i as f64)), NOW - 30 * SEC + i * SEC);
    }
    slope(tracker.trend_points("TICKER", 30, NOW))
}

fn value() -> ValueFacts {
    ValueFacts {
        directional: false,
        mid_price: float(0.50),
        minutes_remaining: float(10.0),
        probability: float(0.65),
        confidence: float(0.8),
        raw_edge: float(0.15),
        conviction: float(0.15),
    }
}

fn trade() -> TradeFacts {
    let zero = float(0.0);
    TradeFacts {
        effective_edge: float(0.13),
        adjusted_edge: float(0.14),
        micro: MicrostructureAdj {
            trade_imbalance: zero,
            spread_regime: float(0.01),
            depth_imbalance: zero,
            vwap_signal: zero,
            momentum_signal: zero,
            volume_surge_signal: zero,
            total: float(0.01),
        },
        slope: None,
        fill_price: float(0.52),
        fill_rest: float(0.48),
        scaled_fill: float(2.6),
        scaled_rest: float(2.4),
        kelly: float(0.2),
        spread: float(0.04),
        order_imbalance: float(0.5),
    }
}

fn feeds() -> FeedHealth {
    let mut fh = FeedHealth::new();
    fh.record_update("coinbase_btc", NOW);
    fh
}

fn reason(value: &ValueFacts, trade: &TradeFacts, config: &Config, fh: &FeedHealth) -> String {
    match judge_trade("T", CryptoAsset::BTC, value, trade, config, fh, NOW) {
        Ok(_) => "none".to_string(),
        Err(e) => e.rejection_reason.unwrap(),
    }
}

#[test]
fn test_microstructure_volume_surge_aligned() {
    assert_eq!(surge(&tape_with_trades(30, 10), true), 0.01);
}

#[test]
fn test_microstructure_volume_surge_opposed() {
    assert_eq!(surge(&tape_with_trades(10, 30), true), -0.01);
}

#[test]
fn test_microstructure_no_volume_surge() {
    assert_eq!(surge(&tape_with_trades(0, 0), false), 0.0);
}

#[test]
fn test_edge_tracker_no_data() {
    let tracker = EdgeTracker::new();
    let points = tracker.trend_points("TICKER", 30, NOW);
    assert!(points.is_none());
    assert!(!should_wait(slope(points).map(float)));
}

#[test]
fn test_edge_tracker_growing_edge() {
    let slope = trend_of(|i| 0.01 + i * 0.005).unwrap();
    assert!(slope > 0.001, "growing edge should have positive slope > 0.001, got {}", slope);
    assert!(should_wait(Some(float(slope))));
}

#[test]
fn test_edge_tracker_shrinking_edge() {
    let slope = trend_of(|i| 0.10 - i * 0.005).unwrap();
    assert!(slope < 0.0, "shrinking edge should have negative slope, got {}", slope);
    assert!(!should_wait(Some(float(slope))));
}

#[test]
fn test_edge_tracker_stable_edge() {
    let slope = trend_of(|_| 0.05).unwrap();
    assert!(slope.abs() < 0.001, "stable edge should have ~0 slope, got {}", slope);
    assert!(!should_wait(Some(float(slope))));
}

#[test]
fn test_edge_tracker_pruning() {
    let mut tracker = EdgeTracker::new();
    tracker.record("T", float(0.05), NOW - 120 * SEC);
    tracker.record("T", float(0.06), NOW);
    assert_eq!(tracker.len("T"), 1);
}

fn direction_and_edge(model_prob: f64, market_price: f64) -> (&'static str, f64) {
    let (direction, (more, less)) = determine_direction(float(model_prob), float(market_price));
    (direction, num(more) - num(less))
}

#[test]
fn test_market_disagreement_guard_logic() {
    let mut config = valid_config();
    config.crypto_max_market_disagreement = setting(0.25);
    let threshold = 0.25;

    let (direction, raw_edge) = direction_and_edge(0.50, 0.99);
    assert_eq!(direction, "no");
    assert!(raw_edge > threshold);
    let facts = ValueFacts { raw_edge: float(raw_edge), ..value() };
    let refused = judge_value("T", &facts, &config).unwrap_err();
    assert_eq!(refused.rejection_reason.as_deref(), Some("market_disagreement"));

    let (direction, raw_edge) = direction_and_edge(0.60, 0.55);
    assert_eq!(direction, "yes");
    assert!(raw_edge < threshold);
    let facts = ValueFacts { raw_edge: float(raw_edge), ..value() };
    assert!(judge_value("T", &facts, &config).is_ok());

    let (direction, raw_edge) = direction_and_edge(0.30, 0.55);
    assert_eq!(direction, "no");
    assert!((raw_edge - 0.25).abs() < 1e-10, "boundary case");
}

#[test]
fn test_atm_directional_flatness_guard_logic() {
    let config = valid_config();
    let conviction_threshold: f64 = 0.05;
    let guarded = |model_prob: f64| {
        let conviction = (model_prob - 0.50).abs();
        let facts =
            ValueFacts { directional: true, probability: float(model_prob), conviction: float(conviction), ..value() };
        (conviction < conviction_threshold, judge_value("T", &facts, &config).is_err())
    };
    assert_eq!(guarded(0.50), (true, true));
    assert_eq!(guarded(0.52), (true, true));
    assert_eq!(guarded(0.56), (false, false));
}

#[test]
fn test_directional_microstructure_skip() {
    assert_eq!(num(spread_regime(float(0.03))), 0.01);
    assert_eq!(num(spread_regime(float(0.15))), -0.02);
    assert_eq!(num(spread_regime(float(0.06))), 0.0);
}

#[test]
fn test_negative_spread_uses_default() {
    assert_eq!(num(effective_spread(Some(float(-0.36)), None)), 0.10);
    assert_eq!(num(effective_spread(Some(float(0.05)), None)), 0.05);
    assert_eq!(num(effective_spread(Some(float(0.0)), None)), 0.0);
    assert_eq!(num(effective_spread(None, Some(float(0.07)))), 0.07);
    assert_eq!(num(effective_spread(None, None)), 0.10);
}

#[test]
fn test_risk_reward_guard_logic() {
    let config = valid_config();
    let max_ratio = 5.0;
    let refused = |probability: f64, fill: f64| {
        let facts = ValueFacts { probability: float(probability), ..value() };
        let t = TradeFacts {
            fill_price: float(fill),
            fill_rest: float(1.0 - fill),
            scaled_fill: float(max_ratio * fill),
            scaled_rest: float(max_ratio * (1.0 - fill)),
            ..trade()
        };
        reason(&facts, &t, &config, &feeds()) == "bad_risk_reward"
    };
    assert!(refused(0.65, 0.85));
    assert!(!refused(0.65, 0.82));
    assert!(refused(0.35, 0.15));
    assert!(!refused(0.65, 0.50));
}

#[test]
fn trades_are_refused_for_the_first_reason() {
    let config = valid_config();
    let v = value();
    let fh = feeds();
    assert_eq!(reason(&v, &trade(), &config, &fh), "none");
    assert_eq!(reason(&v, &TradeFacts { adjusted_edge: float(0.26), ..trade() }, &config, &fh), "edge_too_large");
    assert_eq!(reason(&v, &TradeFacts { adjusted_edge: float(0.07), ..trade() }, &config, &fh), "edge_below_minimum");
    assert_eq!(reason(&v, &TradeFacts { slope: Some(float(0.002)), ..trade() }, &config, &fh), "edge_growing_defer");
    assert_eq!(reason(&v, &TradeFacts { kelly: float(0.01), ..trade() }, &config, &fh), "kelly_below_minimum");
    assert_eq!(reason(&v, &trade(), &config, &FeedHealth::new()), "asset_feeds_stale:btc");
}

#[test]
fn signals_carry_what_was_found() {
    let s = judge_trade("KXBTC-1", CryptoAsset::BTC, &value(), &trade(), &valid_config(), &feeds(), NOW).unwrap();
    assert_eq!(s.ticker, "KXBTC-1");
    assert_eq!((s.signal_type.as_str(), s.action.as_str(), s.direction.as_str()), ("crypto", "entry", "yes"));
    assert_eq!(num(s.edge), 0.14);
    assert_eq!(num(s.kelly_fraction), 0.2);
    assert_eq!(num(s.spread), 0.04);
    assert_eq!(num(s.confidence), 0.8);
    let e = signal_entry("KXBTC-1", &value(), &trade(), Some(3));
    assert_eq!(e.signal_id, Some(3));
    assert_eq!(e.micro_total.map(num), Some(0.01));
    assert_eq!(refused_entry("K", &value(), &trade(), "risk".into(), None).rejection_reason.as_deref(), Some("risk"));
    assert_eq!(order_side("yes"), Side::Bid);
    assert_eq!(order_side("no"), Side::Ask);
    assert!(estimate_size(&valid_config()) > 0);
}

#[test]
fn values_are_refused_for_the_first_reason() {
    let config = valid_config();
    let why = |facts: ValueFacts| judge_value("T", &facts, &config).unwrap_err().rejection_reason.unwrap();
    assert_eq!(why(ValueFacts { confidence: float(0.39), ..value() }), "confidence_below_minimum");
    assert_eq!(why(ValueFacts { mid_price: float(0.29), ..value() }), "market_price_out_of_band");
    assert_eq!(why(ValueFacts { mid_price: float(0.71), ..value() }), "market_price_out_of_band");
    assert_eq!(judge_value("T", &value(), &config).unwrap(), "yes");
}

#[test]
fn entries_are_screened_before_pricing() {
    let mut limiter = SignalLimiter::new();
    let none = BookStatus { has_entry: true, has_bids: false, has_asks: false, has_tob: false };
    let ask = |l: &mut SignalLimiter, mid: Option<f64>, now: u64| {
        screen_entry(l, "T", mid.map(float), none, float(5.0), 300, 2, now).map(|e| e.rejection_reason.unwrap())
    };
    assert_eq!(
        ask(&mut limiter, None, NOW).unwrap(),
        "no_price_data(book=true,bids=false,asks=false,tob=false)"
    );
    assert_eq!(ask(&mut limiter, Some(0.02), NOW).unwrap(), "extreme_market_price");
    assert_eq!(ask(&mut limiter, Some(0.5), NOW), None);
    limiter.fire("T", NOW);
    assert_eq!(ask(&mut limiter, Some(0.5), NOW + 7 * SEC).unwrap(), "signal_cooldown (7s/300s)");
    assert_eq!(ask(&mut limiter, Some(0.5), NOW + 300 * SEC), None);
    limiter.fire("U", NOW + 300 * SEC);
    assert_eq!(ask(&mut limiter, Some(0.5), NOW + 301 * SEC).unwrap(), "hourly_rate_limit");
    assert_eq!(ask(&mut limiter, Some(0.5), NOW + 3601 * SEC), None);
}

#[test]
fn positions_are_left_when_the_edge_is_gone() {
    let facts = |prob: f64, mid: f64| ExitFacts {
        probability: float(prob),
        confidence: float(0.7),
        mid_price: float(mid),
        spread: float(0.04),
        minutes_remaining: float(5.0),
        yes_edge: float(prob - mid),
        no_edge: float(mid - prob),
    };
    assert!(judge_exit("T", "yes", &facts(0.50, 0.52)).is_none());
    let s = judge_exit("T", "yes", &facts(0.50, 0.56)).unwrap();
    assert_eq!((s.action.as_str(), s.direction.as_str()), ("exit", "no"));
    assert!((num(s.edge) - 0.06).abs() < 1e-9);
    assert_eq!(judge_exit("T", "no", &facts(0.56, 0.50)).unwrap().direction, "yes");

    let mut mgr = OrderManager::new(0);
    assert!(exit_candidate(&mgr, "T", float(5.0)).is_none());
    let order = ManagedOrder::new(
        "id".into(), "T".into(), "crypto".into(), "no".into(), 1, float(0.5), float(0.5), None, NOW,
    );
    mgr.hold(order);
    assert_eq!(exit_candidate(&mgr, "T", float(5.0)).as_deref(), Some("no"));
    assert!(exit_candidate(&mgr, "T", float(1.9)).is_none());
}

#[test]
fn contracts_are_looked_at_in_their_window() {
    let config = valid_config();
    let mut d = Debounce::new();
    assert_eq!(contract_phase(float(25.0), float(3.0), float(20.0)), ContractPhase::Eligible);
    assert_eq!(contract_phase(float(20.0), float(3.0), float(20.0)), ContractPhase::InWindow);
    assert_eq!(contract_phase(float(2.0), float(3.0), float(20.0)), ContractPhase::ExitOnly);
    let price = float(95000.0);
    assert_eq!(d.next_step("T", price, float(10.0), &config, NOW), ContractStep::Enter);
    assert_eq!(d.next_step("T", price, float(10.0), &config, NOW + 249_000_000), ContractStep::Skip);
    assert_eq!(d.next_step("T", price, float(10.0), &config, NOW + SEC), ContractStep::Enter);
    assert_eq!(d.next_step("U", float(0.0), float(10.0), &config, NOW), ContractStep::Skip);
}

#[test]
fn summaries_tell_momentum_and_surges() {
    assert_eq!(read_ticker_signals(None), (None, false));
    assert_eq!(read_ticker_signals(Some("not json")), (None, false));
    let (momentum, surge) = read_ticker_signals(Some(r#"{"price_momentum":0.25,"volume_surge":true}"#));
    assert_eq!(momentum.unwrap().parse::<f64>().unwrap(), 0.25);
    assert!(surge);
}

#[test]
fn contracts_come_from_rows_with_strikes() {
    let row = |t: &str, s: Option<f64>| ContractRow { ticker: t.into(), strike: s.map(float), settlement_time: SOON };
    let rows = vec![row("KXBTC-1", Some(95000.0)), row("KXBTC-2", None), row("KXETH-1", Some(3000.0)), row("X", Some(0.0))];
    let found = select_contracts(&rows);
    assert_eq!(tickers(&found), vec!["KXBTC-1".to_string(), "KXETH-1".to_string()]);
    assert!(!found[0].is_directional());
    assert!(CryptoContract { ticker: "X".into(), strike: float(0.0), settlement_time: SOON }.is_directional());
    assert_eq!(found[0].seconds_remaining(Moment { secs: 5, nanos: 600_000_000 }), 1);
    assert_eq!(found[0].seconds_remaining(Moment { secs: 8, nanos: 400_000_000 }), 0);
    assert_eq!(found[0].seconds_remaining(Moment { secs: 8, nanos: 500_000_000 }), -1);
    assert_eq!(count_on_asset(&found, CryptoAsset::BTC), 1);
    assert_eq!(count_on_asset(&found, CryptoAsset::SOL), 0);
    let text = asset_summary(&found);
    assert!(text.contains("btc") && text.contains("eth") && !text.contains("sol"), "{}", text);
}

fn valuation() -> Valuation {
    Valuation {
        directional: false,
        probability: float(0.65),
        confidence: float(0.8),
        raw_edge: float(0.15),
        conviction: float(0.15),
    }
}

#[test]
fn orders_go_out_only_over_every_hurdle() {
    let config = valid_config();
    let state = CryptoStateInner::default();
    let open = KillSwitchState::new(false, false, false);
    let halted = KillSwitchState::new(true, false, false);
    let book = BookStatus { has_entry: true, has_bids: true, has_asks: true, has_tob: false };
    let mut fh = feeds();
    fh.record_update("coinbase", NOW);
    let mut limiter = SignalLimiter::new();
    let mut mgr = OrderManager::new(0);

    let refused = ScreenedEntry::screen(&mut limiter, &config, "KXBTC-1", Some(float(0.99)), book, float(10.0), NOW);
    assert_eq!(refused.err().unwrap().rejection_reason.as_deref(), Some("extreme_market_price"));
    let screen = |l: &mut SignalLimiter| {
        ScreenedEntry::screen(l, &config, "KXBTC-1", Some(float(0.50)), book, float(10.0), NOW).ok()
    };
    let doubtful = screen(&mut limiter).unwrap().value(Valuation { confidence: float(0.1), ..valuation() });
    assert_eq!(doubtful.err().unwrap().rejection_reason.as_deref(), Some("confidence_below_minimum"));
    let valued = screen(&mut limiter).unwrap().value(valuation()).ok().unwrap();
    assert_eq!(valued.direction(), "yes");
    let stale = valued.trade(CryptoAsset::ETH, trade(), &fh, NOW);
    assert_eq!(stale.err().unwrap().rejection_reason.as_deref(), Some("asset_feeds_stale:eth"));
    let valued = screen(&mut limiter).unwrap().value(valuation()).ok().unwrap();
    let judged = valued.trade(CryptoAsset::BTC, trade(), &fh, NOW).ok().unwrap();
    assert_eq!(judged.signal().ticker, "KXBTC-1");
    assert_eq!(num(judged.signal().market_price), 0.50);

    let lost = judged.after_signal(&mut limiter, &mut mgr, 10, 65, &open, &fh, &state, None, NOW, 0);
    assert!(matches!(lost, EntryStep::NotStored));
    assert!(limiter.resting("KXBTC-1", 300, NOW).is_none());
    match judged.after_signal(&mut limiter, &mut mgr, 10, 65, &halted, &fh, &state, Some(4), NOW, 0) {
        EntryStep::Refused(why) => {
            assert_eq!(why, "blocked by kill switch");
            assert_eq!(judged.log_refused(why, Some(4)).signal_id, Some(4));
        },
        _ => panic!("not refused"),
    }
    assert_eq!(limiter.resting("KXBTC-1", 300, NOW), Some(0));
    assert_eq!(mgr.position_count(), 0);
    match judged.after_signal(&mut limiter, &mut mgr, 10, 65, &open, &fh, &state, Some(5), NOW, 0) {
        EntryStep::Submit(sub) => {
            assert!(sub.request.is_none());
            assert_eq!(sub.order.signal_id, Some(5));
            assert_eq!(sub.order.filled_qty, 10);
        },
        _ => panic!("not sent"),
    }
    assert_eq!(mgr.all_positions(), vec![("KXBTC-1", "yes")]);
    assert_eq!(judged.log_acted(Some(5)).outcome, "signal");
    assert!(screen(&mut limiter).is_none());
}
