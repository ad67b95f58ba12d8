use tradebot::config::{
    default_crypto_compress_factor, default_crypto_kelly_fill_min, default_crypto_max_edge,
    default_crypto_max_signals_per_hour, default_crypto_prob_ceiling, default_crypto_risk_reward_max_ratio,
    default_crypto_vol_multiplier, Config,
};
use tradebot::crypto_state::CryptoStateInner;
use tradebot::dashboard::{api_state, positions_shown};
use tradebot::contract_discovery::CryptoContract;
use tradebot::feed_health::FeedHealth;
use tradebot::float::{Float, Setting};
use tradebot::kalshi::error::KalshiError;
use tradebot::kalshi::types::{Order, Position};
use tradebot::kill_switch::KillSwitchState;
use tradebot::order_manager::order::{FillPrice, ManagedOrder, OrderState};
use tradebot::order_manager::pnl::DailyPnl;
use tradebot::order_manager::{
    client_order_id, compute_order_size, cooldown_for_signal_type, hash_signal, paper_fill_price, Answered,
    Cancellation, OrderManager, Placed, SignalRoute,
};
use tradebot::time::Moment;
use tradebot::types::{Signal, SignalPriority};

const SEC: u64 = 1_000_000_000;
const NOW: u64 = 1_000 * SEC;
const TODAY: i64 = 20_000;

fn float(x: f64) -> Float {
    Float::from_bits(x.to_bits())
}

fn setting(x: f64) -> Setting {
    Setting { value: float(x), text: format!("{}", x) }
}

fn make_test_config() -> Config {
    Config {
        database_url: String::new(),
        redis_url: String::new(),
        nats_url: String::new(),
        kalshi_api_key: String::new(),
        kalshi_private_key_path: String::new(),
        kalshi_base_url: String::new(),
        kalshi_ws_url: String::new(),
        binance_ws_url: String::new(),
        mesonet_base_url: String::new(),
        coinbase_ws_url: String::new(),
        binance_futures_ws_url: String::new(),
        deribit_ws_url: String::new(),
        binance_spot_ws_url: String::new(),
        enable_coinbase: false,
        enable_binance_futures: false,
        enable_binance_spot: false,
        enable_deribit: false,
        paper_mode: true,
        confirm_live_trading: String::new(),
        max_trade_size_cents: 2500,
        max_daily_loss_cents: 10000,
        max_positions: 5,
        max_exposure_cents: 15000,
        kelly_fraction_multiplier: setting(0.25),
        database_pool_size: 5,
        log_level: "info".to_string(),
        log_format: "pretty".to_string(),
        discord_webhook_url: None,
        http_port: 3030,
        rti_stale_threshold_secs: 5,
        rti_outlier_threshold_pct: setting(0.5),
        rti_min_venues: 2,
        kill_switch_all: false,
        kill_switch_crypto: false,
        kill_switch_weather: false,
        crypto_entry_min_minutes: setting(3.0),
        crypto_entry_max_minutes: setting(20.0),
        crypto_min_edge: setting(0.06),
        crypto_min_kelly: setting(0.04),
        crypto_min_confidence: setting(0.50),
        crypto_max_edge: default_crypto_max_edge(),
        crypto_cooldown_secs: 30,
        weather_cooldown_secs: 120,
        crypto_max_market_disagreement: setting(0.25),
        crypto_directional_min_conviction: setting(0.05),
        crypto_vol_multiplier: default_crypto_vol_multiplier(),
        crypto_prob_ceiling: default_crypto_prob_ceiling(),
        crypto_risk_reward_max_ratio: default_crypto_risk_reward_max_ratio(),
        crypto_kelly_fill_min: default_crypto_kelly_fill_min(),
        crypto_compress_factor: default_crypto_compress_factor(),
        crypto_max_signals_per_hour: default_crypto_max_signals_per_hour(),
        enable_crypto_btc: true,
        enable_crypto_eth: false,
        enable_crypto_sol: false,
        enable_crypto_xrp: false,
        enable_crypto_doge: false,
    }
}

fn small_config() -> Config {
    Config {
        max_trade_size_cents: 100,
        max_daily_loss_cents: 1000,
        max_positions: 5,
        max_exposure_cents: 5000,
        kelly_fraction_multiplier: setting(0.5),
        ..make_test_config()
    }
}

fn make_test_signal(ticker: &str) -> Signal {
    Signal {
        ticker: ticker.to_string(),
        signal_type: "weather".to_string(),
        action: "entry".to_string(),
        direction: "yes".to_string(),
        model_prob: float(0.65),
        market_price: float(0.50),
        edge: float(0.10),
        kelly_fraction: float(0.12),
        minutes_remaining: float(12.0),
        spread: float(0.04),
        order_imbalance: float(0.5),
        priority: SignalPriority::Timer,
        confidence: float(0.5),
    }
}

fn crypto_signal() -> Signal {
    Signal {
        ticker: "TICKER-A".to_string(),
        signal_type: "crypto".to_string(),
        action: "entry".to_string(),
        direction: "yes".to_string(),
        model_prob: float(0.65),
        market_price: float(0.50),
        edge: float(0.15),
        kelly_fraction: float(0.10),
        minutes_remaining: float(10.0),
        spread: float(0.03),
        order_imbalance: float(0.5),
        priority: SignalPriority::default(),
        confidence: float(0.5),
    }
}

fn stake(config: &Config, signal: &Signal) -> i64 {
    let kelly = f64::from_bits(signal.kelly_fraction.bits)
        * f64::from_bits(config.kelly_fraction_multiplier.value.bits);
    let scale = f64::from_bits(signal.confidence.bits).clamp(0.3, 1.0);
    (kelly * scale * 10000.0) as i64
}

fn percent(signal: &Signal) -> i64 {
    (f64::from_bits(signal.model_prob.bits) * 100.0) as i64
}

fn order(id: &str, ticker: &str, kind: &str, direction: &str, qty: i64, prob: f64, price: f64) -> ManagedOrder {
    ManagedOrder::new(
        id.to_string(),
        ticker.to_string(),
        kind.to_string(),
        direction.to_string(),
        qty,
        float(prob),
        float(price),
        None,
        NOW,
    )
}

fn fresh_feeds() -> FeedHealth {
    let mut fh = FeedHealth::new();
    fh.record_update("kalshi_ws", NOW);
    fh.record_update("coinbase", NOW);
    fh
}

fn placed(id: &str, count: i64, remaining: i64, price: Option<i64>) -> Order {
    Order {
        order_id: id.to_string(),
        ticker: "TICKER-A".to_string(),
        status: "executed".to_string(),
        action: "buy".to_string(),
        side: "yes".to_string(),
        order_type: "market".to_string(),
        yes_price: price,
        no_price: None,
        count: Some(count),
        remaining_count: Some(remaining),
    }
}

fn position(ticker: &str, exposure: Option<i64>) -> Position {
    Position {
        ticker: ticker.to_string(),
        market_exposure: exposure,
        resting_orders_count: None,
        total_traded: None,
        realized_pnl: None,
    }
}

#[test]
fn test_valid_transitions() {
    assert!(OrderState::Pending.validate_transition(OrderState::Submitting).is_ok());
    assert!(OrderState::Submitting.validate_transition(OrderState::Acknowledged).is_ok());
    assert!(OrderState::Submitting.validate_transition(OrderState::Rejected).is_ok());
    assert!(OrderState::Submitting.validate_transition(OrderState::Filled).is_ok());
    assert!(OrderState::Acknowledged.validate_transition(OrderState::Filled).is_ok());
    assert!(OrderState::Acknowledged.validate_transition(OrderState::PartialFill).is_ok());
    assert!(OrderState::Acknowledged.validate_transition(OrderState::CancelPending).is_ok());
    assert!(OrderState::PartialFill.validate_transition(OrderState::Filled).is_ok());
    assert!(OrderState::PartialFill.validate_transition(OrderState::CancelPending).is_ok());
    assert!(OrderState::CancelPending.validate_transition(OrderState::Cancelled).is_ok());
    assert!(OrderState::CancelPending.validate_transition(OrderState::Filled).is_ok());
    assert!(OrderState::Replacing.validate_transition(OrderState::Acknowledged).is_ok());
}

#[test]
fn test_invalid_transitions() {
    assert!(OrderState::Pending.validate_transition(OrderState::Filled).is_err());
    assert!(OrderState::Filled.validate_transition(OrderState::Acknowledged).is_err());
    assert!(OrderState::Cancelled.validate_transition(OrderState::Filled).is_err());
    assert!(OrderState::Rejected.validate_transition(OrderState::Submitting).is_err());
    assert!(OrderState::Pending.validate_transition(OrderState::CancelPending).is_err());
}

#[test]
fn test_any_to_unknown() {
    assert!(OrderState::Pending.validate_transition(OrderState::Unknown).is_ok());
    assert!(OrderState::Submitting.validate_transition(OrderState::Unknown).is_ok());
    assert!(OrderState::Acknowledged.validate_transition(OrderState::Unknown).is_ok());
    assert!(OrderState::Filled.validate_transition(OrderState::Unknown).is_ok());
}

#[test]
fn test_unknown_to_any() {
    assert!(OrderState::Unknown.validate_transition(OrderState::Filled).is_ok());
    assert!(OrderState::Unknown.validate_transition(OrderState::Cancelled).is_ok());
    assert!(OrderState::Unknown.validate_transition(OrderState::Acknowledged).is_ok());
}

#[test]
fn test_terminal_states() {
    assert!(OrderState::Filled.is_terminal());
    assert!(OrderState::Cancelled.is_terminal());
    assert!(OrderState::Rejected.is_terminal());
    assert!(!OrderState::Pending.is_terminal());
    assert!(!OrderState::Acknowledged.is_terminal());
    assert!(!OrderState::PartialFill.is_terminal());
    assert!(!OrderState::Unknown.is_terminal());
}

#[test]
fn test_has_fill() {
    assert!(OrderState::Filled.has_fill());
    assert!(OrderState::PartialFill.has_fill());
    assert!(!OrderState::Pending.has_fill());
    assert!(!OrderState::Acknowledged.has_fill());
    assert!(!OrderState::Cancelled.has_fill());
}

#[test]
fn test_order_rejection_state_transition() {
    assert!(OrderState::Rejected.is_terminal());
    assert!(!OrderState::Rejected.has_fill());

    assert!(OrderState::Submitting.validate_transition(OrderState::Rejected).is_ok());
    assert!(OrderState::Acknowledged.validate_transition(OrderState::Rejected).is_ok());

    assert!(OrderState::Pending.validate_transition(OrderState::Rejected).is_err());
}

#[test]
fn test_managed_order_lifecycle() {
    let mut order = order("tb-test-1", "TICKER-A", "crypto", "yes", 10, 0.65, 0.50);

    assert_eq!(order.state, OrderState::Pending);
    assert!(order.transition(OrderState::Submitting, NOW));
    assert_eq!(order.state, OrderState::Submitting);
    assert!(order.transition(OrderState::Acknowledged, NOW));
    assert_eq!(order.state, OrderState::Acknowledged);
    assert!(order.record_fill(5, Some(FillPrice::Quote(float(0.52))), NOW));
    assert_eq!(order.state, OrderState::PartialFill);
    assert_eq!(order.filled_qty, 5);
    assert!(order.record_fill(10, Some(FillPrice::Quote(float(0.52))), NOW));
    assert_eq!(order.state, OrderState::Filled);
    assert_eq!(order.filled_qty, 10);
    assert_eq!(order.transitions.len(), 5);
}

#[test]
fn test_managed_order_rejection() {
    let mut order = order("tb-test-2", "TICKER-B", "weather", "no", 5, 0.70, 0.45);
    order.transition(OrderState::Submitting, NOW);
    order.transition(OrderState::Rejected, NOW);
    assert!(order.state.is_terminal());
}

#[test]
fn test_cancel_race_condition() {
    let mut order = order("tb-test-3", "TICKER-C", "crypto", "yes", 10, 0.60, 0.50);
    order.transition(OrderState::Submitting, NOW);
    order.transition(OrderState::Acknowledged, NOW);
    order.transition(OrderState::CancelPending, NOW);
    order.transition(OrderState::Filled, NOW);
    assert_eq!(order.state, OrderState::Filled);
}

#[test]
fn test_cooldown_for_signal_type() {
    assert_eq!(cooldown_for_signal_type("crypto", None), 30);
    assert_eq!(cooldown_for_signal_type("weather", None), 120);
    assert_eq!(cooldown_for_signal_type("other", None), 60);
    let mut config = make_test_config();
    config.crypto_cooldown_secs = 7;
    assert_eq!(cooldown_for_signal_type("crypto", Some(&config)), 7);
    assert_eq!(cooldown_for_signal_type("other", Some(&config)), 60);
}

#[test]
fn test_order_manager_rate_limiting() {
    let mut mgr = OrderManager::new(TODAY);

    assert!(mgr.check_global_rate_limit(NOW));
    assert!(mgr.check_ticker_rate_limit("TICKER-A", NOW));

    for _ in 0..10 {
        mgr.record_order_submission("TICKER-A", NOW);
    }

    assert!(!mgr.check_global_rate_limit(NOW));
    assert!(!mgr.check_ticker_rate_limit("TICKER-A", NOW));
    assert!(mgr.check_ticker_rate_limit("TICKER-B", NOW));
    assert!(mgr.check_global_rate_limit(NOW + 61 * SEC));
    assert!(!mgr.check_ticker_rate_limit("TICKER-A", NOW + 61 * SEC));
    assert!(mgr.check_ticker_rate_limit("TICKER-A", NOW + 301 * SEC));
}

#[test]
fn test_signal_cooldown() {
    let mut mgr = OrderManager::new(TODAY);
    let signal = crypto_signal();

    assert!(!mgr.is_in_cooldown(&signal, None, NOW));
    mgr.record_signal_cooldown("TICKER-A", NOW);
    assert!(mgr.is_in_cooldown(&signal, None, NOW));
    assert!(!mgr.is_in_cooldown(&signal, None, NOW + 30 * SEC));
}

#[test]
fn test_gc_old_orders() {
    let mut mgr = OrderManager::new(TODAY);
    let mut old = order("tb-old-1", "TICKER-OLD", "crypto", "yes", 10, 0.60, 0.50);
    old.state = OrderState::Filled;
    mgr.keep(old);

    mgr.gc_old_orders(NOW);
    assert!(mgr.all_orders().iter().any(|o| o.client_order_id == "tb-old-1"));

    mgr.keep(order("tb-open-1", "TICKER-OPEN", "crypto", "yes", 10, 0.60, 0.50));
    mgr.gc_old_orders(NOW + 100_000 * SEC);
    let left: Vec<&str> = mgr.all_orders().iter().map(|o| o.client_order_id.as_str()).collect();
    assert_eq!(left, vec!["tb-open-1"]);
}

#[test]
fn test_client_order_id_determinism() {
    let mut mgr = OrderManager::new(TODAY);
    let signal = crypto_signal();

    let id1 = mgr.generate_client_order_id(&signal, percent(&signal));
    let id2 = mgr.generate_client_order_id(&signal, percent(&signal));

    assert!(id1.starts_with("tb-"));
    assert!(id2.starts_with("tb-"));
    let hash1 = &id1[3..15];
    let hash2 = &id2[3..15];
    assert_eq!(hash1, hash2, "same signal should produce same hash");
    assert_ne!(id1, id2, "sequence should differ");
    assert_eq!(id1, client_order_id(hash_signal(&signal, 65), 1));
    assert_eq!(id2, client_order_id(hash_signal(&signal, 65), 2));
}

#[test]
fn test_display_order_state() {
    assert_eq!(OrderState::Pending.text(), "pending");
    assert_eq!(OrderState::PartialFill.text(), "partial_fill");
    assert_eq!(OrderState::CancelPending.text(), "cancel_pending");
}

#[test]
fn test_daily_pnl_circuit_breaker() {
    let mut pnl = DailyPnl::new(TODAY);
    assert_eq!(pnl.current_loss(TODAY), 0);

    pnl.record_pnl(-500, TODAY);
    assert_eq!(pnl.current_loss(TODAY), 500);

    pnl.record_pnl(200, TODAY);
    assert_eq!(pnl.current_loss(TODAY), 300);

    pnl.record_pnl(500, TODAY);
    assert_eq!(pnl.current_loss(TODAY), 0);

    pnl.record_pnl(-900, TODAY);
    assert_eq!(pnl.current_loss(TODAY + 1), 0);
}

#[test]
fn test_confidence_scaled_sizing() {
    let config = make_test_config();

    let signal_high = Signal {
        ticker: "T".to_string(),
        model_prob: float(0.7),
        kelly_fraction: float(0.20),
        confidence: float(1.0),
        ..crypto_signal()
    };
    let signal_low = Signal { confidence: float(0.2), ..signal_high.clone() };

    let size_high = compute_order_size(&config, stake(&config, &signal_high));
    let size_low = compute_order_size(&config, stake(&config, &signal_low));

    assert!(size_high > size_low);
    assert_eq!(size_high, 500);
    assert_eq!(size_low, 150);
    assert_eq!(compute_order_size(&config, 1_000_000), 2500);
    assert_eq!(compute_order_size(&config, -3), 1);
}

#[test]
fn test_managed_order_signal_id_and_latency() {
    let mut order = order("tb-test-1", "TICKER", "crypto", "yes", 100, 0.65, 0.50);

    assert!(order.signal_id.is_none());
    assert!(order.latency_ms.is_none());

    order.signal_id = Some(42);
    order.latency_ms = Some(15);
    assert_eq!(order.signal_id, Some(42));
    assert_eq!(order.latency_ms, Some(15));
}

#[test]
fn test_market_closed_no_retry() {
    let err = KalshiError::MarketClosed;
    assert!(matches!(err, KalshiError::MarketClosed));
}

#[test]
fn test_risk_checks_with_kill_switch() {
    let mgr = OrderManager::new(TODAY);
    let config = small_config();
    let signal = make_test_signal("KORD-T-95");
    let mut ks = KillSwitchState::new(false, false, false);
    let mut fh = FeedHealth::new();
    fh.record_update("kalshi_ws", NOW);
    let s = stake(&config, &signal);

    assert!(mgr.check_risk(&config, &signal, s, &ks, &fh, NOW, TODAY).is_ok());

    ks.kill_weather = true;
    assert!(mgr.check_risk(&config, &signal, s, &ks, &fh, NOW, TODAY).is_err());
}

#[test]
fn test_cooldown_bypass_with_lock_detection() {
    let mut mgr = OrderManager::new(TODAY);
    let config = small_config();
    let ks = KillSwitchState::new(false, false, false);
    let mut fh = FeedHealth::new();
    fh.record_update("kalshi_ws", NOW);

    let mut signal = make_test_signal("KORD-T-95");
    mgr.record_signal_cooldown("KORD-T-95", NOW);
    let s = stake(&config, &signal);

    assert!(mgr.check_risk(&config, &signal, s, &ks, &fh, NOW, TODAY).is_err());

    signal.priority = SignalPriority::LockDetection;
    assert!(mgr.check_risk(&config, &signal, s, &ks, &fh, NOW, TODAY).is_ok());
}

#[test]
fn entries_are_refused_for_the_first_reason() {
    let config = make_test_config();
    let mut signal = crypto_signal();
    let mut ks = KillSwitchState::new(true, false, false);
    let mut mgr = OrderManager::new(TODAY);
    let none = FeedHealth::new();
    let fh = fresh_feeds();
    let ask = |m: &OrderManager, c: &Config, s: &Signal, k: &KillSwitchState, f: &FeedHealth, st: i64| {
        m.check_risk(c, s, st, k, f, NOW, TODAY)
    };
    assert_eq!(ask(&mgr, &config, &signal, &ks, &none, 100), Err("blocked by kill switch".to_string()));
    ks.kill_all = false;
    let stale = ask(&mgr, &config, &signal, &ks, &none, 100).unwrap_err();
    assert!(stale.starts_with("stale feeds: [") && stale.contains("coinbase"), "{}", stale);
    mgr.record_signal_cooldown("TICKER-A", NOW);
    assert_eq!(ask(&mgr, &config, &signal, &ks, &fh, 100), Err("signal cooldown (30s remaining)".to_string()));
    signal.priority = SignalPriority::NewData;
    signal.edge = float(0.12);
    assert!(ask(&mgr, &config, &signal, &ks, &fh, 100).is_err());
    signal.edge = float(0.121);
    assert!(ask(&mgr, &config, &signal, &ks, &fh, 100).is_ok());

    let mut held = make_test_config();
    held.max_exposure_cents = 50;
    assert_eq!(ask(&mgr, &held, &signal, &ks, &fh, 100), Err("would exceed max exposure".to_string()));
    held.max_positions = 0;
    assert_eq!(ask(&mgr, &held, &signal, &ks, &fh, 100), Err("max positions reached (0/0)".to_string()));
    held.max_positions = 1;
    held.max_daily_loss_cents = 0;
    assert_eq!(ask(&mgr, &held, &signal, &ks, &fh, 100), Err("daily loss limit reached (0 >= 0)".to_string()));
    for _ in 0..2 {
        mgr.record_order_submission("TICKER-A", NOW);
    }
    assert_eq!(ask(&mgr, &config, &signal, &ks, &fh, 100), Err("per-ticker rate limit (2/5min)".to_string()));
    for _ in 0..8 {
        mgr.record_order_submission("TICKER-B", NOW);
    }
    assert_eq!(ask(&mgr, &config, &signal, &ks, &fh, 100), Err("global rate limit (10/min)".to_string()));
}

#[test]
fn paper_positions_open_and_close() {
    let config = make_test_config();
    let signal = crypto_signal();
    let state = CryptoStateInner::default();
    let ks = KillSwitchState::new(false, false, false);
    let fh = fresh_feeds();
    let mut mgr = OrderManager::new(TODAY);
    let mut other = OrderManager::new(TODAY);
    match other.route_signal(&config, &signal, 100, 65, &ks, &fh, &state, NOW, TODAY) {
        SignalRoute::Enter(sub) => {
            assert!(sub.request.is_none());
            assert_eq!(sub.order.state, OrderState::Submitting);
            assert_eq!(sub.order.requested_qty, 100);
        },
        _ => panic!("refused"),
    }
    assert!(other.is_in_cooldown(&signal, Some(&config), NOW));

    let sub = mgr.submit_entry(&config, &signal, 100, 65, Some(9), &state, NOW);
    assert!(sub.lawful && sub.request.is_none());
    assert_eq!(sub.order.state, OrderState::Filled);
    assert_eq!(sub.order.signal_id, Some(9));
    assert!(mgr.has_position("TICKER-A"));
    mgr.keep(sub.order);
    assert_eq!(mgr.position_count(), 1);
    assert_eq!(mgr.held_direction("TICKER-A"), Some("yes"));
    assert_eq!(positions_shown(&mgr).len(), 1);
    assert!(matches!(
        mgr.route_signal(&config, &signal, 100, 65, &ks, &fh, &state, NOW + 31 * SEC, TODAY),
        SignalRoute::Refuse(_)
    ));

    let basis = mgr.exit_basis("TICKER-A").unwrap();
    assert_eq!(basis.size, 100);
    assert_eq!(basis.entry_price, Some(FillPrice::Quote(float(0.50))));

    let leave = Signal { action: "exit".to_string(), market_price: float(0.60), ..crypto_signal() };
    assert!(matches!(mgr.route_signal(&config, &leave, 100, 65, &ks, &fh, &state, NOW, TODAY), SignalRoute::Exit));
    let exit = mgr.submit_exit(&config, &leave, 65, None, &state, 1000, NOW, TODAY).unwrap();
    assert!(exit.lawful);
    assert!(!mgr.has_position("TICKER-A"));
    assert_eq!(mgr.daily_pnl_cents(), 1000);
    assert_eq!(mgr.daily_loss_cents(TODAY), 0);
    assert!(mgr.submit_exit(&config, &leave, 65, None, &state, 1000, NOW, TODAY).is_none());
    assert!(matches!(mgr.route_signal(&config, &leave, 100, 65, &ks, &fh, &state, NOW, TODAY), SignalRoute::Ignore));
}

#[test]
fn replies_decide_the_fate_of_an_order() {
    let mut config = make_test_config();
    config.paper_mode = false;
    let signal = crypto_signal();
    let state = CryptoStateInner::default();
    let mut mgr = OrderManager::new(TODAY);

    let sub = mgr.submit_entry(&config, &signal, 10, 65, None, &state, NOW);
    let request = sub.request.unwrap();
    assert_eq!(request.action, "buy");
    assert_eq!(request.order_type, "market");
    assert_eq!(request.count, 10);
    assert_eq!(request.client_order_id.as_deref(), Some(sub.order.client_order_id.as_str()));
    let reply = Ok(placed("K1", 10, 6, Some(51)));
    match mgr.entry_answered(sub.order, &signal, reply, 12, NOW) {
        Answered::Store { order, lawful } => {
            assert!(!lawful);
            assert_eq!(order.state, OrderState::PartialFill);
            assert_eq!(order.filled_qty, 4);
            assert_eq!(order.entry_price, Some(FillPrice::Cents(51)));
            assert_eq!(order.latency_ms, Some(12));
            let id = order.client_order_id.clone();
            mgr.keep(order);
            assert_eq!(mgr.in_flight(Some("crypto")), vec![id.clone()]);
            assert!(mgr.in_flight(Some("weather")).is_empty());
            assert!(matches!(mgr.cancel_order(&id, NOW), Cancellation::Ask(k) if k == "K1"));
            mgr.cancel_answered(&id, true, NOW);
            assert!(mgr.has_position("TICKER-A"));
            assert!(matches!(mgr.cancel_order(&id, NOW), Cancellation::NotCancellable(OrderState::Cancelled)));
        },
        Answered::Failed { error } => panic!("{:?}", error),
    }
    assert!(matches!(mgr.cancel_order("nobody", NOW), Cancellation::NoOrder));

    let sub = mgr.submit_entry(&config, &make_test_signal("W"), 10, 65, None, &state, NOW);
    match mgr.entry_answered(sub.order, &make_test_signal("W"), Err(KalshiError::MarketClosed), 1, NOW) {
        Answered::Store { order, lawful } => {
            assert!(lawful);
            assert_eq!(order.state, OrderState::Rejected);
        },
        Answered::Failed { .. } => panic!("kept"),
    }
    let sub = mgr.submit_entry(&config, &make_test_signal("W"), 10, 65, None, &state, NOW);
    let id = sub.order.client_order_id.clone();
    match mgr.entry_answered(sub.order, &make_test_signal("W"), Err(KalshiError::ServerError(502)), 1, NOW) {
        Answered::Failed { error } => assert!(matches!(error, KalshiError::ServerError(502))),
        Answered::Store { .. } => panic!("stored"),
    }
    assert!(mgr.all_orders().iter().any(|o| o.client_order_id == id && o.state == OrderState::Unknown));
    assert!(matches!(mgr.cancel_order(&id, NOW), Cancellation::NotPlaced));
}

#[test]
fn halted_trading_calls_orders_back() {
    let mut mgr = OrderManager::new(TODAY);
    for (id, kind) in [("a", "crypto"), ("b", "weather")] {
        let mut o = order(id, id, kind, "yes", 5, 0.6, 0.5);
        o.transition(OrderState::Submitting, NOW);
        o.transition(OrderState::Acknowledged, NOW);
        o.kalshi_order_id = Some(format!("k{}", id));
        mgr.keep(o);
    }
    assert!(mgr.halted_orders(&KillSwitchState::new(false, false, false)).is_empty());
    assert_eq!(mgr.halted_orders(&KillSwitchState::new(false, true, false)), vec!["a".to_string()]);
    let mut all = mgr.halted_orders(&KillSwitchState::new(true, false, false));
    all.sort();
    assert_eq!(all, vec!["a".to_string(), "b".to_string()]);
}

#[test]
fn prepared_entries_hold_what_is_filled() {
    let mut config = make_test_config();
    config.paper_mode = false;
    let signal = crypto_signal();
    let state = CryptoStateInner::default();
    let mut mgr = OrderManager::new(TODAY);
    let sub = mgr.prepare_entry(&config, &signal, 10, 65, &state, NOW);
    let (order, answer) = mgr.prepared_answered(sub.order, Err(KalshiError::MarketClosed), 3, NOW);
    assert!(matches!(answer, Placed::Refused(KalshiError::MarketClosed)));
    assert_eq!(order.state, OrderState::Rejected);
    assert!(!mgr.has_position("TICKER-A"));
    let sub = mgr.prepare_entry(&config, &signal, 10, 65, &state, NOW);
    let (order, answer) = mgr.prepared_answered(sub.order, Err(KalshiError::AuthFailure), 3, NOW);
    assert!(matches!(answer, Placed::Lost(KalshiError::AuthFailure)));
    assert_eq!(order.state, OrderState::Unknown);
    let sub = mgr.prepare_entry(&config, &signal, 10, 65, &state, NOW);
    let (order, answer) = mgr.prepared_answered(sub.order, Ok(placed("K2", 10, 0, Some(48))), 3, NOW);
    assert!(matches!(answer, Placed::Taken { lawful: true }));
    assert_eq!(order.state, OrderState::Filled);
    assert!(mgr.has_position("TICKER-A"));
    let mut paper = OrderManager::new(TODAY);
    paper.hold(order);
    assert!(paper.has_position("TICKER-A"));
    assert_eq!(paper.all_positions(), vec![("TICKER-A", "yes")]);
}

#[test]
fn startup_takes_positions_over() {
    let mut mgr = OrderManager::new(TODAY);
    mgr.reconcile_on_startup(&vec![position("X", Some(7)), position("Y", Some(0)), position("Z", Some(-4))], NOW);
    assert!(mgr.has_position("X"));
    assert!(!mgr.has_position("Y"));
    assert!(mgr.has_position("Z"));
    assert_eq!(mgr.held_direction("X"), Some("yes"));
    assert_eq!(mgr.held_direction("Z"), Some("yes"));

    let entries = mgr.reconcile_positions(&vec![position("X", Some(7)), position("N", Some(3))]);
    let tickers: Vec<&str> = entries.iter().map(|e| e.ticker.as_str()).collect();
    assert!(tickers.contains(&"N") && tickers.contains(&"Z"), "{:?}", entries);
    assert!(mgr.has_position("X"));
    assert!(!mgr.has_position("Z"));
    let added = entries.iter().find(|e| e.ticker == "N").unwrap();
    assert_eq!(added.action_taken, "added_to_tracker");
    assert_eq!(added.exchange_qty, Some(3));
    assert_eq!(entries.len(), 2);
    assert!(!mgr.has_position("N"));
    assert!(mgr.exit_basis("N").is_none());
    assert_eq!(mgr.position_count(), 1);
    let again = mgr.reconcile_positions(&vec![position("X", Some(7)), position("N", Some(3))]);
    assert_eq!(again.len(), 1);
    assert_eq!(again[0].discrepancy, "missing_local");
    let least = mgr.reconcile_positions(&vec![position("X", Some(i64::MIN))]);
    assert!(least.is_empty());
}

#[test]
fn paper_fills_are_quoted_by_side() {
    let mut signal = crypto_signal();
    assert_eq!(paper_fill_price(&signal, float(0.4)), float(0.5));
    signal.direction = "no".to_string();
    assert_eq!(paper_fill_price(&signal, float(0.4)), float(0.4));
}

#[test]
fn the_dashboard_shows_what_there_is() {
    let mgr = OrderManager::new(TODAY);
    let state = CryptoStateInner::default();
    let ks = KillSwitchState::new(false, true, false);
    let contracts =
        vec![CryptoContract { ticker: "KXBTC-1".to_string(), strike: float(95000.0), settlement_time: Moment { secs: 1_060, nanos: 0 } }];
    let wall = Moment { secs: 1_000, nanos: 400_000_000 };
    let shown = api_state(&state, &fresh_feeds(), &ks, &mgr, &make_test_config(), &contracts, NOW, wall, TODAY);
    assert!(shown.paper_mode);
    assert!(shown.kill_switches.kill_crypto);
    assert_eq!(shown.contracts[0].seconds_remaining, 59);
    assert_eq!(shown.risk.max_positions, 5);
    assert_eq!(shown.risk.position_count, 0);
    assert!(!shown.feeds.coinbase.connected);
}

#[test]
fn outcomes_must_fit_the_balance() {
    let config = make_test_config();
    let mut mgr = OrderManager::new(TODAY);
    assert!(mgr.can_number());
    assert!(mgr.can_close("T", i64::MIN, TODAY));
    let signal = make_test_signal("T");
    let entered = mgr.submit_entry(&config, &signal, 100, 60, None, &CryptoStateInner::default(), NOW);
    assert!(entered.lawful);
    assert!(mgr.can_close("T", i64::MIN, TODAY));
    mgr.keep(entered.order);
    assert!(mgr.can_close("T", i64::MAX, TODAY));
    assert!(mgr.can_close("T", i64::MIN + 1, TODAY));
    assert!(!mgr.can_close("T", i64::MIN, TODAY));
    let exit = order("tb-out-1", "T", "crypto", "yes", 10, 0.6, 0.5);
    assert!(!mgr.can_answer_exit(&exit, &signal, &Ok(placed("K", 10, 0, None)), i64::MIN, TODAY));
    assert!(mgr.can_answer_exit(&exit, &signal, &Ok(placed("K", 10, 0, None)), 5, TODAY));
    assert!(mgr.can_answer_exit(&exit, &signal, &Ok(placed("K", 10, 1, None)), i64::MIN, TODAY));
    assert!(mgr.can_answer_exit(&exit, &signal, &Err(KalshiError::MarketClosed), i64::MIN, TODAY));
}

#[test]
fn positions_whose_orders_were_not_stored_are_left_one_by_one() {
    let mut config = make_test_config();
    let state = CryptoStateInner::default();
    let mut mgr = OrderManager::new(TODAY);
    let mut signal = make_test_signal("T");
    signal.direction = "no".to_string();
    let sub = mgr.submit_entry(&config, &signal, 10, 60, None, &state, NOW);
    assert_eq!(sub.order.filled_qty, 10);
    assert!(mgr.has_position("T"));
    assert!(mgr.all_orders().is_empty());
    assert_eq!(mgr.held_direction("T"), None);
    assert_eq!(mgr.all_positions(), vec![("T", "yes")]);
    let basis = mgr.exit_basis("T").unwrap();
    assert_eq!((basis.size, basis.entry_price), (1, None));
    mgr.keep(sub.order);
    assert_eq!(mgr.all_positions(), vec![("T", "no")]);
    assert_eq!(mgr.exit_basis("T").unwrap().size, 10);

    config.paper_mode = false;
    let sub = mgr.submit_entry(&config, &make_test_signal("U"), 10, 60, None, &state, NOW);
    match mgr.entry_answered(sub.order, &make_test_signal("U"), Ok(placed("K", 10, 0, Some(40))), 3, NOW) {
        Answered::Store { order, .. } => assert_eq!(order.state, OrderState::Filled),
        Answered::Failed { error } => panic!("{:?}", error),
    }
    assert!(mgr.has_position("U"));
    let out = mgr.submit_exit(&config, &make_test_signal("U"), 60, None, &state, 7, NOW, TODAY).unwrap();
    assert_eq!(out.request.unwrap().count, 1);
    match mgr.exit_answered(out.order, &make_test_signal("U"), Ok(placed("L", 1, 0, None)), 7, NOW, TODAY) {
        Answered::Store { order, .. } => assert_eq!(order.state, OrderState::Filled),
        Answered::Failed { error } => panic!("{:?}", error),
    }
    assert!(!mgr.has_position("U"));
    assert_eq!(mgr.daily_pnl_cents(), 0);
}

#[test]
fn prepared_entries_are_filled_on_paper() {
    let config = make_test_config();
    let state = CryptoStateInner::default();
    let mut mgr = OrderManager::new(TODAY);
    let mut signal = crypto_signal();
    signal.direction = "no".to_string();
    let sub = mgr.prepare_entry(&config, &signal, 10, 65, &state, NOW);
    assert!(sub.request.is_none());
    assert!(!mgr.has_position("TICKER-A"));
    let filled = mgr.prepared_filled(sub.order, &signal, float(0.4), NOW);
    assert_eq!((filled.filled_qty, filled.state), (10, OrderState::Filled));
    assert_eq!(filled.entry_price, Some(FillPrice::Quote(float(0.4))));
    assert_eq!(mgr.all_positions(), vec![("TICKER-A", "no")]);
    assert_eq!(mgr.all_orders().len(), 1);
}

#[test]
fn an_exit_without_a_position_changes_nothing() {
    let mut config = make_test_config();
    config.paper_mode = false;
    let mut mgr = OrderManager::new(TODAY);
    let none =
        mgr.submit_exit(&config, &make_test_signal("T"), 60, None, &CryptoStateInner::default(), 0, NOW, TODAY);
    assert!(none.is_none());
    assert_eq!(mgr.position_count(), 0);
    assert!(mgr.all_orders().is_empty());
}

#[test]
fn ids_are_never_given_out_twice() {
    let config = make_test_config();
    let state = CryptoStateInner::default();
    let mut mgr = OrderManager::new(TODAY);
    mgr.reconcile_on_startup(&vec![position("A", Some(3))], NOW);
    for i in 0..4u64 {
        let before: Vec<String> = mgr.all_orders().iter().map(|o| o.client_order_id.clone()).collect();
        let sub = mgr.submit_entry(&config, &make_test_signal("T"), 10, 60, None, &state, NOW + i * 4_000 * SEC);
        let id = sub.order.client_order_id.clone();
        assert!(id.starts_with("tb-"));
        assert!(!before.contains(&id));
        mgr.keep(sub.order);
        mgr.gc_old_orders(NOW + (i + 1) * 4_000 * SEC);
    }
}

#[test]
fn ids_have_twelve_digits() {
    assert_eq!(client_order_id(0xfedc_ba98_7654_3210, 7), "tb-ba9876543210-7");
    assert_eq!(client_order_id(0x2a, u64::MAX), "tb-00000000002a-18446744073709551615");
    let mut mgr = OrderManager::new(TODAY);
    for percent in 0..50 {
        let id = mgr.generate_client_order_id(&make_test_signal("T"), percent);
        let parts: Vec<&str> = id.split('-').collect();
        assert_eq!(parts.len(), 3);
        assert_eq!(parts[1].len(), 12);
        assert!(parts[1].chars().all(|c| c.is_ascii_hexdigit()));
        assert_eq!(parts[2], (percent + 1).to_string());
    }
}

#[test]
fn held_positions_outlive_the_cleaning() {
    let config = make_test_config();
    let state = CryptoStateInner::default();
    let mut mgr = OrderManager::new(TODAY);
    let sub = mgr.submit_entry(&config, &make_test_signal("T"), 10, 60, None, &state, NOW);
    let direction = sub.order.direction.clone();
    mgr.keep(sub.order);
    mgr.gc_old_orders(NOW + 7_200 * SEC);
    assert!(mgr.has_position("T"));
    assert_eq!(mgr.all_positions(), vec![("T", direction.as_str())]);
    assert_eq!(mgr.all_positions().len(), mgr.position_count());
    assert_eq!(mgr.exit_basis("T").unwrap().size, 10);
    mgr.submit_exit(&config, &make_test_signal("T"), 60, None, &state, 5, NOW + 7_200 * SEC, TODAY);
    mgr.gc_old_orders(NOW + 7_200 * SEC);
    assert!(mgr.all_orders().is_empty());
}
