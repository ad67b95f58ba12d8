use tradebot::config::{
    default_binance_futures_ws_url, default_binance_spot_ws_url, default_coinbase_ws_url,
    default_crypto_compress_factor, default_crypto_cooldown_secs, default_crypto_directional_min_conviction,
    default_crypto_entry_max_minutes, default_crypto_entry_min_minutes, default_crypto_kelly_fill_min,
    default_crypto_max_edge, default_crypto_max_market_disagreement, default_crypto_max_signals_per_hour,
    default_crypto_min_confidence, default_crypto_min_edge, default_crypto_min_kelly, default_crypto_prob_ceiling,
    default_crypto_risk_reward_max_ratio, default_crypto_vol_multiplier, default_db_pool_size,
    default_deribit_ws_url, default_rti_min_venues, default_rti_outlier_threshold_pct,
    default_rti_stale_threshold_secs, default_true, default_weather_cooldown_secs, Config,
};
use tradebot::crypto_asset::CryptoAsset;
use tradebot::float::{Float, Setting};

fn setting(x: f64) -> Setting {
    Setting { value: Float::from_bits(x.to_bits()), text: format!("{}", x) }
}

fn valid_config() -> Config {
    Config {
        database_url: "postgres://localhost/test".to_string(),
        redis_url: "redis://localhost:6379".to_string(),
        nats_url: "nats://localhost:4222".to_string(),
        kalshi_api_key: "test-key".to_string(),
        kalshi_private_key_path: "test.pem".to_string(),
        kalshi_base_url: "https://api.kalshi.com".to_string(),
        kalshi_ws_url: "wss://api.kalshi.com/ws".to_string(),
        binance_ws_url: default_binance_spot_ws_url(),
        mesonet_base_url: "https://mesonet.agron.iastate.edu".to_string(),
        coinbase_ws_url: default_coinbase_ws_url(),
        binance_futures_ws_url: default_binance_futures_ws_url(),
        deribit_ws_url: default_deribit_ws_url(),
        binance_spot_ws_url: default_binance_spot_ws_url(),
        enable_coinbase: false,
        enable_binance_futures: false,
        enable_binance_spot: false,
        enable_deribit: false,
        paper_mode: true,
        confirm_live_trading: String::new(),
        max_trade_size_cents: 2500,
        max_daily_loss_cents: 10000,
        max_positions: 5,
        max_exposure_cents: 15000,
        kelly_fraction_multiplier: setting(0.25),
        database_pool_size: default_db_pool_size(),
        log_level: "info".to_string(),
        log_format: "json".to_string(),
        discord_webhook_url: None,
        http_port: 3030,
        rti_stale_threshold_secs: default_rti_stale_threshold_secs(),
        rti_outlier_threshold_pct: default_rti_outlier_threshold_pct(),
        rti_min_venues: default_rti_min_venues(),
        kill_switch_all: false,
        kill_switch_crypto: false,
        kill_switch_weather: false,
        crypto_entry_min_minutes: default_crypto_entry_min_minutes(),
        crypto_entry_max_minutes: default_crypto_entry_max_minutes(),
        crypto_min_edge: default_crypto_min_edge(),
        crypto_min_kelly: default_crypto_min_kelly(),
        crypto_min_confidence: default_crypto_min_confidence(),
        crypto_max_edge: default_crypto_max_edge(),
        crypto_cooldown_secs: default_crypto_cooldown_secs(),
        weather_cooldown_secs: default_weather_cooldown_secs(),
        crypto_max_market_disagreement: default_crypto_max_market_disagreement(),
        crypto_directional_min_conviction: default_crypto_directional_min_conviction(),
        crypto_vol_multiplier: default_crypto_vol_multiplier(),
        crypto_prob_ceiling: default_crypto_prob_ceiling(),
        crypto_risk_reward_max_ratio: default_crypto_risk_reward_max_ratio(),
        crypto_kelly_fill_min: default_crypto_kelly_fill_min(),
        crypto_compress_factor: default_crypto_compress_factor(),
        crypto_max_signals_per_hour: default_crypto_max_signals_per_hour(),
        enable_crypto_btc: default_true(),
        enable_crypto_eth: false,
        enable_crypto_sol: false,
        enable_crypto_xrp: false,
        enable_crypto_doge: false,
    }
}

#[test]
fn valid_config_passes_validation() {
    assert!(valid_config().validate().is_ok());
}

#[test]
fn negative_trade_size_fails() {
    let mut c = valid_config();
    c.max_trade_size_cents = -1;
    let errs = c.validate().unwrap_err();
    assert!(errs.iter().any(|e| e.contains("MAX_TRADE_SIZE_CENTS")));
    assert_eq!(errs, vec!["MAX_TRADE_SIZE_CENTS must be > 0, got -1".to_string()]);
}

#[test]
fn zero_max_positions_fails() {
    let mut c = valid_config();
    c.max_positions = 0;
    let errs = c.validate().unwrap_err();
    assert!(errs.iter().any(|e| e.contains("MAX_POSITIONS")));
}

#[test]
fn kelly_out_of_range_fails() {
    let mut c = valid_config();
    c.kelly_fraction_multiplier = setting(1.5);
    let errs = c.validate().unwrap_err();
    assert!(errs.iter().any(|e| e.contains("KELLY_FRACTION_MULTIPLIER")));
    assert_eq!(errs[0], "KELLY_FRACTION_MULTIPLIER must be in (0.0, 1.0], got 1.5");
}

#[test]
fn vol_multiplier_bounds() {
    let mut c = valid_config();
    c.crypto_vol_multiplier = setting(0.0);
    assert!(c.validate().is_err());
    c.crypto_vol_multiplier = setting(15.0);
    assert!(c.validate().is_err());
    c.crypto_vol_multiplier = setting(2.5);
    assert!(c.validate().is_ok());
}

#[test]
fn min_edge_must_be_less_than_max_edge() {
    let mut c = valid_config();
    c.crypto_min_edge = setting(0.30);
    c.crypto_max_edge = setting(0.25);
    let errs = c.validate().unwrap_err();
    assert!(errs.iter().any(|e| e.contains("CRYPTO_MIN_EDGE") && e.contains("CRYPTO_MAX_EDGE")));
    assert_eq!(errs[0], "CRYPTO_MIN_EDGE (0.3) must be < CRYPTO_MAX_EDGE (0.25)");
}

#[test]
fn entry_time_window_cross_check() {
    let mut c = valid_config();
    c.crypto_entry_min_minutes = setting(25.0);
    c.crypto_entry_max_minutes = setting(20.0);
    let errs = c.validate().unwrap_err();
    assert!(errs.iter().any(|e| e.contains("ENTRY_MIN_MINUTES")));
}

#[test]
fn url_format_validation() {
    let mut c = valid_config();
    c.kalshi_base_url = "http://insecure.com".to_string();
    let errs = c.validate().unwrap_err();
    assert!(errs.iter().any(|e| e.contains("KALSHI_BASE_URL") && e.contains("https://")));
    assert_eq!(errs[0], "KALSHI_BASE_URL must start with https://, got 'http://insecure.com'");
}

#[test]
fn ws_url_must_be_wss() {
    let mut c = valid_config();
    c.kalshi_ws_url = "ws://insecure.com/ws".to_string();
    let errs = c.validate().unwrap_err();
    assert!(errs.iter().any(|e| e.contains("KALSHI_WS_URL") && e.contains("wss://")));
}

#[test]
fn prob_ceiling_bounds() {
    let mut c = valid_config();
    c.crypto_prob_ceiling = setting(0.3);
    assert!(c.validate().is_err());
    c.crypto_prob_ceiling = setting(1.1);
    assert!(c.validate().is_err());
    c.crypto_prob_ceiling = setting(0.80);
    assert!(c.validate().is_ok());
}

#[test]
fn multiple_errors_collected() {
    let mut c = valid_config();
    c.max_trade_size_cents = -1;
    c.max_daily_loss_cents = 0;
    c.max_positions = 0;
    let errs = c.validate().unwrap_err();
    assert!(errs.len() >= 3);
}

#[test]
fn live_mode_without_confirmation_fails() {
    let mut c = valid_config();
    c.paper_mode = false;
    c.confirm_live_trading = String::new();
    let errs = c.validate().unwrap_err();
    assert!(errs.iter().any(|e| e.contains("CONFIRM_LIVE_TRADING")));
}

#[test]
fn live_mode_with_wrong_confirmation_fails() {
    let mut c = valid_config();
    c.paper_mode = false;
    c.confirm_live_trading = "yes".to_string();
    let errs = c.validate().unwrap_err();
    assert!(errs.iter().any(|e| e.contains("CONFIRM_LIVE_TRADING")));
}

#[test]
fn live_mode_with_correct_confirmation_passes() {
    let mut c = valid_config();
    c.paper_mode = false;
    c.confirm_live_trading = "yes-i-understand-real-money".to_string();
    assert!(c.validate().is_ok());
}

#[test]
fn paper_mode_does_not_require_confirmation() {
    let c = valid_config();
    assert!(c.validate().is_ok());
}

#[test]
fn debug_redacts_secrets() {
    let c = valid_config();
    let debug = c.debug_text();
    assert!(debug.contains("[redacted]"));
    assert!(!debug.contains("test-key"));
    assert!(!debug.contains("test.pem"));
    assert!(!debug.contains("postgres://"));
    assert!(debug.contains("redis_url: \"redis://localhost:6379\""));
    assert!(debug.ends_with("database_pool_size: 20, http_port: 3030 }"));
}

#[test]
fn every_check_reports_in_order() {
    let mut c = valid_config();
    c.paper_mode = false;
    c.max_trade_size_cents = 0;
    c.max_daily_loss_cents = 0;
    c.max_exposure_cents = -7;
    c.max_positions = 0;
    c.kelly_fraction_multiplier = setting(0.0);
    c.crypto_vol_multiplier = setting(10.5);
    c.crypto_prob_ceiling = setting(0.49);
    c.crypto_compress_factor = setting(-0.1);
    c.crypto_risk_reward_max_ratio = setting(0.0);
    c.crypto_min_edge = setting(1.5);
    c.crypto_max_edge = setting(-0.5);
    c.crypto_min_kelly = setting(2.0);
    c.crypto_min_confidence = setting(-1.0);
    c.crypto_entry_min_minutes = setting(-1.0);
    c.crypto_entry_max_minutes = setting(-2.0);
    c.crypto_max_market_disagreement = setting(1.01);
    c.crypto_max_signals_per_hour = 0;
    c.rti_min_venues = 0;
    c.kalshi_base_url = String::new();
    c.kalshi_ws_url = "https://x".to_string();
    let errs = c.validate().unwrap_err();
    let expected = [
        "PAPER_MODE=false requires CONFIRM_LIVE_TRADING=yes-i-understand-real-money",
        "MAX_TRADE_SIZE_CENTS must be > 0, got 0",
        "MAX_DAILY_LOSS_CENTS must be > 0, got 0",
        "MAX_EXPOSURE_CENTS must be > 0, got -7",
        "MAX_POSITIONS must be > 0",
        "KELLY_FRACTION_MULTIPLIER must be in (0.0, 1.0], got 0",
        "CRYPTO_VOL_MULTIPLIER must be in [0.1, 10.0], got 10.5",
        "CRYPTO_PROB_CEILING must be in [0.5, 1.0], got 0.49",
        "CRYPTO_COMPRESS_FACTOR must be in [0.0, 1.0], got -0.1",
        "CRYPTO_RISK_REWARD_MAX_RATIO must be > 0, got 0",
        "CRYPTO_MIN_EDGE must be in [0.0, 1.0], got 1.5",
        "CRYPTO_MAX_EDGE must be in [0.0, 1.0], got -0.5",
        "CRYPTO_MIN_KELLY must be in [0.0, 1.0], got 2",
        "CRYPTO_MIN_CONFIDENCE must be in [0.0, 1.0], got -1",
        "CRYPTO_MIN_EDGE (1.5) must be < CRYPTO_MAX_EDGE (-0.5)",
        "CRYPTO_ENTRY_MIN_MINUTES (-1) must be < CRYPTO_ENTRY_MAX_MINUTES (-2)",
        "CRYPTO_ENTRY_MIN_MINUTES must be >= 0, got -1",
        "CRYPTO_MAX_MARKET_DISAGREEMENT must be in [0.0, 1.0], got 1.01",
        "CRYPTO_MAX_SIGNALS_PER_HOUR must be > 0",
        "RTI_MIN_VENUES must be > 0",
        "KALSHI_BASE_URL must start with https://, got ''",
        "KALSHI_WS_URL must start with wss://, got 'https://x'",
    ];
    assert_eq!(errs, expected);
}

#[test]
fn defaults_are_the_documented_numbers() {
    let floats = [
        (default_crypto_entry_min_minutes(), 0.17),
        (default_crypto_entry_max_minutes(), 20.0),
        (default_crypto_min_edge(), 0.08),
        (default_crypto_min_kelly(), 0.04),
        (default_crypto_min_confidence(), 0.40),
        (default_crypto_max_edge(), 0.25),
        (default_crypto_vol_multiplier(), 2.5),
        (default_crypto_prob_ceiling(), 0.80),
        (default_crypto_risk_reward_max_ratio(), 5.0),
        (default_crypto_kelly_fill_min(), 0.02),
        (default_crypto_max_market_disagreement(), 0.25),
        (default_crypto_directional_min_conviction(), 0.05),
        (default_crypto_compress_factor(), 0.20),
        (default_rti_outlier_threshold_pct(), 0.5),
    ];
    for (s, x) in floats {
        assert_eq!(s.value.bits, f64::to_bits(x));
        assert_eq!(s.text, format!("{}", x));
    }
    assert_eq!(default_db_pool_size(), 20);
    assert_eq!(default_crypto_cooldown_secs(), 300);
    assert_eq!(default_weather_cooldown_secs(), 120);
    assert_eq!(default_crypto_max_signals_per_hour(), 20);
    assert_eq!(default_rti_stale_threshold_secs(), 5);
    assert_eq!(default_rti_min_venues(), 2);
    assert!(default_true());
}

#[test]
fn enabled_assets_keep_their_order() {
    let mut c = valid_config();
    assert_eq!(c.enabled_crypto_assets(), vec![CryptoAsset::BTC]);
    c.enable_crypto_doge = true;
    c.enable_crypto_sol = true;
    c.enable_crypto_btc = false;
    assert_eq!(c.enabled_crypto_assets(), vec![CryptoAsset::SOL, CryptoAsset::DOGE]);
}

#[test]
fn not_a_number_is_outside_no_range() {
    let mut c = valid_config();
    c.kelly_fraction_multiplier = setting(f64::NAN);
    c.crypto_min_edge = setting(f64::NAN);
    assert!(c.validate().is_ok());
}
