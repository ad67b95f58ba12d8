use tradebot::crypto_asset::CryptoAsset;
use tradebot::feed_health::FeedHealth;
use tradebot::float::Float;
use tradebot::health::readiness;

const SEC: u64 = 1_000_000_000;
const NOW: u64 = 1_000 * SEC;

fn score(f: Float) -> f64 {
    f64::from_bits(f.bits)
}

#[test]
fn test_healthy_when_recent() {
    let mut health = FeedHealth::new();
    health.record_update("binance_spot", NOW);
    assert!(health.is_healthy("binance_spot", NOW));
}

#[test]
fn test_stale_when_no_update() {
    let health = FeedHealth::new();
    assert!(!health.is_healthy("binance_spot", NOW));
}

#[test]
fn test_stale_after_threshold() {
    let mut health = FeedHealth::new();
    health.record_update("binance_spot", NOW);
    health.record_update("binance_spot", NOW - 15 * SEC);
    assert!(!health.is_healthy("binance_spot", NOW));
}

#[test]
fn test_unknown_feed_is_healthy() {
    let health = FeedHealth::new();
    assert!(health.is_healthy("unknown_feed", NOW));
}

#[test]
fn test_required_feeds_crypto() {
    let health = FeedHealth::new();
    let result = health.required_feeds_healthy("crypto", NOW);
    assert!(result.is_err());
    let stale = result.unwrap_err();
    assert!(stale.contains(&"binance_spot".to_string()));
    assert!(stale.contains(&"coinbase".to_string()));
}

#[test]
fn test_required_feeds_crypto_healthy_binance() {
    let mut health = FeedHealth::new();
    health.record_update("binance_spot", NOW);
    assert!(health.required_feeds_healthy("crypto", NOW).is_ok());
}

#[test]
fn test_required_feeds_crypto_healthy_coinbase() {
    let mut health = FeedHealth::new();
    health.record_update("coinbase", NOW);
    assert!(health.required_feeds_healthy("crypto", NOW).is_ok());
}

#[test]
fn test_required_feeds_weather() {
    let mut health = FeedHealth::new();
    assert!(health.required_feeds_healthy("weather", NOW).is_err());

    health.record_update("kalshi_ws", NOW);
    assert!(health.required_feeds_healthy("weather", NOW).is_ok());
}

#[test]
fn test_unknown_signal_type_always_ok() {
    let health = FeedHealth::new();
    assert!(health.required_feeds_healthy("unknown", NOW).is_ok());
}

#[test]
fn test_health_score_fresh() {
    let mut health = FeedHealth::new();
    health.record_update("binance_spot", NOW);
    assert_eq!(score(health.health_score("binance_spot", NOW)), 1.0);
}

#[test]
fn test_health_score_never_updated() {
    let health = FeedHealth::new();
    assert_eq!(score(health.health_score("binance_spot", NOW)), 0.0);
}

#[test]
fn test_health_score_stale() {
    let mut health = FeedHealth::new();
    health.record_update("binance_spot", NOW - 25 * SEC);
    assert_eq!(score(health.health_score("binance_spot", NOW)), 0.0);
}

#[test]
fn test_health_score_degraded() {
    let mut health = FeedHealth::new();
    health.record_update("binance_spot", NOW - 15 * SEC);
    assert_eq!(score(health.health_score("binance_spot", NOW)), 0.25);
}

#[test]
fn test_health_score_unknown_feed() {
    let health = FeedHealth::new();
    assert_eq!(score(health.health_score("unknown_feed", NOW)), 1.0);
}

#[test]
fn test_strategy_health() {
    let mut health = FeedHealth::new();
    assert_eq!(score(health.strategy_health("crypto", NOW)), 0.0);

    health.record_update("binance_spot", NOW);
    assert_eq!(score(health.strategy_health("crypto", NOW)), 1.0);
}

#[test]
fn test_system_health() {
    let mut health = FeedHealth::new();
    assert_eq!(score(health.system_health(NOW)), 0.0);

    health.record_update("binance_spot", NOW);
    health.record_update("kalshi_ws", NOW);
    assert_eq!(score(health.system_health(NOW)), 1.0);
}

#[test]
fn test_health_detail() {
    let mut health = FeedHealth::new();
    health.record_update("binance_spot", NOW);
    let detail = health.health_detail(NOW + 7_000_000);
    assert!(!detail.is_empty());

    let bs = detail.iter().find(|d| d.feed == "binance_spot").unwrap();
    assert!(bs.healthy);
    assert_eq!(score(bs.score), 1.0);
    assert!(bs.age_ms.is_some());
    assert_eq!(bs.age_ms, Some(7));

    let cb = detail.iter().find(|d| d.feed == "coinbase").unwrap();
    assert!(!cb.healthy);
    assert_eq!(score(cb.score), 0.0);
}

#[test]
fn test_stale_orderbook_blocks_execution() {
    let mut health = FeedHealth::new();
    let result = health.required_feeds_healthy("weather", NOW);
    assert!(result.is_err());
    let stale = result.unwrap_err();
    assert!(stale.contains(&"kalshi_ws".to_string()));

    health.record_update("kalshi_ws", NOW);
    assert!(health.required_feeds_healthy("weather", NOW).is_ok());
}

#[test]
fn test_feed_health_staleness_detection() {
    let mut health = FeedHealth::new();
    health.record_update("binance_spot", NOW);
    health.record_update("binance_spot", NOW - 10 * SEC);

    assert!(!health.is_healthy("binance_spot", NOW));
    assert!(health.required_feeds_healthy("crypto", NOW).is_err());
}

#[test]
fn readiness_needs_everything() {
    let mut health = FeedHealth::new();
    let result = readiness(true, true, true, &health, NOW);
    assert!(!result.feeds);
    assert!(result.db && result.redis && result.nats);
    health.record_update("kalshi_ws", NOW);
    health.record_update("binance_spot", NOW);
    assert!(readiness(true, true, true, &health, NOW).feeds);
    assert!(!readiness(false, true, true, &health, NOW).ready);
}

#[test]
fn scores_fall_in_steps() {
    let mut health = FeedHealth::new();
    health.record_update("binance_spot", NOW);
    let mut seen = Vec::new();
    for age in 0..25u64 {
        let s = score(health.health_score("binance_spot", NOW + age * SEC));
        if seen.last() != Some(&s) {
            seen.push(s);
        }
    }
    assert_eq!(seen, vec![1.0, 0.75, 0.25, 0.0]);
    assert_eq!(score(health.health_score("binance_spot", NOW + 10 * SEC - 1)), 0.75);
    assert_eq!(score(health.health_score("binance_spot", NOW + 10 * SEC)), 0.25);
    assert_eq!(score(health.health_score("binance_spot", NOW + 20 * SEC)), 0.0);
}

#[test]
fn each_asset_has_feeds_of_its_own() {
    let mut health = FeedHealth::new();
    health.record_update("coinbase", NOW);
    health.record_update("coinbase_btc", NOW);
    assert!(health.required_feeds_healthy_for_asset(CryptoAsset::BTC, NOW).is_ok());
    assert!(health.required_feeds_healthy_for_asset(CryptoAsset::BTC, NOW + 5 * SEC).is_err());
    assert_eq!(
        health.required_feeds_healthy_for_asset(CryptoAsset::ETH, NOW),
        Err(vec!["binance_spot_eth".to_string(), "coinbase_eth".to_string()])
    );
    health.record_update("binance_spot_eth", NOW);
    assert!(health.required_feeds_healthy_for_asset(CryptoAsset::ETH, NOW + 9 * SEC).is_ok());
    assert!(health.required_feeds_healthy_for_asset(CryptoAsset::ETH, NOW + 10 * SEC).is_err());
}
