use tradebot::crypto_asset::CryptoAsset;
use tradebot::crypto_state::{venue_weight, Computed, CryptoStateInner, IndexSource, RtiConfig};
use tradebot::crypto_state_registry::CryptoStateRegistry;
use tradebot::float::Float;

const SEC: u64 = 1_000_000_000;
const NOW: u64 = 1_000 * SEC;

fn float(x: f64) -> Float {
    Float::from_bits(x.to_bits())
}

fn num(x: Float) -> f64 {
    f64::from_bits(x.bits)
}

fn recompute(s: &mut CryptoStateInner, now: u64) {
    let (cb, bn) = (num(s.coinbase_spot), num(s.binance_spot));
    let median = (cb + bn) / 2.0;
    let outlier = float(num(s.rti_config.outlier_threshold_pct) / 100.0);
    let weigh = |price: f64, volume: f64| {
        num(venue_weight(float(volume.sqrt()), float((price - median).abs() / median), outlier))
    };
    let (wc, wb) = (weigh(cb, num(s.coinbase_trade_volume_5m)), weigh(bn, num(s.binance_trade_volume_5m)));
    let blend = if wc + wb > 0.0 { Some(float((cb * wc + bn * wb) / (wc + wb))) } else { None };
    let rti = match s.index_source(now) {
        IndexSource::Blend => blend.unwrap_or(s.shadow_rti),
        IndexSource::Take(x) => x,
        IndexSource::Keep => s.shadow_rti,
    };
    let computed = Computed {
        blend,
        difference: float(num(s.perp_price) - num(rti)),
        dvol_fraction: float(num(s.dvol) / 100.0),
    };
    s.recompute_derived(now, computed);
}

fn coinbase(s: &mut CryptoStateInner, spot: f64, bid: f64, ask: f64, volume: f64) {
    s.update_coinbase(float(spot), float(bid), float(ask), float(volume), NOW);
    recompute(s, NOW);
}

fn binance(s: &mut CryptoStateInner, spot: f64, rv: Option<f64>, ewma: Option<f64>, bars: usize, volume: f64) {
    s.update_binance_spot(float(spot), rv.map(float), ewma.map(float), bars, float(volume), NOW);
    recompute(s, NOW);
}

fn futures(s: &mut CryptoStateInner, perp: f64, mark: f64, rate: f64, obi: f64) {
    s.update_binance_futures(float(perp), float(mark), float(rate), float(obi), NOW);
    recompute(s, NOW);
}

fn deribit(s: &mut CryptoStateInner, dvol: f64) {
    s.update_deribit(float(dvol), NOW);
    recompute(s, NOW);
}

#[test]
fn test_shadow_rti_both_venues_volume_weighted() {
    let mut cs = CryptoStateInner::default();
    coinbase(&mut cs, 95000.0, 94990.0, 95010.0, 10.0);
    binance(&mut cs, 95100.0, None, None, 0, 10.0);
    assert!((num(cs.shadow_rti) - 95050.0).abs() < 1.0);
    assert!(cs.rti_reliable);
}

#[test]
fn test_shadow_rti_volume_proportional() {
    let mut cs = CryptoStateInner::default();
    coinbase(&mut cs, 95000.0, 94990.0, 95010.0, 100.0);
    binance(&mut cs, 95100.0, None, None, 0, 6.25);
    assert!((num(cs.shadow_rti) - 95020.0).abs() < 1.0);
}

#[test]
fn test_shadow_rti_coinbase_only() {
    let mut cs = CryptoStateInner::default();
    coinbase(&mut cs, 95000.0, 94990.0, 95010.0, 10.0);
    assert!((num(cs.shadow_rti) - 95000.0).abs() < 0.01);
    assert!(!cs.rti_reliable);
}

#[test]
fn test_shadow_rti_binance_only() {
    let mut cs = CryptoStateInner::default();
    binance(&mut cs, 95100.0, None, None, 0, 10.0);
    assert!((num(cs.shadow_rti) - 95100.0).abs() < 0.01);
    assert!(!cs.rti_reliable);
}

#[test]
fn test_shadow_rti_fallback_to_mark() {
    let mut cs = CryptoStateInner::default();
    futures(&mut cs, 95300.0, 95200.0, 0.0001, 0.5);
    assert!((num(cs.shadow_rti) - 95200.0).abs() < 0.01);
    assert!(!cs.rti_reliable);
}

#[test]
fn test_shadow_rti_stale_venue() {
    let mut cs = CryptoStateInner::default();
    coinbase(&mut cs, 95000.0, 94990.0, 95010.0, 10.0);
    binance(&mut cs, 95100.0, None, None, 0, 10.0);

    cs.coinbase_updated = Some(NOW - 10 * SEC);
    recompute(&mut cs, NOW);

    assert!((num(cs.shadow_rti) - 95100.0).abs() < 0.01);
    assert!(!cs.rti_reliable);
}

#[test]
fn test_shadow_rti_outlier_capped() {
    let mut cs = CryptoStateInner::default();
    coinbase(&mut cs, 95000.0, 94990.0, 95010.0, 100.0);
    binance(&mut cs, 96900.0, None, None, 0, 1.0);
    let rti = num(cs.shadow_rti);
    assert!(rti >= 95000.0 && rti <= 96900.0);
    assert!((rti - 95950.0).abs() < 50.0);
}

#[test]
fn test_shadow_rti_both_stale_fallback() {
    let mut cs = CryptoStateInner::default();
    coinbase(&mut cs, 95000.0, 94990.0, 95010.0, 10.0);
    binance(&mut cs, 95100.0, None, None, 0, 10.0);
    futures(&mut cs, 95300.0, 95200.0, 0.0, 0.5);

    cs.coinbase_updated = Some(NOW - 10 * SEC);
    cs.binance_spot_updated = Some(NOW - 10 * SEC);
    recompute(&mut cs, NOW);

    assert!((num(cs.shadow_rti) - 95200.0).abs() < 0.01);
    assert!(!cs.rti_reliable);
}

#[test]
fn test_basis_computation() {
    let mut cs = CryptoStateInner::default();
    coinbase(&mut cs, 95000.0, 0.0, 0.0, 10.0);
    futures(&mut cs, 95300.0, 95200.0, 0.0001, 0.5);
    assert!((num(cs.basis) - 300.0).abs() < 0.01);
}

#[test]
fn test_best_vol_dvol_preferred() {
    let mut cs = CryptoStateInner::default();
    binance(&mut cs, 95000.0, Some(0.65), Some(0.70), 30, 10.0);
    deribit(&mut cs, 52.3);
    assert!((num(cs.best_vol.unwrap()) - 0.523).abs() < 0.001);
}

#[test]
fn test_best_vol_ewma_fallback() {
    let mut cs = CryptoStateInner::default();
    binance(&mut cs, 95000.0, Some(0.65), Some(0.70), 30, 10.0);
    assert!((num(cs.best_vol.unwrap()) - 0.70).abs() < 0.001);
}

#[test]
fn test_best_vol_realized_fallback() {
    let mut cs = CryptoStateInner::default();
    binance(&mut cs, 95000.0, Some(0.65), None, 30, 10.0);
    assert!((num(cs.best_vol.unwrap()) - 0.65).abs() < 0.001);
}

#[test]
fn test_snapshot_is_consistent() {
    let mut cs = CryptoStateInner::default();
    coinbase(&mut cs, 95000.0, 94990.0, 95010.0, 10.0);
    binance(&mut cs, 95100.0, Some(0.65), Some(0.70), 30, 10.0);
    futures(&mut cs, 95300.0, 95200.0, 0.0001, 0.55);
    deribit(&mut cs, 52.3);

    assert!(num(cs.shadow_rti) > 0.0);
    assert!(num(cs.basis) != 0.0);
    assert!(cs.best_vol.is_some());
    assert!(cs.coinbase_updated.is_some());
    assert!(cs.binance_spot_updated.is_some());
    assert!(cs.futures_updated.is_some());
    assert!(cs.dvol_updated.is_some());
    assert!(cs.rti_reliable);
}

#[test]
fn test_multi_asset_creation() {
    let assets = vec![CryptoAsset::BTC, CryptoAsset::ETH];
    let registry = CryptoStateRegistry::new(&assets, RtiConfig::default());

    assert!(registry.get(CryptoAsset::BTC).is_some());
    assert!(registry.get(CryptoAsset::ETH).is_some());
    assert!(registry.get(CryptoAsset::SOL).is_none());
}

#[test]
fn test_per_asset_snapshot_isolation() {
    let assets = vec![CryptoAsset::BTC, CryptoAsset::ETH];
    let mut registry = CryptoStateRegistry::new(&assets, RtiConfig::default());

    let mut btc = registry.get(CryptoAsset::BTC).unwrap();
    coinbase(&mut btc, 95000.0, 0.0, 0.0, 10.0);
    registry.set(CryptoAsset::BTC, btc);

    let mut eth = registry.get(CryptoAsset::ETH).unwrap();
    coinbase(&mut eth, 3500.0, 0.0, 0.0, 5.0);
    registry.set(CryptoAsset::ETH, eth);

    let btc_snap = registry.get(CryptoAsset::BTC).unwrap();
    let eth_snap = registry.get(CryptoAsset::ETH).unwrap();
    assert!((num(btc_snap.coinbase_spot) - 95000.0).abs() < 0.01);
    assert!((num(eth_snap.coinbase_spot) - 3500.0).abs() < 0.01);
}

#[test]
fn test_merged_notify_fires() {
    let assets = vec![CryptoAsset::BTC, CryptoAsset::ETH];
    let mut registry = CryptoStateRegistry::new(&assets, RtiConfig::default());
    let initial = registry.version();

    let mut eth = registry.get(CryptoAsset::ETH).unwrap();
    coinbase(&mut eth, 3500.0, 0.0, 0.0, 5.0);
    registry.set(CryptoAsset::ETH, eth);

    let current = registry.version();
    assert!(current > initial);
}

#[test]
fn test_enabled_assets() {
    let assets = vec![CryptoAsset::BTC, CryptoAsset::SOL, CryptoAsset::DOGE];
    let registry = CryptoStateRegistry::new(&assets, RtiConfig::default());

    let enabled = registry.enabled_assets();
    assert_eq!(enabled.len(), 3);
    assert!(enabled.contains(&CryptoAsset::BTC));
    assert!(enabled.contains(&CryptoAsset::SOL));
    assert!(enabled.contains(&CryptoAsset::DOGE));
}

#[test]
fn weights_have_a_floor_and_outliers_a_cap() {
    let limit = float(0.005);
    assert_eq!(num(venue_weight(float(7.0), float(0.001), limit)), 7.0);
    assert_eq!(num(venue_weight(float(0.2), float(0.001), limit)), 1.0);
    assert_eq!(num(venue_weight(float(7.0), float(0.006), limit)), 0.1);
}

#[test]
fn unknown_venues_leave_the_estimate_alone() {
    let mut cs = CryptoStateInner::with_config(RtiConfig::default());
    recompute(&mut cs, NOW);
    assert_eq!(cs, CryptoStateInner::default());
    assert_eq!(cs.index_source(NOW), IndexSource::Keep);
}
