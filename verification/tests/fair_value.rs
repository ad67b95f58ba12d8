use tradebot::crypto_asset::CryptoAsset;
use tradebot::crypto_fv::determine_direction;
use tradebot::crypto_fv::{
    averaging_case, certain_outcome, estimate_volatility, has_volatility, is_priced, is_tail, is_wide, kelly_input,
    settlement_regime, support, AssetConfig, AveragingCase, SettlementRegime,
};
use tradebot::crypto_state::CryptoStateInner;
use tradebot::float::Float;

fn float(x: f64) -> Float {
    Float::from_bits(x.to_bits())
}

fn num(x: Float) -> f64 {
    f64::from_bits(x.bits)
}

fn kelly_within(prob: f64, price: f64, direction: &str, min: f64, max: f64) -> f64 {
    let input = kelly_input(
        float(prob),
        float(1.0 - prob),
        float(price),
        float(1.0 - price),
        direction,
        float(min),
        float(max),
    );
    match input {
        None => 0.0,
        Some(k) => {
            let (w, l) = (num(k.win_payout), num(k.lose_payout));
            ((num(k.win_prob) * w - num(k.lose_prob) * l) / w).max(0.0)
        },
    }
}

fn kelly(prob: f64, price: f64, direction: &str) -> f64 {
    kelly_within(prob, price, direction, 0.02, 0.98)
}

#[test]
fn test_determine_direction() {
    let (dir, (more, less)) = determine_direction(float(0.7), float(0.5));
    let edge = num(more) - num(less);
    assert_eq!(dir, "yes");
    assert!((edge - 0.2).abs() < 1e-6);

    let (dir, (more, less)) = determine_direction(float(0.3), float(0.5));
    let edge = num(more) - num(less);
    assert_eq!(dir, "no");
    assert!((edge - 0.2).abs() < 1e-6);
    assert_eq!(determine_direction(float(0.5), float(0.5)).0, "no");
}

#[test]
fn test_kelly_yes_direction() {
    let k = kelly(0.7, 0.55, "yes");
    assert!((k - 0.333).abs() < 0.01);
}

#[test]
fn test_kelly_no_edge() {
    let k = kelly(0.5, 0.5, "yes");
    assert!(k.abs() < 1e-6, "No edge = zero Kelly");
}

#[test]
fn test_kelly_extreme_fill_price_rejected() {
    assert_eq!(kelly(0.60, 0.99, "yes"), 0.0);
    assert_eq!(kelly(0.40, 0.01, "no"), 0.0);
    assert!(kelly(0.60, 0.98, "yes") >= 0.0);
    assert!(kelly(0.40, 0.02, "no") >= 0.0);
    assert!(kelly(0.60, 0.50, "yes") > 0.0);
}

#[test]
fn test_kelly_with_custom_bounds() {
    assert_eq!(kelly_within(0.60, 0.96, "yes", 0.05, 0.95), 0.0);
    assert_eq!(kelly_within(0.40, 0.04, "no", 0.05, 0.95), 0.0);
    assert!(kelly_within(0.70, 0.50, "yes", 0.05, 0.95) > 0.0);
}

#[test]
fn test_risk_reward_ratio() {
    let k = kelly(0.60, 0.95, "yes");
    assert_eq!(k, 0.0);
    let k = kelly(0.80, 0.80, "yes");
    assert!(k.abs() < 1e-6);
}

#[test]
fn test_asset_config_per_asset_values() {
    let btc = AssetConfig::for_asset(CryptoAsset::BTC);
    let eth = AssetConfig::for_asset(CryptoAsset::ETH);
    let sol = AssetConfig::for_asset(CryptoAsset::SOL);

    assert!(num(btc.default_vol) < num(eth.default_vol));
    assert!(num(eth.default_vol) < num(sol.default_vol));

    assert!(num(btc.binary_vol_multiplier) < num(eth.binary_vol_multiplier));
    assert!(num(eth.binary_vol_multiplier) <= num(sol.binary_vol_multiplier));

    let doge = AssetConfig::for_asset(CryptoAsset::DOGE);
    assert!(num(doge.excess_kurtosis) > num(btc.excess_kurtosis));
}

#[test]
fn test_asset_config_with_overrides() {
    let btc_default = AssetConfig::for_asset(CryptoAsset::BTC);
    assert!((num(btc_default.binary_vol_multiplier) - 2.0).abs() < 1e-6);
    assert!((num(btc_default.prob_ceiling) - 0.95).abs() < 1e-6);

    let overridden = |asset: CryptoAsset, vol: f64, ceiling: f64| {
        let base = num(AssetConfig::for_asset(asset).binary_vol_multiplier);
        AssetConfig::for_asset_with_overrides(asset, float(base * (vol / 2.0)), float(ceiling))
    };
    let btc_overridden = overridden(CryptoAsset::BTC, 2.5, 0.90);
    assert!((num(btc_overridden.binary_vol_multiplier) - 2.5).abs() < 1e-6);
    assert!((num(btc_overridden.prob_ceiling) - 0.90).abs() < 1e-6);

    let eth_overridden = overridden(CryptoAsset::ETH, 2.5, 0.92);
    assert!((num(eth_overridden.binary_vol_multiplier) - 3.5).abs() < 1e-6);
    assert!((num(eth_overridden.prob_ceiling) - 0.92).abs() < 1e-6);
    assert_eq!(num(eth_overridden.default_vol), 0.60);
    assert_eq!(num(eth_overridden.prob_floor), 0.03);
}

#[test]
fn tunings_are_the_published_numbers() {
    let rows = [
        (CryptoAsset::BTC, 0.50, 2.0, 7.0),
        (CryptoAsset::ETH, 0.60, 2.8, 8.0),
        (CryptoAsset::SOL, 0.90, 3.0, 10.0),
        (CryptoAsset::XRP, 0.80, 3.0, 9.0),
        (CryptoAsset::DOGE, 1.00, 3.2, 12.0),
    ];
    for (asset, vol, mult, kurtosis) in rows {
        let c = AssetConfig::for_asset(asset);
        assert_eq!(num(c.default_vol), vol);
        assert_eq!(num(c.binary_vol_multiplier), mult);
        assert_eq!(num(c.excess_kurtosis), kurtosis);
        assert_eq!(num(c.prob_ceiling), 0.95);
    }
}

#[test]
fn regimes_change_at_fixed_distances() {
    assert_eq!(settlement_regime(float(0.0)), SettlementRegime::Expired);
    assert_eq!(settlement_regime(float(30.0)), SettlementRegime::Averaging);
    assert_eq!(settlement_regime(float(120.0)), SettlementRegime::Transition);
    assert_eq!(settlement_regime(float(600.0)), SettlementRegime::Far);
}

#[test]
fn outcomes_without_doubt() {
    assert!(num(certain_outcome(float(101.0), float(100.0))) > num(certain_outcome(float(99.0), float(100.0))));
    assert!(is_priced(float(95000.0), float(94000.0)));
    assert!(!is_priced(float(0.0), float(94000.0)));
    assert!(!is_priced(float(95000.0), float(-1.0)));
    assert!(has_volatility(float(0.5)));
    assert!(!has_volatility(float(0.0)));
    assert!(is_tail(float(2.5)));
    assert!(!is_tail(float(1.0)));
    assert!(is_wide(float(0.13)));
    assert!(!is_wide(float(0.12)));
    assert_eq!(averaging_case(float(0.001), float(1.0), float(0.5)), AveragingCase::Settled);
    assert_eq!(averaging_case(float(0.5), float(-1.0), float(0.5)), AveragingCase::NearCertain);
    assert_eq!(averaging_case(float(0.5), float(1.0), float(0.0)), AveragingCase::Still);
    assert_eq!(averaging_case(float(0.5), float(1.0), float(0.5)), AveragingCase::Open);
}

#[test]
fn states_speak_for_their_values() {
    let mut s = CryptoStateInner::default();
    assert_eq!(num(estimate_volatility(&s, float(0.5))), 0.5);
    s.best_vol = Some(float(0.7));
    assert_eq!(num(estimate_volatility(&s, float(0.5))), 0.7);
    s.dvol = float(50.0);
    s.rti_reliable = true;
    let t = support(&s);
    assert!(t.dvol && t.reliable && !t.coinbase && !t.binance && !t.perp);
}
