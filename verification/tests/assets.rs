use tradebot::crypto_asset::CryptoAsset;

#[test]
fn test_from_ticker_btc_variants() {
    assert_eq!(CryptoAsset::from_ticker("KXBTCD-26MAR08-T98500"), Some(CryptoAsset::BTC));
    assert_eq!(CryptoAsset::from_ticker("KXBTC15M-26MAR08-T1"), Some(CryptoAsset::BTC));
    assert_eq!(CryptoAsset::from_ticker("KXBTC-26MAR08"), Some(CryptoAsset::BTC));
}

#[test]
fn test_from_ticker_all_assets() {
    assert_eq!(CryptoAsset::from_ticker("KXETH-26MAR12-T3500"), Some(CryptoAsset::ETH));
    assert_eq!(CryptoAsset::from_ticker("KXETHD-26MAR12-T1"), Some(CryptoAsset::ETH));
    assert_eq!(CryptoAsset::from_ticker("KXSOL-26MAR12-T150"), Some(CryptoAsset::SOL));
    assert_eq!(CryptoAsset::from_ticker("KXXRP-26MAR12-T2"), Some(CryptoAsset::XRP));
    assert_eq!(CryptoAsset::from_ticker("KXDOGE-26MAR12-T0.15"), Some(CryptoAsset::DOGE));
}

#[test]
fn test_from_ticker_unknown() {
    assert_eq!(CryptoAsset::from_ticker("KXTEMP-NYC-26MAR12"), None);
    assert_eq!(CryptoAsset::from_ticker("UNKNOWN"), None);
    assert_eq!(CryptoAsset::from_ticker(""), None);
}

#[test]
fn test_from_ticker_case_insensitive() {
    assert_eq!(CryptoAsset::from_ticker("kxbtc-test"), Some(CryptoAsset::BTC));
    assert_eq!(CryptoAsset::from_ticker("kxeth-test"), Some(CryptoAsset::ETH));
}

#[test]
fn test_coinbase_product_ids() {
    assert_eq!(CryptoAsset::BTC.coinbase_product_id(), "BTC-USD");
    assert_eq!(CryptoAsset::ETH.coinbase_product_id(), "ETH-USD");
    assert_eq!(CryptoAsset::SOL.coinbase_product_id(), "SOL-USD");
    assert_eq!(CryptoAsset::XRP.coinbase_product_id(), "XRP-USD");
    assert_eq!(CryptoAsset::DOGE.coinbase_product_id(), "DOGE-USD");
}

#[test]
fn test_binance_symbols() {
    assert_eq!(CryptoAsset::BTC.binance_symbol(), "btcusdt");
    assert_eq!(CryptoAsset::ETH.binance_symbol(), "ethusdt");
    assert_eq!(CryptoAsset::SOL.binance_symbol(), "solusdt");
    assert_eq!(CryptoAsset::XRP.binance_symbol(), "xrpusdt");
    assert_eq!(CryptoAsset::DOGE.binance_symbol(), "dogeusdt");
}

#[test]
fn test_has_futures_only_btc() {
    assert!(CryptoAsset::BTC.has_futures());
    assert!(!CryptoAsset::ETH.has_futures());
    assert!(!CryptoAsset::SOL.has_futures());
    assert!(!CryptoAsset::XRP.has_futures());
    assert!(!CryptoAsset::DOGE.has_futures());
}

#[test]
fn test_has_dvol_only_btc() {
    assert!(CryptoAsset::BTC.has_dvol());
    assert!(!CryptoAsset::ETH.has_dvol());
    assert!(!CryptoAsset::SOL.has_dvol());
}

#[test]
fn test_display_name() {
    assert_eq!(CryptoAsset::BTC.display_name(), "Bitcoin");
    assert_eq!(CryptoAsset::ETH.display_name(), "Ethereum");
    assert_eq!(CryptoAsset::SOL.display_name(), "Solana");
    assert_eq!(CryptoAsset::XRP.display_name(), "XRP");
    assert_eq!(CryptoAsset::DOGE.display_name(), "Dogecoin");
}

#[test]
fn test_short_name() {
    assert_eq!(CryptoAsset::BTC.short_name(), "btc");
    assert_eq!(CryptoAsset::ETH.short_name(), "eth");
}

#[test]
fn upper_case_symbols_are_those_in_upper_case() {
    for a in CryptoAsset::all() {
        assert_eq!(a.binance_symbol_upper(), a.binance_symbol().to_uppercase());
    }
    assert_eq!(CryptoAsset::from_upper("kxbtc"), None);
}

#[test]
fn an_asset_is_found_by_its_own_prefix() {
    for a in CryptoAsset::all() {
        for rest in ["", "-25DEC31", "d-95000", "\u{df}\u{131}\u{fb01}", "\u{1f680}"] {
            let ticker = format!("KX{}{}", a.short_name(), rest);
            assert_eq!(CryptoAsset::from_ticker(&ticker), Some(a), "{}", ticker);
            assert_eq!(CryptoAsset::from_ticker(&ticker.to_ascii_uppercase()), Some(a), "{}", ticker);
            assert_eq!(CryptoAsset::from_ticker(&ticker.to_ascii_lowercase()), Some(a), "{}", ticker);
        }
    }
    assert_eq!(CryptoAsset::from_ticker("KXBT"), None);
}
