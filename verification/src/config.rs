//! Configuration: what can be set, the defaults, and what is refused.
use vstd::prelude::*;
use vstd::string::*;

use crate::crypto_asset::{every_asset_is_known, known_assets, CryptoAsset};
use crate::float::{Float, Setting, ONE_BITS};
use crate::text::{decimal, i64_text, joined, opens, quote, quoted, same_text, starts_with, texts, u64_text, usize_text};

verus! {

#[derive(Clone)]
pub struct Config {
    pub database_url: String,
    pub redis_url: String,
    pub nats_url: String,
    pub kalshi_api_key: String,
    pub kalshi_private_key_path: String,
    pub kalshi_base_url: String,
    pub kalshi_ws_url: String,
    pub binance_ws_url: String,
    pub mesonet_base_url: String,
    pub coinbase_ws_url: String,
    pub binance_futures_ws_url: String,
    pub deribit_ws_url: String,
    pub binance_spot_ws_url: String,
    pub enable_coinbase: bool,
    pub enable_binance_futures: bool,
    pub enable_binance_spot: bool,
    pub enable_deribit: bool,
    pub paper_mode: bool,
    /// Live trading asks for the phrase that confirms it.
    pub confirm_live_trading: String,
    pub max_trade_size_cents: i64,
    pub max_daily_loss_cents: i64,
    pub max_positions: usize,
    pub max_exposure_cents: i64,
    pub kelly_fraction_multiplier: Setting,
    pub database_pool_size: u32,
    pub log_level: String,
    pub log_format: String,
    pub discord_webhook_url: Option<String>,
    pub http_port: u16,
    /// How long a venue's price counts in the index estimate.
    pub rti_stale_threshold_secs: u64,
    pub rti_outlier_threshold_pct: Setting,
    pub rti_min_venues: usize,
    pub kill_switch_all: bool,
    pub kill_switch_crypto: bool,
    pub kill_switch_weather: bool,
    pub crypto_entry_min_minutes: Setting,
    pub crypto_entry_max_minutes: Setting,
    pub crypto_min_edge: Setting,
    pub crypto_min_kelly: Setting,
    pub crypto_min_confidence: Setting,
    pub crypto_max_edge: Setting,
    pub crypto_cooldown_secs: u64,
    pub weather_cooldown_secs: u64,
    pub crypto_max_market_disagreement: Setting,
    pub crypto_directional_min_conviction: Setting,
    pub crypto_vol_multiplier: Setting,
    pub crypto_prob_ceiling: Setting,
    pub crypto_risk_reward_max_ratio: Setting,
    pub crypto_kelly_fill_min: Setting,
    pub crypto_compress_factor: Setting,
    pub crypto_max_signals_per_hour: u32,
    pub enable_crypto_btc: bool,
    pub enable_crypto_eth: bool,
    pub enable_crypto_sol: bool,
    pub enable_crypto_xrp: bool,
    pub enable_crypto_doge: bool,
}

/// 0.17 minutes, about ten seconds before the close.
pub fn default_crypto_entry_min_minutes() -> (r: Setting)
    ensures
        r.value.bits == 0x3fc5_c28f_5c28_f5c3,
        r.text@ == "0.17"@,
{
    Setting { value: Float::from_bits(0x3fc5_c28f_5c28_f5c3), text: "0.17".to_owned() }
}

/// 20.
pub fn default_crypto_entry_max_minutes() -> (r: Setting)
    ensures
        r.value.bits == 0x4034_0000_0000_0000,
        r.text@ == "20"@,
{
    Setting { value: Float::from_bits(0x4034_0000_0000_0000), text: "20".to_owned() }
}

/// 0.08.
pub fn default_crypto_min_edge() -> (r: Setting)
    ensures
        r.value.bits == 0x3fb4_7ae1_47ae_147b,
        r.text@ == "0.08"@,
{
    Setting { value: Float::from_bits(0x3fb4_7ae1_47ae_147b), text: "0.08".to_owned() }
}

/// 0.04.
pub fn default_crypto_min_kelly() -> (r: Setting)
    ensures
        r.value.bits == 0x3fa4_7ae1_47ae_147b,
        r.text@ == "0.04"@,
{
    Setting { value: Float::from_bits(0x3fa4_7ae1_47ae_147b), text: "0.04".to_owned() }
}

/// 0.4.
pub fn default_crypto_min_confidence() -> (r: Setting)
    ensures
        r.value.bits == 0x3fd9_9999_9999_999a,
        r.text@ == "0.4"@,
{
    Setting { value: Float::from_bits(0x3fd9_9999_9999_999a), text: "0.4".to_owned() }
}

/// 0.25.
pub fn default_crypto_max_edge() -> (r: Setting)
    ensures
        r.value.bits == 0x3fd0_0000_0000_0000,
        r.text@ == "0.25"@,
{
    Setting { value: Float::from_bits(0x3fd0_0000_0000_0000), text: "0.25".to_owned() }
}

/// 2.5.
pub fn default_crypto_vol_multiplier() -> (r: Setting)
    ensures
        r.value.bits == 0x4004_0000_0000_0000,
        r.text@ == "2.5"@,
{
    Setting { value: Float::from_bits(0x4004_0000_0000_0000), text: "2.5".to_owned() }
}

/// 0.8.
pub fn default_crypto_prob_ceiling() -> (r: Setting)
    ensures
        r.value.bits == 0x3fe9_9999_9999_999a,
        r.text@ == "0.8"@,
{
    Setting { value: Float::from_bits(0x3fe9_9999_9999_999a), text: "0.8".to_owned() }
}

/// 5.
pub fn default_crypto_risk_reward_max_ratio() -> (r: Setting)
    ensures
        r.value.bits == 0x4014_0000_0000_0000,
        r.text@ == "5"@,
{
    Setting { value: Float::from_bits(0x4014_0000_0000_0000), text: "5".to_owned() }
}

/// 0.02.
pub fn default_crypto_kelly_fill_min() -> (r: Setting)
    ensures
        r.value.bits == 0x3f94_7ae1_47ae_147b,
        r.text@ == "0.02"@,
{
    Setting { value: Float::from_bits(0x3f94_7ae1_47ae_147b), text: "0.02".to_owned() }
}

/// 0.25.
pub fn default_crypto_max_market_disagreement() -> (r: Setting)
    ensures
        r.value.bits == 0x3fd0_0000_0000_0000,
        r.text@ == "0.25"@,
{
    Setting { value: Float::from_bits(0x3fd0_0000_0000_0000), text: "0.25".to_owned() }
}

/// 0.05.
pub fn default_crypto_directional_min_conviction() -> (r: Setting)
    ensures
        r.value.bits == 0x3fa9_9999_9999_999a,
        r.text@ == "0.05"@,
{
    Setting { value: Float::from_bits(0x3fa9_9999_9999_999a), text: "0.05".to_owned() }
}

/// 0.2.
pub fn default_crypto_compress_factor() -> (r: Setting)
    ensures
        r.value.bits == 0x3fc9_9999_9999_999a,
        r.text@ == "0.2"@,
{
    Setting { value: Float::from_bits(0x3fc9_9999_9999_999a), text: "0.2".to_owned() }
}

/// 0.5.
pub fn default_rti_outlier_threshold_pct() -> (r: Setting)
    ensures
        r.value.bits == 0x3fe0_0000_0000_0000,
        r.text@ == "0.5"@,
{
    Setting { value: Float::from_bits(0x3fe0_0000_0000_0000), text: "0.5".to_owned() }
}

pub fn default_db_pool_size() -> (r: u32)
    ensures
        r == 20,
{
    20
}

pub fn default_crypto_cooldown_secs() -> (r: u64)
    ensures
        r == 300,
{
    300
}

pub fn default_weather_cooldown_secs() -> (r: u64)
    ensures
        r == 120,
{
    120
}

pub fn default_crypto_max_signals_per_hour() -> (r: u32)
    ensures
        r == 20,
{
    20
}

pub fn default_rti_stale_threshold_secs() -> (r: u64)
    ensures
        r == 5,
{
    5
}

pub fn default_rti_min_venues() -> (r: usize)
    ensures
        r == 2,
{
    2
}

pub fn default_true() -> (r: bool)
    ensures
        r,
{
    true
}

pub fn default_coinbase_ws_url() -> (r: String)
    ensures
        r@ == "wss://advanced-trade-ws.coinbase.com"@,
{
    "wss://advanced-trade-ws.coinbase.com".to_owned()
}

pub fn default_binance_futures_ws_url() -> (r: String)
    ensures
        r@ == "wss://fstream.binance.com"@,
{
    "wss://fstream.binance.com".to_owned()
}

pub fn default_binance_spot_ws_url() -> (r: String)
    ensures
        r@ == "wss://stream.binance.us:9443/ws/btcusd@trade"@,
{
    "wss://stream.binance.us:9443/ws/btcusd@trade".to_owned()
}

pub fn default_deribit_ws_url() -> (r: String)
    ensures
        r@ == "wss://www.deribit.com/ws/api/v2"@,
{
    "wss://www.deribit.com/ws/api/v2".to_owned()
}

/// A message that is due if `bad` holds.
pub open spec fn due(bad: bool, message: Seq<char>) -> Seq<Seq<char>> {
    if bad { seq![message] } else { seq![] }
}

/// Below `low` or above `high`; what is not a number is neither.
pub open spec fn outside(x: Float, low: u64, high: u64) -> bool {
    x.lt(Float { bits: low }) || (Float { bits: high }).lt(x)
}

/// Live trading without its confirmation, and limits that are not positive.
pub open spec fn trading_problems(c: Config) -> Seq<Seq<char>> {
    Seq::<Seq<char>>::empty()
        + due(
            !c.paper_mode && c.confirm_live_trading@ != "yes-i-understand-real-money"@,
            "PAPER_MODE=false requires CONFIRM_LIVE_TRADING=yes-i-understand-real-money"@,
        )
        + due(
            c.max_trade_size_cents <= 0,
            "MAX_TRADE_SIZE_CENTS must be > 0, got "@ + decimal(c.max_trade_size_cents as int),
        )
        + due(
            c.max_daily_loss_cents <= 0,
            "MAX_DAILY_LOSS_CENTS must be > 0, got "@ + decimal(c.max_daily_loss_cents as int),
        )
        + due(
            c.max_exposure_cents <= 0,
            "MAX_EXPOSURE_CENTS must be > 0, got "@ + decimal(c.max_exposure_cents as int),
        )
        + due(
            c.max_positions == 0,
            "MAX_POSITIONS must be > 0"@,
        )
        + due(
            c.kelly_fraction_multiplier.value.le(Float { bits: 0 }) || (Float { bits: ONE_BITS }).lt(c.kelly_fraction_multiplier.value),
            "KELLY_FRACTION_MULTIPLIER must be in (0.0, 1.0], got "@ + c.kelly_fraction_multiplier.text@,
        )
}

/// Model parameters outside their ranges.
pub open spec fn model_problems(c: Config) -> Seq<Seq<char>> {
    Seq::<Seq<char>>::empty()
        + due(
            outside(c.crypto_vol_multiplier.value, 0x3fb9_9999_9999_999a, 0x4024_0000_0000_0000),
            "CRYPTO_VOL_MULTIPLIER must be in [0.1, 10.0], got "@ + c.crypto_vol_multiplier.text@,
        )
        + due(
            outside(c.crypto_prob_ceiling.value, 0x3fe0_0000_0000_0000, ONE_BITS),
            "CRYPTO_PROB_CEILING must be in [0.5, 1.0], got "@ + c.crypto_prob_ceiling.text@,
        )
        + due(
            outside(c.crypto_compress_factor.value, 0, ONE_BITS),
            "CRYPTO_COMPRESS_FACTOR must be in [0.0, 1.0], got "@ + c.crypto_compress_factor.text@,
        )
        + due(
            c.crypto_risk_reward_max_ratio.value.le(Float { bits: 0 }),
            "CRYPTO_RISK_REWARD_MAX_RATIO must be > 0, got "@ + c.crypto_risk_reward_max_ratio.text@,
        )
        + due(
            outside(c.crypto_min_edge.value, 0, ONE_BITS),
            "CRYPTO_MIN_EDGE must be in [0.0, 1.0], got "@ + c.crypto_min_edge.text@,
        )
        + due(
            outside(c.crypto_max_edge.value, 0, ONE_BITS),
            "CRYPTO_MAX_EDGE must be in [0.0, 1.0], got "@ + c.crypto_max_edge.text@,
        )
        + due(
            outside(c.crypto_min_kelly.value, 0, ONE_BITS),
            "CRYPTO_MIN_KELLY must be in [0.0, 1.0], got "@ + c.crypto_min_kelly.text@,
        )
        + due(
            outside(c.crypto_min_confidence.value, 0, ONE_BITS),
            "CRYPTO_MIN_CONFIDENCE must be in [0.0, 1.0], got "@ + c.crypto_min_confidence.text@,
        )
}

/// Settings that contradict each other, and the remaining limits.
pub open spec fn consistency_problems(c: Config) -> Seq<Seq<char>> {
    Seq::<Seq<char>>::empty()
        + due(
            c.crypto_max_edge.value.le(c.crypto_min_edge.value),
            "CRYPTO_MIN_EDGE ("@ + c.crypto_min_edge.text@ + ") must be < CRYPTO_MAX_EDGE ("@ + c.crypto_max_edge.text@ + ")"@,
        )
        + due(
            c.crypto_entry_max_minutes.value.le(c.crypto_entry_min_minutes.value),
            "CRYPTO_ENTRY_MIN_MINUTES ("@ + c.crypto_entry_min_minutes.text@ + ") must be < CRYPTO_ENTRY_MAX_MINUTES ("@ + c.crypto_entry_max_minutes.text@ + ")"@,
        )
        + due(
            c.crypto_entry_min_minutes.value.lt(Float { bits: 0 }),
            "CRYPTO_ENTRY_MIN_MINUTES must be >= 0, got "@ + c.crypto_entry_min_minutes.text@,
        )
        + due(
            outside(c.crypto_max_market_disagreement.value, 0, ONE_BITS),
            "CRYPTO_MAX_MARKET_DISAGREEMENT must be in [0.0, 1.0], got "@ + c.crypto_max_market_disagreement.text@,
        )
        + due(
            c.crypto_max_signals_per_hour == 0,
            "CRYPTO_MAX_SIGNALS_PER_HOUR must be > 0"@,
        )
        + due(
            c.rti_min_venues == 0,
            "RTI_MIN_VENUES must be > 0"@,
        )
}

/// Addresses without their secure scheme.
pub open spec fn url_problems(c: Config) -> Seq<Seq<char>> {
    Seq::<Seq<char>>::empty()
        + due(
            !opens("https://"@, c.kalshi_base_url@),
            "KALSHI_BASE_URL must start with https://, got '"@ + c.kalshi_base_url@ + "'"@,
        )
        + due(
            !opens("wss://"@, c.kalshi_ws_url@),
            "KALSHI_WS_URL must start with wss://, got '"@ + c.kalshi_ws_url@ + "'"@,
        )
}

/// Everything that is wrong with a configuration, in the order in which it is reported.
pub open spec fn problems(c: Config) -> Seq<Seq<char>> {
    trading_problems(c) + model_problems(c) + consistency_problems(c) + url_problems(c)
}

fn report(errors: &mut Vec<String>, bad: bool, message: String)
    ensures
        texts(final(errors)@) == texts(old(errors)@) + due(bad, message@),
{
    if bad {
        errors.push(message);
        assert(texts(errors@) =~= texts(old(errors)@).push(message@));
        assert(texts(old(errors)@) + seq![message@] =~= texts(old(errors)@).push(message@));
    } else {
        assert(texts(old(errors)@) + Seq::<Seq<char>>::empty() =~= texts(old(errors)@));
    }
}

fn is_outside(x: Float, low: u64, high: u64) -> (r: bool)
    ensures
        r == outside(x, low, high),
{
    x.less(Float::from_bits(low)) || Float::from_bits(high).less(x)
}

fn pair_message(a: &str, x: &Setting, b: &str, y: &Setting) -> (r: String)
    ensures
        r@ == a@ + x.text@ + b@ + y.text@ + ")"@,
{
    let mut out: String = joined(a, x.text.as_str());
    out.append(b);
    out.append(y.text.as_str());
    out.append(")");
    out
}

fn quoted_message(a: &str, x: &str) -> (r: String)
    ensures
        r@ == a@ + x@ + "'"@,
{
    let mut out: String = joined(a, x);
    out.append("'");
    out
}

impl Config {
    fn trading_problems_found(&self) -> (r: Vec<String>)
        ensures
            texts(r@) == trading_problems(*self),
    {
        let mut errors: Vec<String> = Vec::new();
        assert(texts(errors@) =~= Seq::<Seq<char>>::empty());
        report(
            &mut errors,
            !self.paper_mode && !same_text(self.confirm_live_trading.as_str(), "yes-i-understand-real-money"),
            "PAPER_MODE=false requires CONFIRM_LIVE_TRADING=yes-i-understand-real-money".to_owned(),
        );
        report(
            &mut errors,
            self.max_trade_size_cents <= 0,
            joined("MAX_TRADE_SIZE_CENTS must be > 0, got ", i64_text(self.max_trade_size_cents).as_str()),
        );
        report(
            &mut errors,
            self.max_daily_loss_cents <= 0,
            joined("MAX_DAILY_LOSS_CENTS must be > 0, got ", i64_text(self.max_daily_loss_cents).as_str()),
        );
        report(
            &mut errors,
            self.max_exposure_cents <= 0,
            joined("MAX_EXPOSURE_CENTS must be > 0, got ", i64_text(self.max_exposure_cents).as_str()),
        );
        report(
            &mut errors,
            self.max_positions == 0,
            "MAX_POSITIONS must be > 0".to_owned(),
        );
        report(
            &mut errors,
            self.kelly_fraction_multiplier.value.less_eq(Float::from_bits(0)) || Float::from_bits(ONE_BITS).less(self.kelly_fraction_multiplier.value),
            joined("KELLY_FRACTION_MULTIPLIER must be in (0.0, 1.0], got ", self.kelly_fraction_multiplier.text.as_str()),
        );
        errors
    }

    fn model_problems_found(&self) -> (r: Vec<String>)
        ensures
            texts(r@) == model_problems(*self),
    {
        let mut errors: Vec<String> = Vec::new();
        assert(texts(errors@) =~= Seq::<Seq<char>>::empty());
        report(
            &mut errors,
            is_outside(self.crypto_vol_multiplier.value, 0x3fb9_9999_9999_999a, 0x4024_0000_0000_0000),
            joined("CRYPTO_VOL_MULTIPLIER must be in [0.1, 10.0], got ", self.crypto_vol_multiplier.text.as_str()),
        );
        report(
            &mut errors,
            is_outside(self.crypto_prob_ceiling.value, 0x3fe0_0000_0000_0000, ONE_BITS),
            joined("CRYPTO_PROB_CEILING must be in [0.5, 1.0], got ", self.crypto_prob_ceiling.text.as_str()),
        );
        report(
            &mut errors,
            is_outside(self.crypto_compress_factor.value, 0, ONE_BITS),
            joined("CRYPTO_COMPRESS_FACTOR must be in [0.0, 1.0], got ", self.crypto_compress_factor.text.as_str()),
        );
        report(
            &mut errors,
            self.crypto_risk_reward_max_ratio.value.less_eq(Float::from_bits(0)),
            joined("CRYPTO_RISK_REWARD_MAX_RATIO must be > 0, got ", self.crypto_risk_reward_max_ratio.text.as_str()),
        );
        report(
            &mut errors,
            is_outside(self.crypto_min_edge.value, 0, ONE_BITS),
            joined("CRYPTO_MIN_EDGE must be in [0.0, 1.0], got ", self.crypto_min_edge.text.as_str()),
        );
        report(
            &mut errors,
            is_outside(self.crypto_max_edge.value, 0, ONE_BITS),
            joined("CRYPTO_MAX_EDGE must be in [0.0, 1.0], got ", self.crypto_max_edge.text.as_str()),
        );
        report(
            &mut errors,
            is_outside(self.crypto_min_kelly.value, 0, ONE_BITS),
            joined("CRYPTO_MIN_KELLY must be in [0.0, 1.0], got ", self.crypto_min_kelly.text.as_str()),
        );
        report(
            &mut errors,
            is_outside(self.crypto_min_confidence.value, 0, ONE_BITS),
            joined("CRYPTO_MIN_CONFIDENCE must be in [0.0, 1.0], got ", self.crypto_min_confidence.text.as_str()),
        );
        errors
    }

    fn consistency_problems_found(&self) -> (r: Vec<String>)
        ensures
            texts(r@) == consistency_problems(*self),
    {
        let mut errors: Vec<String> = Vec::new();
        assert(texts(errors@) =~= Seq::<Seq<char>>::empty());
        report(
            &mut errors,
            self.crypto_max_edge.value.less_eq(self.crypto_min_edge.value),
            pair_message("CRYPTO_MIN_EDGE (", &self.crypto_min_edge, ") must be < CRYPTO_MAX_EDGE (", &self.crypto_max_edge),
        );
        report(
            &mut errors,
            self.crypto_entry_max_minutes.value.less_eq(self.crypto_entry_min_minutes.value),
            pair_message("CRYPTO_ENTRY_MIN_MINUTES (", &self.crypto_entry_min_minutes, ") must be < CRYPTO_ENTRY_MAX_MINUTES (", &self.crypto_entry_max_minutes),
        );
        report(
            &mut errors,
            self.crypto_entry_min_minutes.value.less(Float::from_bits(0)),
            joined("CRYPTO_ENTRY_MIN_MINUTES must be >= 0, got ", self.crypto_entry_min_minutes.text.as_str()),
        );
        report(
            &mut errors,
            is_outside(self.crypto_max_market_disagreement.value, 0, ONE_BITS),
            joined("CRYPTO_MAX_MARKET_DISAGREEMENT must be in [0.0, 1.0], got ", self.crypto_max_market_disagreement.text.as_str()),
        );
        report(
            &mut errors,
            self.crypto_max_signals_per_hour == 0,
            "CRYPTO_MAX_SIGNALS_PER_HOUR must be > 0".to_owned(),
        );
        report(
            &mut errors,
            self.rti_min_venues == 0,
            "RTI_MIN_VENUES must be > 0".to_owned(),
        );
        errors
    }

    fn url_problems_found(&self) -> (r: Vec<String>)
        ensures
            texts(r@) == url_problems(*self),
    {
        let mut errors: Vec<String> = Vec::new();
        assert(texts(errors@) =~= Seq::<Seq<char>>::empty());
        report(
            &mut errors,
            !starts_with(self.kalshi_base_url.as_str(), "https://"),
            quoted_message("KALSHI_BASE_URL must start with https://, got '", self.kalshi_base_url.as_str()),
        );
        report(
            &mut errors,
            !starts_with(self.kalshi_ws_url.as_str(), "wss://"),
            quoted_message("KALSHI_WS_URL must start with wss://, got '", self.kalshi_ws_url.as_str()),
        );
        errors
    }

    /// Checks bounds and consistency; every problem found is reported.
    pub fn validate(&self) -> (r: Result<(), Vec<String>>)
        ensures
            match r {
                Ok(_) => problems(*self).len() == 0,
                Err(errors) => errors@.len() > 0 && texts(errors@) == problems(*self),
            },
    {
        let mut errors: Vec<String> = self.trading_problems_found();
        let mut more: Vec<String> = self.model_problems_found();
        let ghost a = errors@;
        let ghost b = more@;
        errors.append(&mut more);
        let mut more: Vec<String> = self.consistency_problems_found();
        let ghost c = more@;
        errors.append(&mut more);
        let mut more: Vec<String> = self.url_problems_found();
        let ghost d = more@;
        errors.append(&mut more);
        assert(texts(a + b + c + d) =~= texts(a) + texts(b) + texts(c) + texts(d));
        if errors.len() == 0 {
            Ok(())
        } else {
            Err(errors)
        }
    }

    /// The assets that are enabled, in their usual order.
    pub fn enabled_crypto_assets(&self) -> (r: Vec<CryptoAsset>)
        ensures
            r@ == enabled_assets(*self),
    {
        let known: [CryptoAsset; 5] = CryptoAsset::all();
        let mut assets: Vec<CryptoAsset> = Vec::new();
        let mut i: usize = 0;
        while i < 5
            invariant
                i <= 5,
                known@ == known_assets(),
                assets@ == known_assets().take(i as int).filter(|a: CryptoAsset| enabled(*self, a)),
            decreases 5 - i,
        {
            if self.is_enabled(known[i]) {
                assets.push(known[i]);
            }
            proof {
                reveal(Seq::filter);
                assert(known_assets().take(i + 1).drop_last() =~= known_assets().take(i as int));
            }
            i = i + 1;
        }
        assert(known_assets().take(5) =~= known_assets());
        assets
    }

    fn is_enabled(&self, a: CryptoAsset) -> (r: bool)
        ensures
            r == enabled(*self, a),
    {
        match a {
            CryptoAsset::BTC => self.enable_crypto_btc,
            CryptoAsset::ETH => self.enable_crypto_eth,
            CryptoAsset::SOL => self.enable_crypto_sol,
            CryptoAsset::XRP => self.enable_crypto_xrp,
            CryptoAsset::DOGE => self.enable_crypto_doge,
        }
    }

    /// The configuration for debugging output, without its secrets.
    pub fn debug_text(&self) -> (r: String)
        ensures
            r@ == redacted(*self),
    {
        let mut out: String = "Config { database_url: \"[redacted]\", redis_url: ".to_owned();
        out.append(quote(self.redis_url.as_str()).as_str());
        out.append(", nats_url: ");
        out.append(quote(self.nats_url.as_str()).as_str());
        out.append(", kalshi_api_key: \"[redacted]\", kalshi_private_key_path: \"[redacted]\", kalshi_base_url: ");
        out.append(quote(self.kalshi_base_url.as_str()).as_str());
        out.append(", kalshi_ws_url: ");
        out.append(quote(self.kalshi_ws_url.as_str()).as_str());
        out.append(", paper_mode: ");
        out.append(if self.paper_mode { "true" } else { "false" });
        out.append(", max_trade_size_cents: ");
        out.append(i64_text(self.max_trade_size_cents).as_str());
        out.append(", max_daily_loss_cents: ");
        out.append(i64_text(self.max_daily_loss_cents).as_str());
        out.append(", max_positions: ");
        out.append(usize_text(self.max_positions).as_str());
        out.append(", max_exposure_cents: ");
        out.append(i64_text(self.max_exposure_cents).as_str());
        out.append(", database_pool_size: ");
        out.append(u64_text(self.database_pool_size as u64).as_str());
        out.append(", http_port: ");
        out.append(u64_text(self.http_port as u64).as_str());
        out.append(" }");
        out
    }
}

/// The configuration as debugging output shows it: of the database address, the key and the
/// path of the private key it says no more than that they are kept back.
pub open spec fn redacted(c: Config) -> Seq<char> {
    "Config { database_url: \"[redacted]\", redis_url: "@ + quoted(c.redis_url@) + ", nats_url: "@ + quoted(
        c.nats_url@,
    ) + ", kalshi_api_key: \"[redacted]\", kalshi_private_key_path: \"[redacted]\", kalshi_base_url: "@
        + quoted(c.kalshi_base_url@) + ", kalshi_ws_url: "@ + quoted(c.kalshi_ws_url@)
        + ", paper_mode: "@ + (if c.paper_mode { "true"@ } else { "false"@ })
        + ", max_trade_size_cents: "@ + decimal(c.max_trade_size_cents as int)
        + ", max_daily_loss_cents: "@ + decimal(c.max_daily_loss_cents as int)
        + ", max_positions: "@ + decimal(c.max_positions as int)
        + ", max_exposure_cents: "@ + decimal(c.max_exposure_cents as int)
        + ", database_pool_size: "@ + decimal(c.database_pool_size as int)
        + ", http_port: "@ + decimal(c.http_port as int) + " }"@
}

/// Whether an asset is enabled.
pub open spec fn enabled(c: Config, a: CryptoAsset) -> bool {
    match a {
        CryptoAsset::BTC => c.enable_crypto_btc,
        CryptoAsset::ETH => c.enable_crypto_eth,
        CryptoAsset::SOL => c.enable_crypto_sol,
        CryptoAsset::XRP => c.enable_crypto_xrp,
        CryptoAsset::DOGE => c.enable_crypto_doge,
    }
}

/// The known assets that are enabled.
pub open spec fn enabled_assets(c: Config) -> Seq<CryptoAsset> {
    known_assets().filter(|a: CryptoAsset| enabled(c, a))
}

/// Debugging output does not depend on any secret.
pub proof fn debug_text_keeps_secrets(a: Config, b: Config)
    requires
        b == (Config {
            database_url: b.database_url,
            kalshi_api_key: b.kalshi_api_key,
            kalshi_private_key_path: b.kalshi_private_key_path,
            ..a
        }),
    ensures
        redacted(a) == redacted(b),
{
}

/// What an accepted configuration guarantees: real money moves only after confirmation, every
/// limit is positive, and both addresses are secure.
pub proof fn accepted_settings_are_safe(c: Config)
    requires
        problems(c).len() == 0,
    ensures
        c.paper_mode || c.confirm_live_trading@ == "yes-i-understand-real-money"@,
        c.max_trade_size_cents > 0,
        c.max_daily_loss_cents > 0,
        c.max_exposure_cents > 0,
        c.max_positions > 0,
        c.crypto_max_signals_per_hour > 0,
        c.rti_min_venues > 0,
        opens("https://"@, c.kalshi_base_url@),
        opens("wss://"@, c.kalshi_ws_url@),
{
}

/// Of two numbers, an accepted configuration has the least edge below the greatest one, and
/// the earliest minute of entry before the latest.
pub proof fn accepted_settings_are_ordered(c: Config)
    requires
        problems(c).len() == 0,
    ensures
        !c.crypto_min_edge.value.not_a_number() && !c.crypto_max_edge.value.not_a_number()
            ==> c.crypto_min_edge.value.lt(c.crypto_max_edge.value),
        !c.crypto_entry_min_minutes.value.not_a_number() && !c.crypto_entry_max_minutes.value.not_a_number()
            ==> c.crypto_entry_min_minutes.value.lt(c.crypto_entry_max_minutes.value),
{
}

/// A configuration is accepted exactly if real money is confirmed, every limit is above zero, every
/// parameter lies in its range, least and greatest values are in order, and both addresses are
/// secure. What is not a number is refused nowhere.
pub proof fn settings_are_accepted_within_their_ranges(c: Config)
    ensures
        problems(c).len() == 0 <==> {
            let zero = Float { bits: 0 };
            let one = Float { bits: 0x3ff0_0000_0000_0000 };
            let share = |x: Float| !x.lt(zero) && !one.lt(x);
            &&& c.paper_mode || c.confirm_live_trading@ == "yes-i-understand-real-money"@
            &&& c.max_trade_size_cents > 0 && c.max_daily_loss_cents > 0 && c.max_exposure_cents > 0
            &&& c.max_positions > 0
            &&& !c.kelly_fraction_multiplier.value.le(zero) && !one.lt(c.kelly_fraction_multiplier.value)
            &&& !c.crypto_vol_multiplier.value.lt(Float { bits: 0x3fb9_9999_9999_999a }) && !(Float {
                bits: 0x4024_0000_0000_0000,
            }).lt(c.crypto_vol_multiplier.value)
            &&& !c.crypto_prob_ceiling.value.lt(Float { bits: 0x3fe0_0000_0000_0000 }) && !one.lt(
                c.crypto_prob_ceiling.value,
            )
            &&& share(c.crypto_compress_factor.value)
            &&& !c.crypto_risk_reward_max_ratio.value.le(zero)
            &&& share(c.crypto_min_edge.value) && share(c.crypto_max_edge.value) && share(c.crypto_min_kelly.value)
            &&& share(c.crypto_min_confidence.value) && share(c.crypto_max_market_disagreement.value)
            &&& !c.crypto_max_edge.value.le(c.crypto_min_edge.value)
            &&& !c.crypto_entry_max_minutes.value.le(c.crypto_entry_min_minutes.value)
            &&& !c.crypto_entry_min_minutes.value.lt(zero)
            &&& c.crypto_max_signals_per_hour > 0 && c.rti_min_venues > 0
            &&& opens("https://"@, c.kalshi_base_url@) && opens("wss://"@, c.kalshi_ws_url@)
        },
{
}

/// Each problem is told once, and only where it is one: so many messages as there are problems.
pub proof fn problems_are_told_one_by_one(bad: bool, message: Seq<char>, before: Seq<Seq<char>>)
    ensures
        bad ==> (before + due(bad, message)) == before.push(message),
        !bad ==> (before + due(bad, message)) == before,
{
    assert(before + due(bad, message) =~= (if bad { before.push(message) } else { before }));
}

/// Trading without confirmation, and each limit that is not above zero, is told with its own
/// message.
pub proof fn limits_are_told_by_name(c: Config)
    ensures
        !c.paper_mode && c.confirm_live_trading@ != "yes-i-understand-real-money"@ ==> problems(c)[0]
            == "PAPER_MODE=false requires CONFIRM_LIVE_TRADING=yes-i-understand-real-money"@,
        c.paper_mode && c.max_trade_size_cents <= 0 ==> problems(c)[0] == "MAX_TRADE_SIZE_CENTS must be > 0, got "@
            + decimal(c.max_trade_size_cents as int),
        c.paper_mode && c.max_trade_size_cents > 0 && c.max_daily_loss_cents <= 0 ==> problems(c)[0]
            == "MAX_DAILY_LOSS_CENTS must be > 0, got "@ + decimal(c.max_daily_loss_cents as int),
        c.paper_mode && c.max_trade_size_cents > 0 && c.max_daily_loss_cents > 0 && c.max_exposure_cents <= 0
            ==> problems(c)[0] == "MAX_EXPOSURE_CENTS must be > 0, got "@ + decimal(c.max_exposure_cents as int),
{
}

/// An asset is traded exactly if its own setting enables it; those that are come in the usual order.
pub proof fn assets_are_enabled_by_their_setting(c: Config, a: CryptoAsset)
    ensures
        enabled_assets(c).contains(a) <==> (match a {
            CryptoAsset::BTC => c.enable_crypto_btc,
            CryptoAsset::ETH => c.enable_crypto_eth,
            CryptoAsset::SOL => c.enable_crypto_sol,
            CryptoAsset::XRP => c.enable_crypto_xrp,
            CryptoAsset::DOGE => c.enable_crypto_doge,
        }),
{
    every_asset_is_known(a);
    let pred = |x: CryptoAsset| enabled(c, x);
    let i = choose|i: int| 0 <= i < known_assets().len() && known_assets()[i] == a;
    if enabled(c, a) {
        known_assets().lemma_filter_contains(pred, i);
    }
    if enabled_assets(c).contains(a) {
        let j = choose|j: int| 0 <= j < enabled_assets(c).len() && enabled_assets(c)[j] == a;
        known_assets().lemma_filter_pred(pred, j);
    }
}

} // verus!
