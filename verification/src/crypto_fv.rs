//! Fair value of crypto contracts: the tuning of each asset, and the cases that the model
//! distinguishes. The model itself is arithmetic on doubles and stands with the caller.
use vstd::prelude::*;
use vstd::string::*;

use crate::crypto_asset::CryptoAsset;
use crate::crypto_state::{above_zero, CryptoStateInner};
use crate::float::{Float, ONE_BITS};
use crate::text::same_text;

verus! {

/// Seconds to settlement at which a contract has expired: 0.01
pub const EXPIRED_SECS_BITS: u64 = 0x3f84_7ae1_47ae_147b;

/// Seconds over which the index is averaged: 60
pub const WINDOW_SECS_BITS: u64 = 0x404e_0000_0000_0000;

/// Seconds to settlement beyond which averaging does not matter: 300
pub const FAR_SECS_BITS: u64 = 0x4072_c000_0000_0000;

/// Score beyond which tails are fat: 2
pub const TAIL_SCORE_BITS: u64 = 0x4000_0000_0000_0000;

/// Share of the window below which the average is settled: 0.01
pub const LEAST_SHARE_BITS: u64 = 0x3f84_7ae1_47ae_147b;

/// Volatility at which nothing moves any more: 1e-12
pub const LEAST_VOL_BITS: u64 = 0x3d71_9799_812d_ea11;

/// Spread above which a tenth of the edge is given up: 0.12
pub const WIDE_SPREAD_BITS: u64 = 0x3fbe_b851_eb85_1eb8;

/// 0.99
pub const NEAR_CERTAIN_BITS: u64 = 0x3fef_ae14_7ae1_47ae;

/// Tuning of the model for one asset.
#[derive(Clone, Copy, Debug, PartialEq, Eq, Structural)]
pub struct AssetConfig {
    pub default_vol: Float,
    pub binary_vol_multiplier: Float,
    pub excess_kurtosis: Float,
    pub prob_floor: Float,
    pub prob_ceiling: Float,
}

/// The tuning of an asset: volatility 0.5, 0.6, 0.9, 0.8 and 1; multiplier 2, 2.8, 3, 3 and
/// 3.2; kurtosis 7, 8, 10, 9 and 12; probabilities between 0.03 and 0.95.
pub open spec fn tuning(asset: CryptoAsset) -> AssetConfig {
    match asset {
        CryptoAsset::BTC => AssetConfig {
            default_vol: Float { bits: 0x3fe0_0000_0000_0000 },
            binary_vol_multiplier: Float { bits: 0x4000_0000_0000_0000 },
            excess_kurtosis: Float { bits: 0x401c_0000_0000_0000 },
            prob_floor: Float { bits: 0x3f9e_b851_eb85_1eb8 },
            prob_ceiling: Float { bits: 0x3fee_6666_6666_6666 },
        },
        CryptoAsset::ETH => AssetConfig {
            default_vol: Float { bits: 0x3fe3_3333_3333_3333 },
            binary_vol_multiplier: Float { bits: 0x4006_6666_6666_6666 },
            excess_kurtosis: Float { bits: 0x4020_0000_0000_0000 },
            prob_floor: Float { bits: 0x3f9e_b851_eb85_1eb8 },
            prob_ceiling: Float { bits: 0x3fee_6666_6666_6666 },
        },
        CryptoAsset::SOL => AssetConfig {
            default_vol: Float { bits: 0x3fec_cccc_cccc_cccd },
            binary_vol_multiplier: Float { bits: 0x4008_0000_0000_0000 },
            excess_kurtosis: Float { bits: 0x4024_0000_0000_0000 },
            prob_floor: Float { bits: 0x3f9e_b851_eb85_1eb8 },
            prob_ceiling: Float { bits: 0x3fee_6666_6666_6666 },
        },
        CryptoAsset::XRP => AssetConfig {
            default_vol: Float { bits: 0x3fe9_9999_9999_999a },
            binary_vol_multiplier: Float { bits: 0x4008_0000_0000_0000 },
            excess_kurtosis: Float { bits: 0x4022_0000_0000_0000 },
            prob_floor: Float { bits: 0x3f9e_b851_eb85_1eb8 },
            prob_ceiling: Float { bits: 0x3fee_6666_6666_6666 },
        },
        CryptoAsset::DOGE => AssetConfig {
            default_vol: Float { bits: 0x3ff0_0000_0000_0000 },
            binary_vol_multiplier: Float { bits: 0x4009_9999_9999_999a },
            excess_kurtosis: Float { bits: 0x4028_0000_0000_0000 },
            prob_floor: Float { bits: 0x3f9e_b851_eb85_1eb8 },
            prob_ceiling: Float { bits: 0x3fee_6666_6666_6666 },
        },
    }
}

/// The tuning of an asset with another ceiling and another multiplier.
pub open spec fn overridden(asset: CryptoAsset, multiplier: Float, prob_ceiling: Float) -> AssetConfig {
    AssetConfig { binary_vol_multiplier: multiplier, prob_ceiling, ..tuning(asset) }
}

impl AssetConfig {
    /// The tuning of an asset.
    pub fn for_asset(asset: CryptoAsset) -> (r: Self)
        ensures
            r == tuning(asset),
    {
        match asset {
            CryptoAsset::BTC => AssetConfig {
                default_vol: Float { bits: 0x3fe0_0000_0000_0000 },
                binary_vol_multiplier: Float { bits: 0x4000_0000_0000_0000 },
                excess_kurtosis: Float { bits: 0x401c_0000_0000_0000 },
                prob_floor: Float { bits: 0x3f9e_b851_eb85_1eb8 },
                prob_ceiling: Float { bits: 0x3fee_6666_6666_6666 },
            },
            CryptoAsset::ETH => AssetConfig {
                default_vol: Float { bits: 0x3fe3_3333_3333_3333 },
                binary_vol_multiplier: Float { bits: 0x4006_6666_6666_6666 },
                excess_kurtosis: Float { bits: 0x4020_0000_0000_0000 },
                prob_floor: Float { bits: 0x3f9e_b851_eb85_1eb8 },
                prob_ceiling: Float { bits: 0x3fee_6666_6666_6666 },
            },
            CryptoAsset::SOL => AssetConfig {
                default_vol: Float { bits: 0x3fec_cccc_cccc_cccd },
                binary_vol_multiplier: Float { bits: 0x4008_0000_0000_0000 },
                excess_kurtosis: Float { bits: 0x4024_0000_0000_0000 },
                prob_floor: Float { bits: 0x3f9e_b851_eb85_1eb8 },
                prob_ceiling: Float { bits: 0x3fee_6666_6666_6666 },
            },
            CryptoAsset::XRP => AssetConfig {
                default_vol: Float { bits: 0x3fe9_9999_9999_999a },
                binary_vol_multiplier: Float { bits: 0x4008_0000_0000_0000 },
                excess_kurtosis: Float { bits: 0x4022_0000_0000_0000 },
                prob_floor: Float { bits: 0x3f9e_b851_eb85_1eb8 },
                prob_ceiling: Float { bits: 0x3fee_6666_6666_6666 },
            },
            CryptoAsset::DOGE => AssetConfig {
                default_vol: Float { bits: 0x3ff0_0000_0000_0000 },
                binary_vol_multiplier: Float { bits: 0x4009_9999_9999_999a },
                excess_kurtosis: Float { bits: 0x4028_0000_0000_0000 },
                prob_floor: Float { bits: 0x3f9e_b851_eb85_1eb8 },
                prob_ceiling: Float { bits: 0x3fee_6666_6666_6666 },
            },
        }
    }

    /// The tuning of an asset with another ceiling, and with a multiplier scaled by the caller.
    pub fn for_asset_with_overrides(asset: CryptoAsset, scaled_multiplier: Float, prob_ceiling: Float) -> (r: Self)
        ensures
            r == overridden(asset, scaled_multiplier, prob_ceiling),
    {
        let mut config: AssetConfig = AssetConfig::for_asset(asset);
        config.binary_vol_multiplier = scaled_multiplier;
        config.prob_ceiling = prob_ceiling;
        config
    }
}

/// The volatility to use: the best known, failing that the default.
pub open spec fn volatility_used(best: Option<Float>, default_vol: Float) -> Float {
    match best {
        Some(v) => v,
        None => default_vol,
    }
}

/// The volatility to use.
pub fn estimate_volatility(state: &CryptoStateInner, default_vol: Float) -> (r: Float)
    ensures
        r == volatility_used(state.best_vol, default_vol),
{
    match state.best_vol {
        Some(v) => v,
        None => default_vol,
    }
}

/// The model has something to work on: a price and a strike.
pub open spec fn priced(price: Float, strike: Float) -> bool {
    !(price.le(Float { bits: 0 }) || strike.le(Float { bits: 0 }))
}

/// Whether the model has anything to work on.
pub fn is_priced(shadow_rti: Float, strike: Float) -> (r: bool)
    ensures
        r == priced(shadow_rti, strike),
{
    !(shadow_rti.less_eq(Float::from_bits(0)) || strike.less_eq(Float::from_bits(0)))
}

/// How far settlement is.
#[derive(Clone, Copy, Debug, PartialEq, Eq, Structural)]
pub enum SettlementRegime {
    /// Nothing will change any more.
    Expired,
    /// The price at one moment decides, near enough.
    Far,
    /// Between the two.
    Transition,
    /// The average over the window decides.
    Averaging,
}

pub open spec fn regime_of(seconds: Float) -> SettlementRegime {
    if seconds.le(Float { bits: EXPIRED_SECS_BITS }) {
        SettlementRegime::Expired
    } else if (Float { bits: FAR_SECS_BITS }).lt(seconds) {
        SettlementRegime::Far
    } else if seconds.le(Float { bits: WINDOW_SECS_BITS }) {
        SettlementRegime::Averaging
    } else {
        SettlementRegime::Transition
    }
}

/// How far settlement is.
pub fn settlement_regime(seconds_remaining: Float) -> (r: SettlementRegime)
    ensures
        r == regime_of(seconds_remaining),
{
    if seconds_remaining.less_eq(Float::from_bits(EXPIRED_SECS_BITS)) {
        SettlementRegime::Expired
    } else if Float::from_bits(FAR_SECS_BITS).less(seconds_remaining) {
        SettlementRegime::Far
    } else if seconds_remaining.less_eq(Float::from_bits(WINDOW_SECS_BITS)) {
        SettlementRegime::Averaging
    } else {
        SettlementRegime::Transition
    }
}

/// The probability where nothing moves any more: one if the price has reached the strike.
pub open spec fn certain(price: Float, strike: Float) -> Float {
    Float { bits: if strike.le(price) { ONE_BITS } else { 0 } }
}

/// The probability where nothing moves any more.
pub fn certain_outcome(price: Float, strike: Float) -> (r: Float)
    ensures
        r == certain(price, strike),
{
    if strike.less_eq(price) { Float::from_bits(ONE_BITS) } else { Float::from_bits(0) }
}

/// There is volatility to work on.
pub open spec fn moves(vol_period: Float) -> bool {
    !vol_period.le(Float { bits: 0 })
}

/// A strike lies so far out that tails count.
pub open spec fn in_tail(z_score: Float) -> bool {
    (Float { bits: TAIL_SCORE_BITS }).lt(z_score)
}

/// A spread is so wide that part of the edge is given up.
pub open spec fn wide(spread: Float) -> bool {
    (Float { bits: WIDE_SPREAD_BITS }).lt(spread)
}

/// Whether the standard model has any volatility to work on.
pub fn has_volatility(vol_period: Float) -> (r: bool)
    ensures
        r == moves(vol_period),
{
    !vol_period.less_eq(Float::from_bits(0))
}

/// Whether a strike lies so far out that tails count.
pub fn is_tail(z_score: Float) -> (r: bool)
    ensures
        r == in_tail(z_score),
{
    Float::from_bits(TAIL_SCORE_BITS).less(z_score)
}

/// What the averaging model comes to.
#[derive(Clone, Copy, Debug, PartialEq, Eq, Structural)]
pub enum AveragingCase {
    /// The average is settled: the price against the strike decides.
    Settled,
    /// What is observed already exceeds the strike's share.
    NearCertain,
    /// Nothing moves any more: the price against the remaining strike decides.
    Still,
    /// The model applies.
    Open,
}

pub open spec fn averaging(remaining_share: Float, remaining_strike: Float, vol: Float) -> AveragingCase {
    if remaining_share.lt(Float { bits: LEAST_SHARE_BITS }) {
        AveragingCase::Settled
    } else if remaining_strike.le(Float { bits: 0 }) {
        AveragingCase::NearCertain
    } else if vol.le(Float { bits: LEAST_VOL_BITS }) {
        AveragingCase::Still
    } else {
        AveragingCase::Open
    }
}

/// What the averaging model comes to.
pub fn averaging_case(remaining_share: Float, remaining_strike: Float, vol: Float) -> (r: AveragingCase)
    ensures
        r == averaging(remaining_share, remaining_strike, vol),
{
    if remaining_share.less(Float::from_bits(LEAST_SHARE_BITS)) {
        AveragingCase::Settled
    } else if remaining_strike.less_eq(Float::from_bits(0)) {
        AveragingCase::NearCertain
    } else if vol.less_eq(Float::from_bits(LEAST_VOL_BITS)) {
        AveragingCase::Still
    } else {
        AveragingCase::Open
    }
}

/// Which sources speak for a fair value.
#[derive(Clone, Copy, Debug, PartialEq, Eq, Structural)]
pub struct Support {
    pub coinbase: bool,
    pub binance: bool,
    pub dvol: bool,
    pub perp: bool,
    pub reliable: bool,
}

/// The sources that speak for a fair value.
pub open spec fn supported(state: CryptoStateInner) -> Support {
    Support {
        coinbase: above_zero(state.coinbase_spot),
        binance: above_zero(state.binance_spot),
        dvol: above_zero(state.dvol),
        perp: above_zero(state.perp_price),
        reliable: state.rti_reliable,
    }
}

/// Which sources speak for a fair value.
pub fn support(state: &CryptoStateInner) -> (r: Support)
    ensures
        r == supported(*state),
{
    Support {
        coinbase: state.coinbase_spot.positive(),
        binance: state.binance_spot.positive(),
        dvol: state.dvol.positive(),
        perp: state.perp_price.positive(),
        reliable: state.rti_reliable,
    }
}

/// Whether a spread is so wide that part of the edge is given up.
pub fn is_wide(spread: Float) -> (r: bool)
    ensures
        r == wide(spread),
{
    Float::from_bits(WIDE_SPREAD_BITS).less(spread)
}

/// What a stake is computed from.
#[derive(Clone, Copy, Debug, PartialEq, Eq, Structural)]
pub struct KellyInput {
    pub win_prob: Float,
    pub lose_prob: Float,
    pub win_payout: Float,
    pub lose_payout: Float,
}

/// What a stake is computed from: the model's probability and the rest to one, the price and
/// the rest to one, taken by the side. Without a stake at prices beyond the bounds, and where
/// nothing can be won.
pub open spec fn stake_basis(
    prob: Float,
    prob_rest: Float,
    price: Float,
    price_rest: Float,
    direction: Seq<char>,
    least: Float,
    most: Float,
) -> Option<KellyInput> {
    let k = if direction == "yes"@ {
        KellyInput { win_prob: prob, lose_prob: prob_rest, win_payout: price_rest, lose_payout: price }
    } else {
        KellyInput { win_prob: prob_rest, lose_prob: prob, win_payout: price, lose_payout: price_rest }
    };
    if !(least.le(price) && price.le(most)) || k.win_payout.le(Float { bits: 0 }) { None } else { Some(k) }
}

/// What a stake is computed from; `None` where there is none.
pub fn kelly_input(
    prob: Float,
    prob_rest: Float,
    price: Float,
    price_rest: Float,
    direction: &str,
    fill_min: Float,
    fill_max: Float,
) -> (r: Option<KellyInput>)
    ensures
        r == stake_basis(prob, prob_rest, price, price_rest, direction@, fill_min, fill_max),
{
    if !(fill_min.less_eq(price) && price.less_eq(fill_max)) {
        return None;
    }
    let k: KellyInput = if same_text(direction, "yes") {
        KellyInput { win_prob: prob, lose_prob: prob_rest, win_payout: price_rest, lose_payout: price }
    } else {
        KellyInput { win_prob: prob_rest, lose_prob: prob, win_payout: price, lose_payout: price_rest }
    };
    if k.win_payout.less_eq(Float::from_bits(0)) { None } else { Some(k) }
}

/// As settlement comes nearer, the regimes follow each other in one order: far, transition,
/// averaging, expired.
pub proof fn regimes_follow_each_other(near: Float, far: Float)
    requires
        near.le(far),
    ensures
        regime_of(far) is Expired ==> regime_of(near) is Expired,
        regime_of(far) is Averaging ==> regime_of(near) is Averaging || regime_of(near) is Expired,
        regime_of(far) is Transition ==> !(regime_of(near) is Far),
{
}

/// Buying no at a price is buying yes with everything turned round.
pub proof fn sides_mirror_each_other(
    prob: Float,
    prob_rest: Float,
    price: Float,
    price_rest: Float,
    least: Float,
    most: Float,
)
    requires
        least.le(price) && price.le(most),
        least.le(price_rest) && price_rest.le(most),
    ensures
        stake_basis(prob, prob_rest, price, price_rest, "no"@, least, most) == stake_basis(
            prob_rest,
            prob,
            price_rest,
            price,
            "yes"@,
            least,
            most,
        ),
{
    reveal_strlit("yes");
    reveal_strlit("no");
    assert("yes"@.len() != "no"@.len());
}

/// The side to take: yes if the model gives more than the market asks, else no.
pub open spec fn favoured(probability: Float, market_price: Float) -> Seq<char> {
    if market_price.lt(probability) { "yes"@ } else { "no"@ }
}

/// The edge is the first of these less the second.
pub open spec fn edge_parts(probability: Float, market_price: Float) -> (Float, Float) {
    if market_price.lt(probability) { (probability, market_price) } else { (market_price, probability) }
}

/// The side to take, and the edge on it: the first of two numbers less the second.
pub fn determine_direction(model_prob: Float, market_price: Float) -> (r: (&'static str, (Float, Float)))
    ensures
        r.0@ == favoured(model_prob, market_price),
        r.1 == edge_parts(model_prob, market_price),
{
    if market_price.less(model_prob) {
        ("yes", (model_prob, market_price))
    } else {
        ("no", (market_price, model_prob))
    }
}

/// At a price within the bounds there is a stake exactly where the side taken can win something.
/// It wins with the probability of its side and loses with the rest; a yes pays the rest of the
/// price and costs the price, a no pays the price and costs the rest.
pub proof fn stakes_need_a_gain_within_bounds(
    prob: Float,
    prob_rest: Float,
    price: Float,
    price_rest: Float,
    direction: Seq<char>,
    least: Float,
    most: Float,
)
    requires
        !price.not_a_number() && !price_rest.not_a_number(),
        !least.not_a_number() && !most.not_a_number(),
    ensures
        ({
            let basis = stake_basis(prob, prob_rest, price, price_rest, direction, least, most);
            let inside = least.rank() <= price.rank() <= most.rank();
            &&& direction == "yes"@ ==> (basis is Some <==> inside && price_rest.rank() > 0)
            &&& direction != "yes"@ ==> (basis is Some <==> inside && price.rank() > 0)
            &&& basis is Some && direction == "yes"@ ==> basis->0.win_prob == prob && basis->0.lose_prob == prob_rest
                && basis->0.win_payout == price_rest && basis->0.lose_payout == price
            &&& basis is Some && direction != "yes"@ ==> basis->0.win_prob == prob_rest && basis->0.lose_prob == prob
                && basis->0.win_payout == price && basis->0.lose_payout == price_rest
        }),
{
}

/// A wider range of prices never takes a stake away, nor does it change one.
pub proof fn wider_bounds_keep_stakes(
    prob: Float,
    prob_rest: Float,
    price: Float,
    price_rest: Float,
    direction: Seq<char>,
    least: Float,
    most: Float,
    lower: Float,
    higher: Float,
)
    requires
        lower.le(least),
        most.le(higher),
        stake_basis(prob, prob_rest, price, price_rest, direction, least, most) is Some,
    ensures
        stake_basis(prob, prob_rest, price, price_rest, direction, lower, higher) == stake_basis(
            prob,
            prob_rest,
            price,
            price_rest,
            direction,
            least,
            most,
        ),
{
}

/// A contract has expired up to a hundredth of a second before settlement, is averaged up to a
/// minute, in transition up to five minutes, and far beyond that.
pub proof fn regimes_meet_at_their_bounds(seconds: Float)
    requires
        !seconds.not_a_number(),
    ensures
        regime_of(seconds) is Expired <==> seconds.rank() <= 0x3f84_7ae1_47ae_147b,
        regime_of(seconds) is Averaging <==> 0x3f84_7ae1_47ae_147b < seconds.rank() <= 0x404e_0000_0000_0000,
        regime_of(seconds) is Transition <==> 0x404e_0000_0000_0000 < seconds.rank() <= 0x4072_c000_0000_0000,
        regime_of(seconds) is Far <==> 0x4072_c000_0000_0000 < seconds.rank(),
{
}

/// The average is settled below a hundredth of the window. Until that, it is near certain once
/// nothing of the strike remains, still where nothing moves any more, and open otherwise.
pub proof fn averages_settle_in_order(share: Float, strike: Float, vol: Float)
    requires
        !share.not_a_number() && !strike.not_a_number() && !vol.not_a_number(),
    ensures
        averaging(share, strike, vol) is Settled <==> share.rank() < 0x3f84_7ae1_47ae_147b,
        averaging(share, strike, vol) is NearCertain <==> share.rank() >= 0x3f84_7ae1_47ae_147b && strike.rank() <= 0,
        averaging(share, strike, vol) is Still <==> share.rank() >= 0x3f84_7ae1_47ae_147b && strike.rank() > 0
            && vol.rank() <= 0x3d71_9799_812d_ea11,
        averaging(share, strike, vol) is Open <==> share.rank() >= 0x3f84_7ae1_47ae_147b && strike.rank() > 0
            && vol.rank() > 0x3d71_9799_812d_ea11,
{
}

/// Yes is favoured exactly where the model gives more than the market asks. With the two
/// exchanged the other side is favoured, unless they are equal.
pub proof fn the_cheaper_side_is_favoured(probability: Float, price: Float)
    requires
        !probability.not_a_number() && !price.not_a_number(),
    ensures
        favoured(probability, price) == "yes"@ <==> price.rank() < probability.rank(),
        favoured(probability, price) == "no"@ <==> probability.rank() <= price.rank(),
        probability.rank() != price.rank() ==> favoured(probability, price) != favoured(price, probability),
{
    reveal_strlit("yes");
    reveal_strlit("no");
    assert("yes"@.len() != "no"@.len());
}

/// The edge is the greater of probability and price less the lesser, so that it is never negative
/// and does not depend on which of them is which.
pub proof fn edges_are_distances(probability: Float, price: Float)
    requires
        !probability.not_a_number() && !price.not_a_number(),
    ensures
        ({
            let (more, less) = edge_parts(probability, price);
            &&& more.rank() >= less.rank()
            &&& (more == probability && less == price) || (more == price && less == probability)
        }),
{
}

/// The surer assets are the calmer ones: volatility and tails of Bitcoin are the least, those of
/// Dogecoin the greatest, and every probability is kept between 0.03 and 0.95.
pub proof fn assets_are_tuned_by_their_risk(a: CryptoAsset)
    ensures
        tuning(a).prob_floor.bits == 0x3f9e_b851_eb85_1eb8,
        tuning(a).prob_ceiling.bits == 0x3fee_6666_6666_6666,
        tuning(a).default_vol.bits == (match a {
            CryptoAsset::BTC => 0x3fe0_0000_0000_0000u64,
            CryptoAsset::ETH => 0x3fe3_3333_3333_3333,
            CryptoAsset::SOL => 0x3fec_cccc_cccc_cccd,
            CryptoAsset::XRP => 0x3fe9_9999_9999_999a,
            CryptoAsset::DOGE => 0x3ff0_0000_0000_0000,
        }),
        tuning(a).binary_vol_multiplier.bits == (match a {
            CryptoAsset::BTC => 0x4000_0000_0000_0000u64,
            CryptoAsset::ETH => 0x4006_6666_6666_6666,
            CryptoAsset::SOL => 0x4008_0000_0000_0000,
            CryptoAsset::XRP => 0x4008_0000_0000_0000,
            CryptoAsset::DOGE => 0x4009_9999_9999_999a,
        }),
        tuning(a).excess_kurtosis.bits == (match a {
            CryptoAsset::BTC => 0x401c_0000_0000_0000u64,
            CryptoAsset::ETH => 0x4020_0000_0000_0000,
            CryptoAsset::SOL => 0x4024_0000_0000_0000,
            CryptoAsset::XRP => 0x4022_0000_0000_0000,
            CryptoAsset::DOGE => 0x4028_0000_0000_0000,
        }),
        tuning(CryptoAsset::BTC).default_vol.le(tuning(a).default_vol),
        tuning(a).default_vol.le(tuning(CryptoAsset::DOGE).default_vol),
        tuning(CryptoAsset::BTC).excess_kurtosis.le(tuning(a).excess_kurtosis),
        tuning(a).excess_kurtosis.le(tuning(CryptoAsset::DOGE).excess_kurtosis),
{
}

/// The model works exactly where both the price and the strike are above zero.
pub proof fn models_need_price_and_strike(price: Float, strike: Float)
    requires
        !price.not_a_number() && !strike.not_a_number(),
    ensures
        priced(price, strike) <==> price.rank() > 0 && strike.rank() > 0,
{
}

/// Where nothing moves any more the outcome is one from the strike on and zero below it.
pub proof fn outcomes_turn_at_the_strike(price: Float, strike: Float)
    requires
        !price.not_a_number() && !strike.not_a_number(),
    ensures
        price.rank() >= strike.rank() ==> certain(price, strike).bits == 0x3ff0_0000_0000_0000,
        price.rank() < strike.rank() ==> certain(price, strike).bits == 0,
{
}

/// A score counts as a tail beyond two, a spread as wide beyond 0.12, and volatility counts above
/// zero.
pub proof fn marks_of_the_model(x: Float)
    requires
        !x.not_a_number(),
    ensures
        in_tail(x) <==> x.rank() > 0x4000_0000_0000_0000,
        wide(x) <==> x.rank() > 0x3fbe_b851_eb85_1eb8,
        moves(x) <==> x.rank() > 0,
{
}

/// The best volatility known is used, whatever the default; only without one is it the default.
pub proof fn known_volatility_comes_first(best: Option<Float>, default_vol: Float, other: Float)
    ensures
        best is Some ==> Some(volatility_used(best, default_vol)) == best,
        best is Some ==> volatility_used(best, default_vol) == volatility_used(best, other),
        best is None ==> volatility_used(best, default_vol) == default_vol,
{
}

/// A source speaks for a fair value exactly if its own price is above zero.
pub proof fn sources_speak_for_themselves(s: CryptoStateInner)
    requires
        !s.coinbase_spot.not_a_number() && !s.binance_spot.not_a_number(),
        !s.dvol.not_a_number() && !s.perp_price.not_a_number(),
    ensures
        supported(s).coinbase <==> s.coinbase_spot.rank() > 0,
        supported(s).binance <==> s.binance_spot.rank() > 0,
        supported(s).dvol <==> s.dvol.rank() > 0,
        supported(s).perp <==> s.perp_price.rank() > 0,
        supported(s).reliable <==> s.rti_reliable,
{
}

/// Another ceiling and another multiplier take the place of the asset's own, and nothing else does.
pub proof fn overrides_change_ceiling_and_multiplier(asset: CryptoAsset, multiplier: Float, ceiling: Float)
    ensures
        ({
            let c = overridden(asset, multiplier, ceiling);
            &&& c.binary_vol_multiplier == multiplier && c.prob_ceiling == ceiling
            &&& c.default_vol == tuning(asset).default_vol && c.excess_kurtosis == tuning(asset).excess_kurtosis
            &&& c.prob_floor == tuning(asset).prob_floor
        }),
        overridden(asset, tuning(asset).binary_vol_multiplier, tuning(asset).prob_ceiling) == tuning(asset),
{
}

} // verus!
