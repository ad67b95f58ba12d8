//! What the crypto feeds have said, and the index estimate drawn from it.
//!
//! Venue prices are blended, and basis and volatility are scaled, by whoever holds the numbers
//! as numbers; here it is decided which of them count.
use vstd::prelude::*;

use crate::float::{Float, ONE_BITS};
use crate::time::{elapsed, secs, since};

verus! {

/// 0.5
pub const HALF_BITS: u64 = 0x3fe0_0000_0000_0000;

/// 0.1
pub const TENTH_BITS: u64 = 0x3fb9_9999_9999_999a;

/// How venues are weighed in the index estimate.
#[derive(Clone, Copy, Debug, PartialEq, Eq, Structural)]
pub struct RtiConfig {
    pub stale_threshold_secs: u64,
    pub outlier_threshold_pct: Float,
    pub min_venues: usize,
}

impl Default for RtiConfig {
    fn default() -> (r: Self)
        ensures
            r == default_rti_config(),
    {
        RtiConfig {
            stale_threshold_secs: 5,
            outlier_threshold_pct: Float { bits: HALF_BITS },
            min_venues: 2,
        }
    }
}

pub open spec fn default_rti_config() -> RtiConfig {
    RtiConfig {
        stale_threshold_secs: 5,
        outlier_threshold_pct: Float { bits: HALF_BITS },
        min_venues: 2,
    }
}

/// The state of one asset over all its feeds. Moments are in nanoseconds.
#[derive(Clone, Copy, Debug, PartialEq, Eq, Structural)]
pub struct CryptoStateInner {
    pub coinbase_spot: Float,
    pub coinbase_bid: Float,
    pub coinbase_ask: Float,
    pub coinbase_updated: Option<u64>,
    pub coinbase_trade_volume_5m: Float,
    pub binance_spot: Float,
    pub binance_spot_vol_realized: Option<Float>,
    pub binance_spot_vol_ewma: Option<Float>,
    pub binance_spot_bars_count: usize,
    pub binance_spot_updated: Option<u64>,
    pub binance_trade_volume_5m: Float,
    pub perp_price: Float,
    pub mark_price: Float,
    pub funding_rate: Float,
    pub futures_obi: Float,
    pub futures_updated: Option<u64>,
    pub dvol: Float,
    pub dvol_updated: Option<u64>,
    /// The index estimate.
    pub shadow_rti: Float,
    pub basis: Float,
    pub best_vol: Option<Float>,
    pub rti_reliable: bool,
    pub rti_config: RtiConfig,
}

/// Where the index estimate comes from.
#[derive(Clone, Copy, Debug, PartialEq, Eq, Structural)]
pub enum IndexSource {
    /// Both venues count: their prices are blended.
    Blend,
    /// One price is taken as it is.
    Take(Float),
    /// Nothing usable: the estimate stays.
    Keep,
}

/// What only arithmetic on the numbers can supply.
#[derive(Clone, Copy, Debug, PartialEq, Eq, Structural)]
pub struct Computed {
    /// The blend of both venue prices; `None` where the weights do not sum to a positive number.
    pub blend: Option<Float>,
    /// The perpetual price less the index estimate.
    pub difference: Float,
    /// The volatility index as a fraction.
    pub dvol_fraction: Float,
}

/// A number above zero.
pub open spec fn above_zero(x: Float) -> bool {
    (Float { bits: 0 }).lt(x)
}

/// A venue counts if it has a price that is no older than the limit.
pub open spec fn counts(price: Float, updated: Option<u64>, limit: u64, now: u64) -> bool {
    above_zero(price) && match updated {
        Some(t) => since(now, t) <= secs(limit as int),
        None => false,
    }
}

fn venue_counts(price: Float, updated: Option<u64>, limit: u64, now: u64) -> (r: bool)
    ensures
        r == counts(price, updated, limit, now),
{
    price.positive() && match updated {
        Some(t) => elapsed(now, t) as u128 <= (limit as u128) * 1_000_000_000u128,
        None => false,
    }
}

/// The weight of a venue in the blend: the root of its volume, at least 1; but for a venue
/// whose price lies further from the middle than `outlier`, at most 0.1.
pub open spec fn weight(root_volume: Float, deviation: Float, outlier: Float) -> Float {
    let raw = root_volume.max_of(Float { bits: ONE_BITS });
    if outlier.lt(deviation) { raw.min_of(Float { bits: TENTH_BITS }) } else { raw }
}

/// The weight of a venue in the blend.
pub fn venue_weight(root_volume: Float, deviation: Float, outlier: Float) -> (r: Float)
    ensures
        r == weight(root_volume, deviation, outlier),
{
    let raw: Float = root_volume.larger(Float::from_bits(ONE_BITS));
    if outlier.less(deviation) { raw.smaller(Float::from_bits(TENTH_BITS)) } else { raw }
}

/// A venue that is an outlier weighs 0.1, any other at least 1.
pub proof fn outliers_weigh_little(root_volume: Float, deviation: Float, outlier: Float)
    ensures
        outlier.lt(deviation) ==> weight(root_volume, deviation, outlier) == (Float { bits: TENTH_BITS }),
        !outlier.lt(deviation) ==> (Float { bits: ONE_BITS }).le(weight(root_volume, deviation, outlier)),
{
}

/// The state before any feed has said anything.
pub open spec fn blank(rti_config: RtiConfig) -> CryptoStateInner {
    let zero = Float { bits: 0 };
    CryptoStateInner {
        coinbase_spot: zero,
        coinbase_bid: zero,
        coinbase_ask: zero,
        coinbase_updated: None,
        coinbase_trade_volume_5m: zero,
        binance_spot: zero,
        binance_spot_vol_realized: None,
        binance_spot_vol_ewma: None,
        binance_spot_bars_count: 0,
        binance_spot_updated: None,
        binance_trade_volume_5m: zero,
        perp_price: zero,
        mark_price: zero,
        funding_rate: zero,
        futures_obi: Float { bits: HALF_BITS },
        futures_updated: None,
        dvol: zero,
        dvol_updated: None,
        shadow_rti: zero,
        basis: zero,
        best_vol: None,
        rti_reliable: false,
        rti_config,
    }
}

impl CryptoStateInner {
    pub open spec fn coinbase_counts(self, now: u64) -> bool {
        counts(self.coinbase_spot, self.coinbase_updated, self.rti_config.stale_threshold_secs, now)
    }

    pub open spec fn binance_counts(self, now: u64) -> bool {
        counts(self.binance_spot, self.binance_spot_updated, self.rti_config.stale_threshold_secs, now)
    }

    /// The source of the index estimate: the venues that count, failing those the mark price,
    /// failing that the perpetual price.
    pub open spec fn source(self, now: u64) -> IndexSource {
        if self.coinbase_counts(now) && self.binance_counts(now) {
            IndexSource::Blend
        } else if self.coinbase_counts(now) {
            IndexSource::Take(self.coinbase_spot)
        } else if self.binance_counts(now) {
            IndexSource::Take(self.binance_spot)
        } else if above_zero(self.mark_price) {
            IndexSource::Take(self.mark_price)
        } else if above_zero(self.perp_price) {
            IndexSource::Take(self.perp_price)
        } else {
            IndexSource::Keep
        }
    }

    /// The index estimate that the source gives.
    pub open spec fn estimate(self, now: u64, blend: Option<Float>) -> Float {
        match self.source(now) {
            IndexSource::Blend => match blend {
                Some(x) => x,
                None => self.shadow_rti,
            },
            IndexSource::Take(x) => x,
            IndexSource::Keep => self.shadow_rti,
        }
    }

    pub open spec fn venue_count(self, now: u64) -> int {
        (if self.coinbase_counts(now) { 1int } else { 0 }) + (if self.binance_counts(now) { 1int } else { 0 })
    }

    /// The volatility to use: the index first, then the weighted one, then the realized one. A
    /// weighted one that is not positive keeps what was there.
    pub open spec fn volatility(self, dvol_fraction: Float) -> Option<Float> {
        if above_zero(self.dvol) {
            Some(dvol_fraction)
        } else if let Some(ewma) = self.binance_spot_vol_ewma {
            if above_zero(ewma) { Some(ewma) } else { self.best_vol }
        } else if let Some(realized) = self.binance_spot_vol_realized {
            if above_zero(realized) { Some(realized) } else { self.best_vol }
        } else {
            self.best_vol
        }
    }

    /// The state with its derived fields brought up to date.
    pub open spec fn derived(self, now: u64, c: Computed) -> CryptoStateInner {
        let rti = self.estimate(now, c.blend);
        CryptoStateInner {
            shadow_rti: rti,
            rti_reliable: self.venue_count(now) >= self.rti_config.min_venues,
            basis: if above_zero(self.perp_price) && above_zero(rti) {
                c.difference
            } else {
                Float { bits: 0 }
            },
            best_vol: self.volatility(c.dvol_fraction),
            ..self
        }
    }

    /// Coinbase has told its prices and its volume.
    pub open spec fn coinbase_told(self, spot: Float, bid: Float, ask: Float, volume: Float, now: u64) -> CryptoStateInner {
        CryptoStateInner {
            coinbase_spot: spot,
            coinbase_bid: bid,
            coinbase_ask: ask,
            coinbase_trade_volume_5m: volume,
            coinbase_updated: Some(now),
            ..self
        }
    }

    /// Binance has told its spot price, volatilities and volume.
    pub open spec fn binance_told(
        self,
        spot: Float,
        realized_vol: Option<Float>,
        ewma_vol: Option<Float>,
        bars_count: usize,
        volume: Float,
        now: u64,
    ) -> CryptoStateInner {
        CryptoStateInner {
            binance_spot: spot,
            binance_spot_vol_realized: realized_vol,
            binance_spot_vol_ewma: ewma_vol,
            binance_spot_bars_count: bars_count,
            binance_trade_volume_5m: volume,
            binance_spot_updated: Some(now),
            ..self
        }
    }

    /// Binance has told its futures prices.
    pub open spec fn futures_told(self, perp: Float, mark: Float, funding: Float, obi: Float, now: u64) -> CryptoStateInner {
        CryptoStateInner {
            perp_price: perp,
            mark_price: mark,
            funding_rate: funding,
            futures_obi: obi,
            futures_updated: Some(now),
            ..self
        }
    }

    /// Deribit has told its volatility index.
    pub open spec fn deribit_told(self, dvol: Float, now: u64) -> CryptoStateInner {
        CryptoStateInner { dvol, dvol_updated: Some(now), ..self }
    }

    /// A state that waits for its first data.
    pub fn with_config(rti_config: RtiConfig) -> (r: Self)
        ensures
            r == blank(rti_config),
    {
        let zero: Float = Float::from_bits(0);
        CryptoStateInner {
            coinbase_spot: zero,
            coinbase_bid: zero,
            coinbase_ask: zero,
            coinbase_updated: None,
            coinbase_trade_volume_5m: zero,
            binance_spot: zero,
            binance_spot_vol_realized: None,
            binance_spot_vol_ewma: None,
            binance_spot_bars_count: 0,
            binance_spot_updated: None,
            binance_trade_volume_5m: zero,
            perp_price: zero,
            mark_price: zero,
            funding_rate: zero,
            futures_obi: Float { bits: HALF_BITS },
            futures_updated: None,
            dvol: zero,
            dvol_updated: None,
            shadow_rti: zero,
            basis: zero,
            best_vol: None,
            rti_reliable: false,
            rti_config,
        }
    }

    /// Where the index estimate comes from at `now`.
    pub fn index_source(&self, now: u64) -> (r: IndexSource)
        ensures
            r == self.source(now),
    {
        let limit: u64 = self.rti_config.stale_threshold_secs;
        let coinbase: bool = venue_counts(self.coinbase_spot, self.coinbase_updated, limit, now);
        let binance: bool = venue_counts(self.binance_spot, self.binance_spot_updated, limit, now);
        if coinbase && binance {
            IndexSource::Blend
        } else if coinbase {
            IndexSource::Take(self.coinbase_spot)
        } else if binance {
            IndexSource::Take(self.binance_spot)
        } else if self.mark_price.positive() {
            IndexSource::Take(self.mark_price)
        } else if self.perp_price.positive() {
            IndexSource::Take(self.perp_price)
        } else {
            IndexSource::Keep
        }
    }

    /// Brings the derived fields up to date.
    pub fn recompute_derived(&mut self, now: u64, computed: Computed)
        ensures
            *final(self) == old(self).derived(now, computed),
    {
        let limit: u64 = self.rti_config.stale_threshold_secs;
        let mut venues: usize = 0;
        if venue_counts(self.coinbase_spot, self.coinbase_updated, limit, now) {
            venues = venues + 1;
        }
        if venue_counts(self.binance_spot, self.binance_spot_updated, limit, now) {
            venues = venues + 1;
        }
        match self.index_source(now) {
            IndexSource::Blend => {
                if let Some(x) = computed.blend {
                    self.shadow_rti = x;
                }
            },
            IndexSource::Take(x) => {
                self.shadow_rti = x;
            },
            IndexSource::Keep => {},
        }
        self.rti_reliable = venues >= self.rti_config.min_venues;
        self.basis = if self.perp_price.positive() && self.shadow_rti.positive() {
            computed.difference
        } else {
            Float::from_bits(0)
        };
        if self.dvol.positive() {
            self.best_vol = Some(computed.dvol_fraction);
        } else if let Some(ewma) = self.binance_spot_vol_ewma {
            if ewma.positive() {
                self.best_vol = Some(ewma);
            }
        } else if let Some(realized) = self.binance_spot_vol_realized {
            if realized.positive() {
                self.best_vol = Some(realized);
            }
        }
    }

    /// Coinbase has spoken.
    pub fn update_coinbase(&mut self, spot: Float, bid: Float, ask: Float, trade_volume_5m: Float, now: u64)
        ensures
            *final(self) == old(self).coinbase_told(spot, bid, ask, trade_volume_5m, now),
    {
        self.coinbase_spot = spot;
        self.coinbase_bid = bid;
        self.coinbase_ask = ask;
        self.coinbase_trade_volume_5m = trade_volume_5m;
        self.coinbase_updated = Some(now);
    }

    /// Binance spot has spoken.
    pub fn update_binance_spot(
        &mut self,
        spot: Float,
        realized_vol: Option<Float>,
        ewma_vol: Option<Float>,
        bars_count: usize,
        trade_volume_5m: Float,
        now: u64,
    )
        ensures
            *final(self) == old(self).binance_told(spot, realized_vol, ewma_vol, bars_count, trade_volume_5m, now),
    {
        self.binance_spot = spot;
        self.binance_spot_vol_realized = realized_vol;
        self.binance_spot_vol_ewma = ewma_vol;
        self.binance_spot_bars_count = bars_count;
        self.binance_trade_volume_5m = trade_volume_5m;
        self.binance_spot_updated = Some(now);
    }

    /// Binance futures have spoken.
    pub fn update_binance_futures(
        &mut self,
        perp_price: Float,
        mark_price: Float,
        funding_rate: Float,
        obi: Float,
        now: u64,
    )
        ensures
            *final(self) == old(self).futures_told(perp_price, mark_price, funding_rate, obi, now),
    {
        self.perp_price = perp_price;
        self.mark_price = mark_price;
        self.funding_rate = funding_rate;
        self.futures_obi = obi;
        self.futures_updated = Some(now);
    }

    /// Deribit has spoken.
    pub fn update_deribit(&mut self, dvol: Float, now: u64)
        ensures
            *final(self) == old(self).deribit_told(dvol, now),
    {
        self.dvol = dvol;
        self.dvol_updated = Some(now);
    }
}

impl Default for CryptoStateInner {
    fn default() -> (r: Self)
        ensures
            r == blank(default_rti_config()),
    {
        CryptoStateInner::with_config(RtiConfig::default())
    }
}

/// A venue price that has just come counts at once, whatever the limit.
pub proof fn fresh_price_counts(s: CryptoStateInner, now: u64)
    requires
        s.coinbase_updated == Some(now),
        above_zero(s.coinbase_spot),
    ensures
        s.coinbase_counts(now),
        s.source(now) == IndexSource::Blend || s.source(now) == IndexSource::Take(s.coinbase_spot),
{
}

/// An estimate is never called reliable on fewer venues than the configuration asks for, and
/// never where it asks for more than two.
pub proof fn reliability_needs_venues(s: CryptoStateInner, now: u64, c: Computed)
    ensures
        s.derived(now, c).rti_reliable ==> s.venue_count(now) >= s.rti_config.min_venues,
        s.rti_config.min_venues > 2 ==> !s.derived(now, c).rti_reliable,
{
}

/// Bringing the derived fields up to date twice at one moment, with what belongs to the same
/// numbers, changes nothing further.
pub proof fn deriving_twice_is_deriving_once(s: CryptoStateInner, now: u64, c: Computed)
    ensures
        s.derived(now, c).derived(now, c) == s.derived(now, c),
{
}

/// A price above zero that was updated counts from then on as long as the threshold lasts, counted
/// in seconds, and at no moment after. No other price counts.
pub proof fn prices_count_until_they_are_stale(price: Float, updated: Option<u64>, limit_secs: u64, now: u64)
    requires
        !price.not_a_number(),
    ensures
        counts(price, updated, limit_secs, now) <==> price.rank() > 0 && updated is Some && now - updated->0
            <= limit_secs * 1_000_000_000,
{
}

/// A venue that counts goes on counting until its threshold has passed, and a longer threshold
/// never makes it stop earlier.
pub proof fn counting_ends_once(price: Float, updated: Option<u64>, limit: u64, longer: u64, earlier: u64, now: u64)
    requires
        earlier <= now,
        limit <= longer,
        counts(price, updated, limit, now),
    ensures
        counts(price, updated, limit, earlier),
        counts(price, updated, longer, now),
{
}

/// The index comes from both spot venues while both have a price that is not stale, from the one
/// that has, failing both from the mark price, failing that from the perpetual; it never comes
/// from a price that is not above zero, nor from a stale one.
pub proof fn index_comes_from_live_prices(s: CryptoStateInner, now: u64)
    requires
        !s.coinbase_spot.not_a_number() && !s.binance_spot.not_a_number(),
        !s.mark_price.not_a_number() && !s.perp_price.not_a_number(),
    ensures
        ({
            let span = s.rti_config.stale_threshold_secs * 1_000_000_000;
            let coinbase = s.coinbase_spot.rank() > 0 && s.coinbase_updated is Some && now - s.coinbase_updated->0
                <= span;
            let binance = s.binance_spot.rank() > 0 && s.binance_spot_updated is Some && now
                - s.binance_spot_updated->0 <= span;
            let source = s.source(now);
            &&& source is Blend <==> coinbase && binance
            &&& coinbase && !binance ==> source == IndexSource::Take(s.coinbase_spot)
            &&& binance && !coinbase ==> source == IndexSource::Take(s.binance_spot)
            &&& !coinbase && !binance && s.mark_price.rank() > 0 ==> source == IndexSource::Take(s.mark_price)
            &&& !coinbase && !binance && s.mark_price.rank() <= 0 && s.perp_price.rank() > 0 ==> source
                == IndexSource::Take(s.perp_price)
            &&& source is Keep <==> !coinbase && !binance && s.mark_price.rank() <= 0 && s.perp_price.rank() <= 0
            &&& source matches IndexSource::Take(x) ==> x.rank() > 0
        }),
{
}

/// What is derived follows the source: the index is the one price taken, or the blend where both
/// venues count and one could be made, and stays as it was otherwise.
pub proof fn derived_index_follows_its_source(s: CryptoStateInner, now: u64, c: Computed)
    ensures
        s.source(now) matches IndexSource::Take(x) ==> s.derived(now, c).shadow_rti == x,
        s.source(now) is Blend && c.blend is Some ==> Some(s.derived(now, c).shadow_rti) == c.blend,
        s.source(now) is Blend && c.blend is None ==> s.derived(now, c).shadow_rti == s.shadow_rti,
        s.source(now) is Keep ==> s.derived(now, c).shadow_rti == s.shadow_rti,
{
}

/// The index is reliable exactly if as many spot venues have a live price as are asked for: with
/// two asked for, both; with one, either; with none, always.
pub proof fn reliability_counts_live_venues(s: CryptoStateInner, now: u64, c: Computed)
    requires
        !s.coinbase_spot.not_a_number() && !s.binance_spot.not_a_number(),
    ensures
        ({
            let span = s.rti_config.stale_threshold_secs * 1_000_000_000;
            let coinbase = s.coinbase_spot.rank() > 0 && s.coinbase_updated is Some && now - s.coinbase_updated->0
                <= span;
            let binance = s.binance_spot.rank() > 0 && s.binance_spot_updated is Some && now
                - s.binance_spot_updated->0 <= span;
            let reliable = s.derived(now, c).rti_reliable;
            &&& s.rti_config.min_venues == 0 ==> reliable
            &&& s.rti_config.min_venues == 1 ==> (reliable <==> coinbase || binance)
            &&& s.rti_config.min_venues == 2 ==> (reliable <==> coinbase && binance)
            &&& s.rti_config.min_venues > 2 ==> !reliable
        }),
{
}

/// The basis is the difference told where both the perpetual and the new index are above zero,
/// and nothing otherwise.
pub proof fn basis_needs_both_prices(s: CryptoStateInner, now: u64, c: Computed)
    requires
        !s.perp_price.not_a_number(),
        !s.derived(now, c).shadow_rti.not_a_number(),
    ensures
        s.perp_price.rank() > 0 && s.derived(now, c).shadow_rti.rank() > 0 ==> s.derived(now, c).basis == c.difference,
        s.perp_price.rank() <= 0 || s.derived(now, c).shadow_rti.rank() <= 0 ==> s.derived(now, c).basis.bits == 0,
{
}

/// The volatility index goes first. Without one the weighted volatility counts, and the realized
/// one only where there is no weighted one; what is not above zero changes nothing.
pub proof fn volatility_has_its_order(s: CryptoStateInner, now: u64, c: Computed)
    requires
        !s.dvol.not_a_number(),
        s.binance_spot_vol_ewma is Some ==> !s.binance_spot_vol_ewma->0.not_a_number(),
        s.binance_spot_vol_realized is Some ==> !s.binance_spot_vol_realized->0.not_a_number(),
    ensures
        ({
            let vol = s.derived(now, c).best_vol;
            let ewma = s.binance_spot_vol_ewma;
            let realized = s.binance_spot_vol_realized;
            &&& s.dvol.rank() > 0 ==> vol == Some(c.dvol_fraction)
            &&& s.dvol.rank() <= 0 && ewma is Some ==> vol == (if ewma->0.rank() > 0 { ewma } else { s.best_vol })
            &&& s.dvol.rank() <= 0 && ewma is None && realized is Some ==> vol == (if realized->0.rank() > 0 {
                realized
            } else {
                s.best_vol
            })
            &&& s.dvol.rank() <= 0 && ewma is None && realized is None ==> vol == s.best_vol
        }),
{
}

/// Deriving touches nothing that a feed has said.
pub proof fn deriving_keeps_what_feeds_said(s: CryptoStateInner, now: u64, c: Computed)
    ensures
        ({
            let d = s.derived(now, c);
            &&& d.coinbase_spot == s.coinbase_spot && d.coinbase_bid == s.coinbase_bid && d.coinbase_ask
                == s.coinbase_ask && d.coinbase_updated == s.coinbase_updated
            &&& d.binance_spot == s.binance_spot && d.binance_spot_updated == s.binance_spot_updated
            &&& d.perp_price == s.perp_price && d.mark_price == s.mark_price && d.funding_rate == s.funding_rate
                && d.futures_obi == s.futures_obi && d.futures_updated == s.futures_updated
            &&& d.dvol == s.dvol && d.dvol_updated == s.dvol_updated
            &&& d.coinbase_trade_volume_5m == s.coinbase_trade_volume_5m && d.binance_trade_volume_5m
                == s.binance_trade_volume_5m
            &&& d.rti_config == s.rti_config
        }),
{
}

/// A venue weighs as the root of its volume, but at least one. One that deviates by more than the
/// threshold weighs a tenth, however much it trades; one exactly at the threshold is no outlier.
pub proof fn weights_follow_volume_and_deviation(root_volume: Float, deviation: Float, outlier: Float)
    requires
        !root_volume.not_a_number() && !deviation.not_a_number() && !outlier.not_a_number(),
    ensures
        deviation.rank() > outlier.rank() ==> weight(root_volume, deviation, outlier).bits == 0x3fb9_9999_9999_999a,
        deviation.rank() <= outlier.rank() && root_volume.rank() >= 0x3ff0_0000_0000_0000 ==> weight(
            root_volume,
            deviation,
            outlier,
        ) == root_volume,
        deviation.rank() <= outlier.rank() && root_volume.rank() < 0x3ff0_0000_0000_0000 ==> weight(
            root_volume,
            deviation,
            outlier,
        ).bits == 0x3ff0_0000_0000_0000,
{
}

/// Before any feed has spoken there is no index, nothing is reliable, and no venue counts, at any
/// moment and with any threshold.
pub proof fn blank_states_know_nothing(rti_config: RtiConfig, now: u64)
    ensures
        blank(rti_config).rti_config == rti_config,
        blank(rti_config).shadow_rti.bits == 0,
        !blank(rti_config).rti_reliable,
        blank(rti_config).best_vol is None,
        blank(rti_config).futures_obi.bits == 0x3fe0_0000_0000_0000,
        !blank(rti_config).coinbase_counts(now) && !blank(rti_config).binance_counts(now),
        blank(rti_config).source(now) is Keep,
{
}

/// By default a price is stale after five seconds, an outlier deviates by more than one half, and
/// an index is reliable on two venues only.
pub proof fn defaults_ask_for_two_live_venues(s: CryptoStateInner, x: Float, updated: u64, now: u64, c: Computed)
    requires
        s.rti_config == default_rti_config(),
        !x.not_a_number(),
    ensures
        counts(x, Some(updated), s.rti_config.stale_threshold_secs, now) <==> x.rank() > 0 && now - updated
            <= 5_000_000_000,
        weight(x, x, s.rti_config.outlier_threshold_pct).bits == 0x3fb9_9999_9999_999a || x.rank()
            <= 0x3fe0_0000_0000_0000,
        x.rank() <= 0x3fe0_0000_0000_0000 ==> weight(x, x, s.rti_config.outlier_threshold_pct).bits
            == 0x3ff0_0000_0000_0000,
        s.derived(now, c).rti_reliable <==> s.source(now) is Blend,
{
}

/// A venue that has just told a price above zero counts, and what one feed tells changes nothing
/// that another has told.
pub proof fn feeds_speak_for_themselves(
    s: CryptoStateInner,
    a: Float,
    b: Float,
    c: Float,
    d: Float,
    realized: Option<Float>,
    ewma: Option<Float>,
    bars: usize,
    now: u64,
)
    ensures
        ({
            let t = s.coinbase_told(a, b, c, d, now);
            &&& t.coinbase_spot == a && t.coinbase_bid == b && t.coinbase_ask == c && t.coinbase_trade_volume_5m == d
            &&& t.coinbase_updated == Some(now)
            &&& t.coinbase_counts(now) <==> above_zero(a)
            &&& t.binance_counts(now) == s.binance_counts(now)
            &&& t.binance_spot == s.binance_spot && t.mark_price == s.mark_price && t.perp_price == s.perp_price
                && t.dvol == s.dvol && t.shadow_rti == s.shadow_rti && t.rti_reliable == s.rti_reliable
        }),
        ({
            let t = s.binance_told(a, realized, ewma, bars, d, now);
            &&& t.binance_spot == a && t.binance_spot_vol_realized == realized && t.binance_spot_vol_ewma == ewma
            &&& t.binance_spot_bars_count == bars && t.binance_trade_volume_5m == d && t.binance_spot_updated == Some(
                now,
            )
            &&& t.binance_counts(now) <==> above_zero(a)
            &&& t.coinbase_counts(now) == s.coinbase_counts(now)
            &&& t.coinbase_spot == s.coinbase_spot && t.mark_price == s.mark_price && t.perp_price == s.perp_price
                && t.dvol == s.dvol && t.shadow_rti == s.shadow_rti && t.rti_reliable == s.rti_reliable
        }),
        ({
            let t = s.futures_told(a, b, c, d, now);
            &&& t.perp_price == a && t.mark_price == b && t.funding_rate == c && t.futures_obi == d
            &&& t.futures_updated == Some(now)
            &&& t.coinbase_counts(now) == s.coinbase_counts(now) && t.binance_counts(now) == s.binance_counts(now)
            &&& t.coinbase_spot == s.coinbase_spot && t.binance_spot == s.binance_spot && t.dvol == s.dvol
                && t.shadow_rti == s.shadow_rti
        }),
        ({
            let t = s.deribit_told(a, now);
            &&& t.dvol == a && t.dvol_updated == Some(now)
            &&& t.coinbase_spot == s.coinbase_spot && t.binance_spot == s.binance_spot && t.perp_price == s.perp_price
                && t.mark_price == s.mark_price && t.shadow_rti == s.shadow_rti && t.best_vol == s.best_vol
        }),
{
}

} // verus!
