//! Entries: the guards between a price update and a signal, in their order.
use vstd::prelude::*;
use vstd::string::*;

use crate::config::Config;
use crate::crypto_asset::CryptoAsset;
use crate::crypto_evaluator::edge_tracker::should_wait;
use crate::crypto_evaluator::limiter::{the_hour_is_an_hour, within_hour, Fired, SignalLimiter};
use crate::crypto_evaluator::{
    GROWTH_LIMIT_BITS, PRICE_CEILING_BITS, PRICE_FLOOR_BITS, PRICE_TOO_HIGH_BITS, PRICE_TOO_LOW_BITS,
};
use crate::crypto_fv::{determine_direction, favoured};
use crate::decision_log::{blank_record, DecisionEntry, DecisionRecord};
use crate::feed_health::{blocking_feeds_of, FeedHealth};
use crate::float::Float;
use crate::kalshi::orderbook::{BookStatus, Side};
use crate::text::{decimal, joined, same_text, u64_text};
use crate::types::{Signal, SignalPriority};

verus! {

/// What is known of a contract once its fair value is computed.
#[derive(Clone, Copy, Debug, PartialEq, Eq, Structural)]
pub struct ValueFacts {
    /// The contract is on the direction alone, not on a strike.
    pub directional: bool,
    pub mid_price: Float,
    pub minutes_remaining: Float,
    pub probability: Float,
    pub confidence: Float,
    /// Distance between probability and price.
    pub raw_edge: Float,
    /// Distance between probability and one half.
    pub conviction: Float,
}

/// What the small print of the market adds to the edge.
#[derive(Clone, Copy, Debug, PartialEq, Eq, Structural)]
pub struct MicrostructureAdj {
    pub trade_imbalance: Float,
    pub spread_regime: Float,
    pub depth_imbalance: Float,
    pub vwap_signal: Float,
    pub momentum_signal: Float,
    pub volume_surge_signal: Float,
    pub total: Float,
}

/// What is known of a trade once its edge and its stake are computed.
#[derive(Clone, Copy, Debug, PartialEq, Eq, Structural)]
pub struct TradeFacts {
    /// Edge less half the spread.
    pub effective_edge: Float,
    /// That with the adjustment added.
    pub adjusted_edge: Float,
    pub micro: MicrostructureAdj,
    /// Growth of the edge in a second, where it can be told.
    pub slope: Option<Float>,
    /// Price at which the order would be filled.
    pub fill_price: Float,
    /// One less that price.
    pub fill_rest: Float,
    /// The greatest ratio of loss to gain, times the price.
    pub scaled_fill: Float,
    /// The same ratio, times the rest.
    pub scaled_rest: Float,
    pub kelly: Float,
    pub spread: Float,
    pub order_imbalance: Float,
}

/// `true` or `false`.
pub open spec fn truth(b: bool) -> Seq<char> {
    if b { "true"@ } else { "false"@ }
}

fn truth_text(b: bool) -> (r: &'static str)
    ensures
        r@ == truth(b),
{
    if b { "true" } else { "false" }
}

/// Why there is no price: what is known of the book.
pub open spec fn no_price_reason(s: BookStatus) -> Seq<char> {
    "no_price_data(book="@ + truth(s.has_entry) + ",bids="@ + truth(s.has_bids) + ",asks="@ + truth(s.has_asks)
        + ",tob="@ + truth(s.has_tob) + ")"@
}

/// The objection before any fair value is computed: no price, a price at the edge of the range,
/// a ticker that rests, or too many signals within the hour.
pub open spec fn early_objection(
    fired: Fired,
    ticker: Seq<char>,
    mid_price: Option<Float>,
    status: BookStatus,
    minutes: Float,
    cooldown_secs: u64,
    max_per_hour: u32,
    now: u64,
) -> Option<DecisionRecord> {
    let base = DecisionRecord {
        ticker,
        signal_type: "crypto"@,
        outcome: "rejected"@,
        minutes_remaining: Some(minutes),
        ..blank_record()
    };
    match mid_price {
        None => Some(
            DecisionRecord {
                outcome: "skipped"@,
                rejection_reason: Some(no_price_reason(status)),
                ..base
            },
        ),
        Some(mid) => if mid.le(Float { bits: PRICE_TOO_LOW_BITS }) || (Float { bits: PRICE_TOO_HIGH_BITS }).le(mid) {
            Some(
                DecisionRecord {
                    outcome: "skipped"@,
                    rejection_reason: Some("extreme_market_price"@),
                    market_price: Some(mid),
                    ..base
                },
            )
        } else if let Some(passed) = fired.resting(ticker, cooldown_secs, now) {
            Some(
                DecisionRecord {
                    rejection_reason: Some(
                        "signal_cooldown ("@ + decimal(passed) + "s/"@ + decimal(cooldown_secs as int) + "s)"@,
                    ),
                    ..base
                },
            )
        } else if fired.forgetting(now).moments.len() >= max_per_hour {
            Some(DecisionRecord { rejection_reason: Some("hourly_rate_limit"@), ..base })
        } else {
            None
        },
    }
}

/// Whether the hour's signals come to be counted.
pub open spec fn hour_is_counted(
    fired: Fired,
    ticker: Seq<char>,
    mid_price: Option<Float>,
    cooldown_secs: u64,
    now: u64,
) -> bool {
    match mid_price {
        None => false,
        Some(mid) => !mid.le(Float { bits: PRICE_TOO_LOW_BITS }) && !(Float { bits: PRICE_TOO_HIGH_BITS }).le(mid)
            && fired.resting(ticker, cooldown_secs, now) is None,
    }
}

/// The objection before any fair value is computed.
pub fn screen_entry(
    limiter: &mut SignalLimiter,
    ticker: &str,
    mid_price: Option<Float>,
    status: BookStatus,
    minutes_remaining: Float,
    cooldown_secs: u64,
    max_per_hour: u32,
    now: u64,
) -> (r: Option<DecisionEntry>)
    requires
        old(limiter).wf(),
    ensures
        final(limiter).wf(),
        final(limiter)@ == (if hour_is_counted(old(limiter)@, ticker@, mid_price, cooldown_secs, now) {
            old(limiter)@.forgetting(now)
        } else {
            old(limiter)@
        }),
        match r {
            Some(e) => early_objection(
                old(limiter)@,
                ticker@,
                mid_price,
                status,
                minutes_remaining,
                cooldown_secs,
                max_per_hour,
                now,
            ) == Some(e@),
            None => early_objection(
                old(limiter)@,
                ticker@,
                mid_price,
                status,
                minutes_remaining,
                cooldown_secs,
                max_per_hour,
                now,
            ) is None,
        },
{
    let mut e: DecisionEntry = DecisionEntry::default();
    e.ticker = ticker.to_owned();
    e.signal_type = "crypto".to_owned();
    e.minutes_remaining = Some(minutes_remaining);
    let mid: Float = match mid_price {
        Some(mid) => mid,
        None => {
            let mut reason: String = joined("no_price_data(book=", truth_text(status.has_entry));
            reason.append(",bids=");
            reason.append(truth_text(status.has_bids));
            reason.append(",asks=");
            reason.append(truth_text(status.has_asks));
            reason.append(",tob=");
            reason.append(truth_text(status.has_tob));
            reason.append(")");
            e.outcome = "skipped".to_owned();
            e.rejection_reason = Some(reason);
            return Some(e);
        },
    };
    if mid.less_eq(Float::from_bits(PRICE_TOO_LOW_BITS)) || Float::from_bits(PRICE_TOO_HIGH_BITS).less_eq(mid) {
        e.outcome = "skipped".to_owned();
        e.rejection_reason = Some("extreme_market_price".to_owned());
        e.market_price = Some(mid);
        return Some(e);
    }
    e.outcome = "rejected".to_owned();
    if let Some(passed) = limiter.resting(ticker, cooldown_secs, now) {
        let mut reason: String = joined("signal_cooldown (", u64_text(passed).as_str());
        reason.append("s/");
        reason.append(u64_text(cooldown_secs).as_str());
        reason.append("s)");
        e.rejection_reason = Some(reason);
        return Some(e);
    }
    if limiter.count_hour(now) as u64 >= max_per_hour as u64 {
        e.rejection_reason = Some("hourly_rate_limit".to_owned());
        return Some(e);
    }
    None
}

impl ValueFacts {
    pub open spec fn direction(self) -> Seq<char> {
        favoured(self.probability, self.mid_price)
    }

    /// The part of an entry that rests on these facts.
    pub open spec fn logged(self, ticker: Seq<char>, outcome: Seq<char>, reason: Option<Seq<char>>) -> DecisionRecord {
        DecisionRecord {
            ticker,
            signal_type: "crypto"@,
            outcome,
            rejection_reason: reason,
            model_prob: Some(self.probability),
            market_price: Some(self.mid_price),
            minutes_remaining: Some(self.minutes_remaining),
            confidence: Some(self.confidence),
            ..blank_record()
        }
    }

    /// The same with an edge and the side.
    pub open spec fn logged_edge(
        self,
        ticker: Seq<char>,
        outcome: Seq<char>,
        reason: Option<Seq<char>>,
        edge: Float,
    ) -> DecisionRecord {
        DecisionRecord {
            edge: Some(edge),
            direction: Some(self.direction()),
            ..self.logged(ticker, outcome, reason)
        }
    }

    /// Why the fair value is not acted upon, the first reason that applies: too little
    /// confidence; on direction alone, no opinion; a price outside the band; a market that
    /// disagrees too much.
    pub open spec fn objection(self, ticker: Seq<char>, config: Config) -> Option<DecisionRecord> {
        if self.confidence.lt(config.crypto_min_confidence.value) {
            Some(self.logged(ticker, "rejected"@, Some("confidence_below_minimum"@)))
        } else if self.directional && self.conviction.lt(config.crypto_directional_min_conviction.value) {
            Some(self.logged_edge(ticker, "rejected"@, Some("directional_atm_no_opinion"@), self.raw_edge))
        } else if self.mid_price.lt(Float { bits: PRICE_FLOOR_BITS }) || (Float { bits: PRICE_CEILING_BITS }).lt(
            self.mid_price,
        ) {
            Some(self.logged_edge(ticker, "rejected"@, Some("market_price_out_of_band"@), self.raw_edge))
        } else if config.crypto_max_market_disagreement.value.lt(self.raw_edge) {
            Some(self.logged_edge(ticker, "rejected"@, Some("market_disagreement"@), self.raw_edge))
        } else {
            None
        }
    }

    fn log(&self, ticker: &str, outcome: &str, reason: Option<String>) -> (r: DecisionEntry)
        ensures
            r@ == self.logged(ticker@, outcome@, match reason {
                Some(s) => Some(s@),
                None => None,
            }),
    {
        let mut e: DecisionEntry = DecisionEntry::default();
        e.ticker = ticker.to_owned();
        e.signal_type = "crypto".to_owned();
        e.outcome = outcome.to_owned();
        e.rejection_reason = reason;
        e.model_prob = Some(self.probability);
        e.market_price = Some(self.mid_price);
        e.minutes_remaining = Some(self.minutes_remaining);
        e.confidence = Some(self.confidence);
        e
    }

    fn log_edge(&self, ticker: &str, outcome: &str, reason: Option<String>, edge: Float) -> (r: DecisionEntry)
        ensures
            r@ == self.logged_edge(ticker@, outcome@, match reason {
                Some(s) => Some(s@),
                None => None,
            }, edge),
    {
        let mut e: DecisionEntry = self.log(ticker, outcome, reason);
        e.edge = Some(edge);
        e.direction = Some(determine_direction(self.probability, self.mid_price).0.to_owned());
        e
    }
}

/// Whether the fair value is acted upon: the side to take, or the entry that says why not.
pub fn judge_value(ticker: &str, facts: &ValueFacts, config: &Config) -> (r: Result<&'static str, DecisionEntry>)
    ensures
        match r {
            Ok(direction) => facts.objection(ticker@, *config) is None && direction@ == facts.direction(),
            Err(e) => facts.objection(ticker@, *config) == Some(e@),
        },
{
    if facts.confidence.less(config.crypto_min_confidence.value) {
        return Err(facts.log(ticker, "rejected", Some("confidence_below_minimum".to_owned())));
    }
    if facts.directional && facts.conviction.less(config.crypto_directional_min_conviction.value) {
        return Err(
            facts.log_edge(ticker, "rejected", Some("directional_atm_no_opinion".to_owned()), facts.raw_edge),
        );
    }
    if facts.mid_price.less(Float::from_bits(PRICE_FLOOR_BITS)) || Float::from_bits(PRICE_CEILING_BITS).less(
        facts.mid_price,
    ) {
        return Err(facts.log_edge(ticker, "rejected", Some("market_price_out_of_band".to_owned()), facts.raw_edge));
    }
    if config.crypto_max_market_disagreement.value.less(facts.raw_edge) {
        return Err(facts.log_edge(ticker, "rejected", Some("market_disagreement".to_owned()), facts.raw_edge));
    }
    Ok(determine_direction(facts.probability, facts.mid_price).0)
}

impl TradeFacts {
    /// More would be lost than the ratio allows.
    pub open spec fn bad_risk(self, direction: Seq<char>) -> bool {
        if direction == "yes"@ {
            self.scaled_rest.lt(self.fill_price)
        } else {
            self.scaled_fill.lt(self.fill_rest)
        }
    }

    /// An entry with the edges.
    pub open spec fn logged(
        self,
        value: ValueFacts,
        ticker: Seq<char>,
        outcome: Seq<char>,
        reason: Option<Seq<char>>,
    ) -> DecisionRecord {
        DecisionRecord {
            adjusted_edge: Some(self.adjusted_edge),
            ..value.logged_edge(ticker, outcome, reason, self.effective_edge)
        }
    }

    /// An entry with the edges and all parts of the adjustment.
    pub open spec fn logged_micro(
        self,
        value: ValueFacts,
        ticker: Seq<char>,
        outcome: Seq<char>,
        reason: Option<Seq<char>>,
    ) -> DecisionRecord {
        DecisionRecord {
            micro_total: Some(self.micro.total),
            micro_trade: Some(self.micro.trade_imbalance),
            micro_spread: Some(self.micro.spread_regime),
            micro_depth: Some(self.micro.depth_imbalance),
            micro_vwap: Some(self.micro.vwap_signal),
            micro_momentum: Some(self.micro.momentum_signal),
            micro_vol_surge: Some(self.micro.volume_surge_signal),
            ..self.logged(value, ticker, outcome, reason)
        }
    }

    /// Why a trade is not made, the first reason that applies: an edge too good to be true, or
    /// too small; one that grows, so that waiting pays; too much to lose; too small a stake;
    /// feeds of the asset that are stale.
    pub open spec fn objection(
        self,
        value: ValueFacts,
        ticker: Seq<char>,
        asset: CryptoAsset,
        config: Config,
        last_update: Map<Seq<char>, u64>,
        now: u64,
    ) -> Option<DecisionRecord> {
        let rejected = "rejected"@;
        if config.crypto_max_edge.value.lt(self.adjusted_edge) {
            Some(self.logged_micro(value, ticker, rejected, Some("edge_too_large"@)))
        } else if self.adjusted_edge.lt(config.crypto_min_edge.value) {
            Some(self.logged_micro(value, ticker, rejected, Some("edge_below_minimum"@)))
        } else if self.slope matches Some(x) && (Float { bits: GROWTH_LIMIT_BITS }).lt(x) {
            Some(self.logged(value, ticker, rejected, Some("edge_growing_defer"@)))
        } else if self.bad_risk(value.direction()) {
            Some(self.logged(value, ticker, rejected, Some("bad_risk_reward"@)))
        } else if self.kelly.lt(config.crypto_min_kelly.value) {
            Some(self.logged_micro(value, ticker, rejected, Some("kelly_below_minimum"@)))
        } else if blocking_feeds_of(last_update, asset, now).len() > 0 {
            Some(self.logged(value, ticker, rejected, Some("asset_feeds_stale:"@ + asset.short_name_text())))
        } else {
            None
        }
    }

    fn log(&self, value: &ValueFacts, ticker: &str, outcome: &str, reason: Option<String>) -> (r: DecisionEntry)
        ensures
            r@ == self.logged(*value, ticker@, outcome@, match reason {
                Some(s) => Some(s@),
                None => None,
            }),
    {
        let mut e: DecisionEntry = value.log_edge(ticker, outcome, reason, self.effective_edge);
        e.adjusted_edge = Some(self.adjusted_edge);
        e
    }

    fn log_micro(&self, value: &ValueFacts, ticker: &str, outcome: &str, reason: Option<String>) -> (r: DecisionEntry)
        ensures
            r@ == self.logged_micro(*value, ticker@, outcome@, match reason {
                Some(s) => Some(s@),
                None => None,
            }),
    {
        let mut e: DecisionEntry = self.log(value, ticker, outcome, reason);
        e.micro_total = Some(self.micro.total);
        e.micro_trade = Some(self.micro.trade_imbalance);
        e.micro_spread = Some(self.micro.spread_regime);
        e.micro_depth = Some(self.micro.depth_imbalance);
        e.micro_vwap = Some(self.micro.vwap_signal);
        e.micro_momentum = Some(self.micro.momentum_signal);
        e.micro_vol_surge = Some(self.micro.volume_surge_signal);
        e
    }
}

/// A signal to enter, on these facts.
pub open spec fn enters(s: Signal, ticker: Seq<char>, value: ValueFacts, trade: TradeFacts) -> bool {
    &&& s.ticker@ == ticker
    &&& s.signal_type@ == "crypto"@
    &&& s.action@ == "entry"@
    &&& s.direction@ == value.direction()
    &&& s.model_prob == value.probability
    &&& s.market_price == value.mid_price
    &&& s.edge == trade.adjusted_edge
    &&& s.kelly_fraction == trade.kelly
    &&& s.minutes_remaining == value.minutes_remaining
    &&& s.spread == trade.spread
    &&& s.order_imbalance == trade.order_imbalance
    &&& s.priority is NewData
    &&& s.confidence == value.confidence
}

/// Whether a trade is made: the signal for it, or the entry that says why not.
pub fn judge_trade(
    ticker: &str,
    asset: CryptoAsset,
    value: &ValueFacts,
    trade: &TradeFacts,
    config: &Config,
    feed_health: &FeedHealth,
    now: u64,
) -> (r: Result<Signal, DecisionEntry>)
    ensures
        match r {
            Ok(s) => trade.objection(*value, ticker@, asset, *config, feed_health@, now) is None && enters(
                s,
                ticker@,
                *value,
                *trade,
            ),
            Err(e) => trade.objection(*value, ticker@, asset, *config, feed_health@, now) == Some(e@),
        },
{
    let direction: &str = determine_direction(value.probability, value.mid_price).0;
    if config.crypto_max_edge.value.less(trade.adjusted_edge) {
        return Err(trade.log_micro(value, ticker, "rejected", Some("edge_too_large".to_owned())));
    }
    if trade.adjusted_edge.less(config.crypto_min_edge.value) {
        return Err(trade.log_micro(value, ticker, "rejected", Some("edge_below_minimum".to_owned())));
    }
    if should_wait(trade.slope) {
        return Err(trade.log(value, ticker, "rejected", Some("edge_growing_defer".to_owned())));
    }
    let bad_risk: bool = if same_text(direction, "yes") {
        trade.scaled_rest.less(trade.fill_price)
    } else {
        trade.scaled_fill.less(trade.fill_rest)
    };
    if bad_risk {
        return Err(trade.log(value, ticker, "rejected", Some("bad_risk_reward".to_owned())));
    }
    if trade.kelly.less(config.crypto_min_kelly.value) {
        return Err(trade.log_micro(value, ticker, "rejected", Some("kelly_below_minimum".to_owned())));
    }
    if feed_health.required_feeds_healthy_for_asset(asset, now).is_err() {
        return Err(
            trade.log(value, ticker, "rejected", Some(joined("asset_feeds_stale:", asset.short_name()))),
        );
    }
    Ok(
        Signal {
            ticker: ticker.to_owned(),
            signal_type: "crypto".to_owned(),
            action: "entry".to_owned(),
            direction: direction.to_owned(),
            model_prob: value.probability,
            market_price: value.mid_price,
            edge: trade.adjusted_edge,
            kelly_fraction: trade.kelly,
            minutes_remaining: value.minutes_remaining,
            spread: trade.spread,
            order_imbalance: trade.order_imbalance,
            priority: SignalPriority::NewData,
            confidence: value.confidence,
        },
    )
}

/// The entry on a signal that the risk checks refused.
pub fn refused_entry(
    ticker: &str,
    value: &ValueFacts,
    trade: &TradeFacts,
    reason: String,
    signal_id: Option<i64>,
) -> (r: DecisionEntry)
    ensures
        r@ == (DecisionRecord { signal_id, ..trade.logged(*value, ticker@, "rejected"@, Some(reason@)) }),
{
    let mut e: DecisionEntry = trade.log(value, ticker, "rejected", Some(reason));
    e.signal_id = signal_id;
    e
}

/// The entry on a signal that was acted upon.
pub fn signal_entry(ticker: &str, value: &ValueFacts, trade: &TradeFacts, signal_id: Option<i64>) -> (r: DecisionEntry)
    ensures
        r@ == (DecisionRecord { signal_id, ..trade.logged_micro(*value, ticker@, "signal"@, None) }),
{
    let mut e: DecisionEntry = trade.log_micro(value, ticker, "signal", None);
    e.signal_id = signal_id;
    e
}

/// The side of the book that an order in this direction stands on.
pub open spec fn stands_on(direction: Seq<char>) -> Side {
    if direction == "yes"@ { Side::Bid } else { Side::Ask }
}

/// The size by which fills are estimated: the trade limit, a hundred at most.
pub open spec fn estimated_by(max_trade_size_cents: i64) -> i64 {
    if max_trade_size_cents < 100 { max_trade_size_cents } else { 100 }
}

/// The side of the book that an order in this direction stands on.
pub fn order_side(direction: &str) -> (r: Side)
    ensures
        r == stands_on(direction@),
{
    if same_text(direction, "yes") { Side::Bid } else { Side::Ask }
}

/// The size by which fills are estimated.
pub fn estimate_size(config: &Config) -> (r: i64)
    ensures
        r == estimated_by(config.max_trade_size_cents),
{
    if config.max_trade_size_cents < 100 { config.max_trade_size_cents } else { 100 }
}

/// A signal carries an edge within the limits, a stake that is worth it, and a price within the
/// band; what is not a number passes any limit.
pub proof fn signals_keep_the_limits(
    value: ValueFacts,
    trade: TradeFacts,
    ticker: Seq<char>,
    asset: CryptoAsset,
    config: Config,
    last_update: Map<Seq<char>, u64>,
    now: u64,
)
    requires
        value.objection(ticker, config) is None,
        trade.objection(value, ticker, asset, config, last_update, now) is None,
    ensures
        !config.crypto_max_edge.value.lt(trade.adjusted_edge),
        !trade.adjusted_edge.lt(config.crypto_min_edge.value),
        !trade.kelly.lt(config.crypto_min_kelly.value),
        !value.confidence.lt(config.crypto_min_confidence.value),
        !value.mid_price.not_a_number() ==> (Float { bits: PRICE_FLOOR_BITS }).le(value.mid_price)
            && value.mid_price.le(Float { bits: PRICE_CEILING_BITS }),
        !config.crypto_max_market_disagreement.value.lt(value.raw_edge),
        blocking_feeds_of(last_update, asset, now).len() == 0,
{
}

/// No objection at the first look leaves room for one more signal within the hour.
pub proof fn screened_signals_keep_the_hour(
    fired: Fired,
    ticker: Seq<char>,
    mid_price: Option<Float>,
    status: BookStatus,
    minutes: Float,
    cooldown_secs: u64,
    max_per_hour: u32,
    now: u64,
)
    requires
        early_objection(fired, ticker, mid_price, status, minutes, cooldown_secs, max_per_hour, now) is None,
    ensures
        fired.forgetting(now).firing(ticker, now).moments.len() <= max_per_hour,
        fired.resting(ticker, cooldown_secs, now) is None,
{
}

/// The same trade looked at from the other side: what was won is lost, and the other way round.
pub open spec fn turned(t: TradeFacts) -> TradeFacts {
    TradeFacts {
        fill_price: t.fill_rest,
        fill_rest: t.fill_price,
        scaled_fill: t.scaled_rest,
        scaled_rest: t.scaled_fill,
        ..t
    }
}

/// A trade is a bad risk exactly if what can be lost exceeds the allowed ratio times what can be
/// won: a yes loses its price and wins the rest, a no loses the rest and wins the price. So a no
/// is a bad risk exactly if the yes on the other side of the price is.
pub proof fn risk_is_loss_over_scaled_gain(t: TradeFacts, direction: Seq<char>)
    requires
        direction != "yes"@,
        !t.fill_price.not_a_number() && !t.fill_rest.not_a_number(),
        !t.scaled_fill.not_a_number() && !t.scaled_rest.not_a_number(),
    ensures
        t.bad_risk("yes"@) <==> t.fill_price.rank() > t.scaled_rest.rank(),
        t.bad_risk(direction) <==> t.fill_rest.rank() > t.scaled_fill.rank(),
        t.bad_risk(direction) <==> turned(t).bad_risk("yes"@),
        t.bad_risk("yes"@) <==> turned(t).bad_risk(direction),
{
}

/// A trade is made exactly if its edge is neither above the greatest nor below the least, does not
/// grow by more than a thousandth a second, what it can lose is within the allowed ratio of what it
/// can win, its stake is not below the least, and a spot venue has told the asset's price lately.
pub proof fn trades_are_made_if_nothing_objects(
    t: TradeFacts,
    value: ValueFacts,
    ticker: Seq<char>,
    asset: CryptoAsset,
    config: Config,
    last_update: Map<Seq<char>, u64>,
    now: u64,
)
    ensures
        t.objection(value, ticker, asset, config, last_update, now) is None <==> {
            &&& !config.crypto_max_edge.value.lt(t.adjusted_edge)
            &&& !t.adjusted_edge.lt(config.crypto_min_edge.value)
            &&& t.slope is Some ==> !(Float { bits: 0x3f50_624d_d2f1_a9fc }).lt(t.slope->0)
            &&& value.mid_price.lt(value.probability) ==> !t.scaled_rest.lt(t.fill_price)
            &&& !value.mid_price.lt(value.probability) ==> !t.scaled_fill.lt(t.fill_rest)
            &&& !t.kelly.lt(config.crypto_min_kelly.value)
            &&& blocking_feeds_of(last_update, asset, now).len() == 0
        },
{
    reveal_strlit("yes");
    reveal_strlit("no");
    assert("yes"@.len() != "no"@.len());
}

/// Each objection to a trade names its reason, the first that applies in a fixed order, on a
/// record of the trade that says it was rejected.
pub proof fn objections_to_trades_name_their_reason(
    t: TradeFacts,
    value: ValueFacts,
    ticker: Seq<char>,
    asset: CryptoAsset,
    config: Config,
    last_update: Map<Seq<char>, u64>,
    now: u64,
)
    requires
        t.objection(value, ticker, asset, config, last_update, now) is Some,
    ensures
        ({
            let o = t.objection(value, ticker, asset, config, last_update, now)->0;
            let too_large = config.crypto_max_edge.value.lt(t.adjusted_edge);
            let too_small = t.adjusted_edge.lt(config.crypto_min_edge.value);
            let grows = t.slope is Some && (Float { bits: 0x3f50_624d_d2f1_a9fc }).lt(t.slope->0);
            let risky = if value.mid_price.lt(value.probability) {
                t.scaled_rest.lt(t.fill_price)
            } else {
                t.scaled_fill.lt(t.fill_rest)
            };
            let poor = t.kelly.lt(config.crypto_min_kelly.value);
            &&& too_large ==> o.rejection_reason == Some("edge_too_large"@)
            &&& !too_large && too_small ==> o.rejection_reason == Some("edge_below_minimum"@)
            &&& !too_large && !too_small && grows ==> o.rejection_reason == Some("edge_growing_defer"@)
            &&& !too_large && !too_small && !grows && risky ==> o.rejection_reason == Some("bad_risk_reward"@)
            &&& !too_large && !too_small && !grows && !risky && poor ==> o.rejection_reason == Some(
                "kelly_below_minimum"@,
            )
            &&& !too_large && !too_small && !grows && !risky && !poor ==> o.rejection_reason == Some(
                "asset_feeds_stale:"@ + asset.short_name_text(),
            )
            &&& o.outcome == "rejected"@ && o.ticker == ticker && o.signal_type == "crypto"@
            &&& o.model_prob == Some(value.probability) && o.market_price == Some(value.mid_price)
            &&& o.edge == Some(t.effective_edge) && o.adjusted_edge == Some(t.adjusted_edge)
            &&& o.confidence == Some(value.confidence) && o.minutes_remaining == Some(value.minutes_remaining)
            &&& o.direction == Some(if value.mid_price.lt(value.probability) { "yes"@ } else { "no"@ })
            &&& o.signal_id is None
        }),
{
    reveal_strlit("yes");
    reveal_strlit("no");
    assert("yes"@.len() != "no"@.len());
}

/// The fair value is acted upon exactly if the model is sure enough, has an opinion where only the
/// direction counts, the price lies between 0.30 and 0.70, and the market does not disagree by
/// more than is allowed.
pub proof fn values_are_acted_upon_if_nothing_objects(v: ValueFacts, ticker: Seq<char>, config: Config)
    ensures
        v.objection(ticker, config) is None <==> {
            &&& !v.confidence.lt(config.crypto_min_confidence.value)
            &&& v.directional ==> !v.conviction.lt(config.crypto_directional_min_conviction.value)
            &&& !v.mid_price.lt(Float { bits: 0x3fd3_3333_3333_3333 })
            &&& !(Float { bits: 0x3fe6_6666_6666_6666 }).lt(v.mid_price)
            &&& !config.crypto_max_market_disagreement.value.lt(v.raw_edge)
        },
{
}

/// Each objection to a fair value names its reason, the first that applies in a fixed order.
pub proof fn objections_to_values_name_their_reason(v: ValueFacts, ticker: Seq<char>, config: Config)
    requires
        v.objection(ticker, config) is Some,
    ensures
        ({
            let o = v.objection(ticker, config)->0;
            let unsure = v.confidence.lt(config.crypto_min_confidence.value);
            let flat = v.directional && v.conviction.lt(config.crypto_directional_min_conviction.value);
            let outside = v.mid_price.lt(Float { bits: 0x3fd3_3333_3333_3333 }) || (Float {
                bits: 0x3fe6_6666_6666_6666,
            }).lt(v.mid_price);
            &&& unsure ==> o.rejection_reason == Some("confidence_below_minimum"@) && o.edge is None && o.direction
                is None
            &&& !unsure && flat ==> o.rejection_reason == Some("directional_atm_no_opinion"@)
            &&& !unsure && !flat && outside ==> o.rejection_reason == Some("market_price_out_of_band"@)
            &&& !unsure && !flat && !outside ==> o.rejection_reason == Some("market_disagreement"@)
            &&& !unsure ==> o.edge == Some(v.raw_edge) && o.direction == Some(
                if v.mid_price.lt(v.probability) {
                    "yes"@
                } else {
                    "no"@
                },
            )
            &&& o.outcome == "rejected"@ && o.ticker == ticker && o.signal_type == "crypto"@
            &&& o.model_prob == Some(v.probability) && o.market_price == Some(v.mid_price)
            &&& o.confidence == Some(v.confidence) && o.minutes_remaining == Some(v.minutes_remaining)
        }),
{
}

/// At the first look an entry passes exactly if there is a price, it lies between 0.02 and 0.98,
/// the ticker has not fired within its cooldown, and fewer signals have fired within the hour than
/// are allowed.
pub proof fn entries_pass_the_first_look_if_nothing_objects(
    fired: Fired,
    ticker: Seq<char>,
    mid_price: Option<Float>,
    status: BookStatus,
    minutes: Float,
    cooldown_secs: u64,
    max_per_hour: u32,
    now: u64,
)
    ensures
        early_objection(fired, ticker, mid_price, status, minutes, cooldown_secs, max_per_hour, now) is None <==> {
            &&& mid_price is Some
            &&& !(mid_price->0).le(Float { bits: 0x3f94_7ae1_47ae_147b })
            &&& !(Float { bits: 0x3fef_5c28_f5c2_8f5c }).le(mid_price->0)
            &&& fired.last.contains_key(ticker) ==> (if now < fired.last[ticker] {
                cooldown_secs == 0
            } else {
                now - fired.last[ticker] >= cooldown_secs * 1_000_000_000
            })
            &&& fired.forgetting(now).moments.len() < max_per_hour
        },
{
}

/// Each objection at the first look names its reason. Without a usable price the contract is
/// skipped; with one the signal is rejected.
pub proof fn early_objections_name_their_reason(
    fired: Fired,
    ticker: Seq<char>,
    mid_price: Option<Float>,
    status: BookStatus,
    minutes: Float,
    cooldown_secs: u64,
    max_per_hour: u32,
    now: u64,
)
    requires
        early_objection(fired, ticker, mid_price, status, minutes, cooldown_secs, max_per_hour, now) is Some,
    ensures
        ({
            let o = early_objection(fired, ticker, mid_price, status, minutes, cooldown_secs, max_per_hour, now)->0;
            let extreme = mid_price is Some && ((mid_price->0).le(Float { bits: 0x3f94_7ae1_47ae_147b }) || (Float {
                bits: 0x3fef_5c28_f5c2_8f5c,
            }).le(mid_price->0));
            let full = fired.forgetting(now).moments.len() >= max_per_hour;
            &&& mid_price is None ==> o.market_price is None && o.rejection_reason == Some(
                "no_price_data(book="@ + (if status.has_entry { "true"@ } else { "false"@ }) + ",bids="@ + (
                if status.has_bids { "true"@ } else { "false"@ }) + ",asks="@ + (if status.has_asks {
                    "true"@
                } else {
                    "false"@
                }) + ",tob="@ + (if status.has_tob { "true"@ } else { "false"@ }) + ")"@,
            )
            &&& extreme ==> o.rejection_reason == Some("extreme_market_price"@) && o.market_price == mid_price
            &&& mid_price is None || extreme <==> o.outcome == "skipped"@
            &&& mid_price is Some && !extreme <==> o.outcome == "rejected"@
            &&& mid_price is Some && !extreme && fired.resting(ticker, cooldown_secs, now) is None
                ==> o.rejection_reason == Some("hourly_rate_limit"@) && full
            &&& mid_price is Some && !extreme && fired.resting(ticker, cooldown_secs, now) is Some
                ==> o.rejection_reason == Some(
                "signal_cooldown ("@ + decimal((now - fired.last[ticker]) / 1_000_000_000) + "s/"@ + decimal(
                    cooldown_secs as int,
                ) + "s)"@,
            ) || now < fired.last[ticker]
            &&& o.ticker == ticker && o.signal_type == "crypto"@ && o.minutes_remaining == Some(minutes)
            &&& o.model_prob is None && o.direction is None && o.signal_id is None
        }),
{
    reveal_strlit("skipped");
    reveal_strlit("rejected");
    assert("skipped"@.len() != "rejected"@.len());
}

/// A signal to enter carries the facts that it was made on, and is on the favoured side.
pub proof fn signals_carry_their_facts(s: Signal, ticker: Seq<char>, value: ValueFacts, t: TradeFacts)
    requires
        enters(s, ticker, value, t),
    ensures
        s.ticker@ == ticker && s.signal_type@ == "crypto"@ && s.action@ == "entry"@,
        value.mid_price.lt(value.probability) ==> s.direction@ == "yes"@,
        !value.mid_price.lt(value.probability) ==> s.direction@ == "no"@,
        s.model_prob == value.probability && s.market_price == value.mid_price && s.confidence == value.confidence,
        s.edge == t.adjusted_edge && s.kelly_fraction == t.kelly && s.spread == t.spread,
        s.order_imbalance == t.order_imbalance && s.minutes_remaining == value.minutes_remaining,
        s.priority is NewData,
{
}

/// A record with all parts of the adjustment differs from one without them in these parts alone.
pub proof fn records_of_trades_agree(
    t: TradeFacts,
    value: ValueFacts,
    ticker: Seq<char>,
    outcome: Seq<char>,
    reason: Option<Seq<char>>,
)
    ensures
        ({
            let long = t.logged_micro(value, ticker, outcome, reason);
            let short = t.logged(value, ticker, outcome, reason);
            &&& long == (DecisionRecord {
                micro_total: Some(t.micro.total),
                micro_trade: Some(t.micro.trade_imbalance),
                micro_spread: Some(t.micro.spread_regime),
                micro_depth: Some(t.micro.depth_imbalance),
                micro_vwap: Some(t.micro.vwap_signal),
                micro_momentum: Some(t.micro.momentum_signal),
                micro_vol_surge: Some(t.micro.volume_surge_signal),
                ..short
            })
            &&& short.micro_total is None && short.micro_trade is None && short.micro_vwap is None
            &&& short.outcome == outcome && short.rejection_reason == reason && short.ticker == ticker
            &&& short.edge == Some(t.effective_edge) && short.adjusted_edge == Some(t.adjusted_edge)
            &&& short.model_prob == Some(value.probability) && short.market_price == Some(value.mid_price)
        }),
{
}

/// A yes stands among the bids and anything else among the asks; fills are estimated by the trade
/// limit, and by a hundred at most.
pub proof fn orders_stand_on_their_side(direction: Seq<char>, limit: i64)
    ensures
        stands_on(direction) is Bid <==> direction == "yes"@,
        stands_on(direction) is Ask <==> direction != "yes"@,
        estimated_by(limit) <= limit && estimated_by(limit) <= 100,
        estimated_by(limit) == limit || estimated_by(limit) == 100,
{
}

/// The signals of the hour come to be counted exactly for a ticker with a usable price that does not
/// rest.
pub proof fn the_hour_is_counted_for_what_may_fire(
    fired: Fired,
    ticker: Seq<char>,
    mid_price: Option<Float>,
    cooldown_secs: u64,
    now: u64,
)
    ensures
        hour_is_counted(fired, ticker, mid_price, cooldown_secs, now) <==> {
            &&& mid_price is Some
            &&& !(mid_price->0).le(Float { bits: 0x3f94_7ae1_47ae_147b })
            &&& !(Float { bits: 0x3fef_5c28_f5c2_8f5c }).le(mid_price->0)
            &&& fired.resting(ticker, cooldown_secs, now) is None
        },
{
}

/// Forgetting what lies more than an hour back changes no decision.
pub proof fn forgetting_changes_no_decision(
    fired: Fired,
    ticker: Seq<char>,
    mid_price: Option<Float>,
    status: BookStatus,
    minutes: Float,
    cooldown_secs: u64,
    max_per_hour: u32,
    now: u64,
)
    ensures
        early_objection(fired.forgetting(now), ticker, mid_price, status, minutes, cooldown_secs, max_per_hour, now)
            == early_objection(fired, ticker, mid_price, status, minutes, cooldown_secs, max_per_hour, now),
{
    let k = the_hour_is_an_hour(fired.moments, now);
    let once = within_hour(fired.moments, now);
    let m = the_hour_is_an_hour(once, now);
    if m > 0 {
        assert(once[0] == fired.moments[k]);
    }
    assert(once.skip(0) =~= once);
}

} // verus!
