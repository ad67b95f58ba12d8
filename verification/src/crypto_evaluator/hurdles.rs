//! The way of an entry over its hurdles: a first look, the fair value, the trade, the stored
//! signal and the risk checks. Each step starts from what the step before it gave out, so that no
//! order goes out that has not passed them all.
use vstd::prelude::*;
use vstd::string::*;

use crate::config::Config;
use crate::crypto_asset::CryptoAsset;
use crate::crypto_evaluator::entry::{
    early_objection, enters, hour_is_counted, judge_trade, judge_value, refused_entry, screen_entry,
    signal_entry, TradeFacts, ValueFacts,
};
use crate::crypto_evaluator::limiter::{Fired, SignalLimiter};
use crate::crypto_evaluator::{PRICE_CEILING_BITS, PRICE_FLOOR_BITS, PRICE_TOO_HIGH_BITS, PRICE_TOO_LOW_BITS};
use crate::crypto_fv::determine_direction;
use crate::crypto_state::CryptoStateInner;
use crate::decision_log::{DecisionEntry, DecisionRecord};
use crate::feed_health::{blocking_feeds_of, FeedHealth};
use crate::float::Float;
use crate::kalshi::orderbook::BookStatus;
use crate::kill_switch::KillSwitchState;
use crate::order_manager::ledger::Ledger;
use crate::order_manager::{submits, OrderManager, Submission};
use crate::types::Signal;

verus! {

/// What a first look saw: the signals that had fired, the book, and the moment.
pub struct FirstLook {
    pub fired: Fired,
    pub status: BookStatus,
    pub at: u64,
}

/// What the hurdle of the trade saw: when each feed was last updated, and the moment.
pub struct FeedLook {
    pub last_update: Map<Seq<char>, u64>,
    pub at: u64,
}

/// What the model says of a contract.
#[derive(Clone, Copy, Debug, PartialEq, Eq, Structural)]
pub struct Valuation {
    /// The contract is on the direction alone, not on a strike.
    pub directional: bool,
    pub probability: Float,
    pub confidence: Float,
    /// Distance between probability and price.
    pub raw_edge: Float,
    /// Distance between probability and one half.
    pub conviction: Float,
}

/// What is known of a contract at a price.
pub open spec fn value_facts(mid_price: Float, minutes_remaining: Float, v: Valuation) -> ValueFacts {
    ValueFacts {
        directional: v.directional,
        mid_price,
        minutes_remaining,
        probability: v.probability,
        confidence: v.confidence,
        raw_edge: v.raw_edge,
        conviction: v.conviction,
    }
}

/// An entry that has passed the first look.
pub struct ScreenedEntry<'a> {
    config: &'a Config,
    ticker: String,
    mid_price: Float,
    minutes: Float,
    look: Ghost<FirstLook>,
}

impl<'a> ScreenedEntry<'a> {
    pub closed spec fn settings(&self) -> Config {
        *self.config
    }

    pub closed spec fn name(&self) -> Seq<char> {
        self.ticker@
    }

    pub closed spec fn mid(&self) -> Float {
        self.mid_price
    }

    pub closed spec fn minutes_left(&self) -> Float {
        self.minutes
    }

    pub closed spec fn first_look(&self) -> FirstLook {
        self.look@
    }

    /// Nothing spoke against the entry at the first look.
    pub open spec fn passed(&self) -> bool {
        early_objection(
            self.first_look().fired,
            self.name(),
            Some(self.mid()),
            self.first_look().status,
            self.minutes_left(),
            self.settings().crypto_cooldown_secs,
            self.settings().crypto_max_signals_per_hour,
            self.first_look().at,
        ) is None
    }

    #[verifier::type_invariant]
    spec fn holds(&self) -> bool {
        self.passed()
    }

    /// Looks at an entry for the first time; otherwise the log entry that says why not.
    pub fn screen(
        limiter: &mut SignalLimiter,
        config: &'a Config,
        ticker: &str,
        mid_price: Option<Float>,
        status: BookStatus,
        minutes_remaining: Float,
        now: u64,
    ) -> (r: Result<ScreenedEntry<'a>, DecisionEntry>)
        requires
            old(limiter).wf(),
        ensures
            final(limiter).wf(),
            final(limiter)@ == (if hour_is_counted(
                old(limiter)@,
                ticker@,
                mid_price,
                config.crypto_cooldown_secs,
                now,
            ) {
                old(limiter)@.forgetting(now)
            } else {
                old(limiter)@
            }),
            ({
                let objection = early_objection(
                    old(limiter)@,
                    ticker@,
                    mid_price,
                    status,
                    minutes_remaining,
                    config.crypto_cooldown_secs,
                    config.crypto_max_signals_per_hour,
                    now,
                );
                match r {
                    Ok(s) => {
                        &&& objection is None
                        &&& s.settings() == *config
                        &&& s.name() == ticker@
                        &&& mid_price == Some(s.mid())
                        &&& s.minutes_left() == minutes_remaining
                        &&& s.first_look() == (FirstLook { fired: old(limiter)@, status, at: now })
                    },
                    Err(e) => objection == Some(e@),
                }
            }),
    {
        let ghost look = FirstLook { fired: limiter@, status, at: now };
        let objection: Option<DecisionEntry> = screen_entry(
            limiter,
            ticker,
            mid_price,
            status,
            minutes_remaining,
            config.crypto_cooldown_secs,
            config.crypto_max_signals_per_hour,
            now,
        );
        match (objection, mid_price) {
            (Some(e), _) => Err(e),
            (None, Some(mid)) => Ok(
                ScreenedEntry {
                    config,
                    ticker: ticker.to_owned(),
                    mid_price: mid,
                    minutes: minutes_remaining,
                    look: Ghost(look),
                },
            ),
            (None, None) => {
                assert(false);
                Err(DecisionEntry::default())
            },
        }
    }

    /// The hurdle of the fair value; otherwise the log entry that says why not.
    pub fn value(self, v: Valuation) -> (r: Result<ValuedEntry<'a>, DecisionEntry>)
        ensures
            ({
                let facts = value_facts(self.mid(), self.minutes_left(), v);
                let objection = facts.objection(self.name(), self.settings());
                match r {
                    Ok(e) => objection is None && e.screened_entry() == self && e.facts() == facts,
                    Err(e) => objection == Some(e@),
                }
            }),
    {
        let facts: ValueFacts = ValueFacts {
            directional: v.directional,
            mid_price: self.mid_price,
            minutes_remaining: self.minutes,
            probability: v.probability,
            confidence: v.confidence,
            raw_edge: v.raw_edge,
            conviction: v.conviction,
        };
        match judge_value(self.ticker.as_str(), &facts, self.config) {
            Ok(_) => Ok(ValuedEntry { screened: self, value: facts }),
            Err(e) => Err(e),
        }
    }
}

/// An entry whose fair value is acted upon.
pub struct ValuedEntry<'a> {
    screened: ScreenedEntry<'a>,
    value: ValueFacts,
}

impl<'a> ValuedEntry<'a> {
    pub closed spec fn screened_entry(&self) -> ScreenedEntry<'a> {
        self.screened
    }

    pub closed spec fn facts(&self) -> ValueFacts {
        self.value
    }

    /// Nothing spoke against the fair value.
    pub open spec fn passed(&self) -> bool {
        &&& self.facts().mid_price == self.screened_entry().mid()
        &&& self.facts().minutes_remaining == self.screened_entry().minutes_left()
        &&& self.facts().objection(self.screened_entry().name(), self.screened_entry().settings()) is None
    }

    #[verifier::type_invariant]
    spec fn holds(&self) -> bool {
        self.passed()
    }

    /// The side to take.
    pub fn direction(&self) -> (r: &'static str)
        ensures
            r@ == self.facts().direction(),
    {
        determine_direction(self.value.probability, self.value.mid_price).0
    }

    /// The hurdle of the trade; otherwise the log entry that says why not.
    pub fn trade(
        self,
        asset: CryptoAsset,
        trade: TradeFacts,
        feed_health: &FeedHealth,
        now: u64,
    ) -> (r: Result<JudgedEntry<'a>, DecisionEntry>)
        ensures
            ({
                let objection = trade.objection(
                    self.facts(),
                    self.screened_entry().name(),
                    asset,
                    self.screened_entry().settings(),
                    feed_health@,
                    now,
                );
                match r {
                    Ok(e) => {
                        &&& objection is None
                        &&& e.valued_entry() == self
                        &&& e.facts() == trade
                        &&& e.on() == asset
                        &&& e.feed_look() == (FeedLook { last_update: feed_health@, at: now })
                    },
                    Err(e) => objection == Some(e@),
                }
            }),
    {
        let judged: Result<Signal, DecisionEntry> = judge_trade(
            self.screened.ticker.as_str(),
            asset,
            &self.value,
            &trade,
            self.screened.config,
            feed_health,
            now,
        );
        match judged {
            Ok(signal) => Ok(
                JudgedEntry {
                    valued: self,
                    trade,
                    asset,
                    signal,
                    look: Ghost(FeedLook { last_update: feed_health@, at: now }),
                },
            ),
            Err(e) => Err(e),
        }
    }
}

/// An entry that a signal is made of.
pub struct JudgedEntry<'a> {
    valued: ValuedEntry<'a>,
    trade: TradeFacts,
    asset: CryptoAsset,
    signal: Signal,
    look: Ghost<FeedLook>,
}

/// What becomes of a signal.
pub enum EntryStep {
    /// Nothing: it could not be stored.
    NotStored,
    /// Nothing: the risk checks refuse it for this reason.
    Refused(String),
    /// The order on its way.
    Submit(Submission),
}

/// What becomes of a signal once it has been stored or could not be: a stored one fires, and is
/// acted upon if the risk checks let it.
pub open spec fn acts_on(
    r: EntryStep,
    name: Seq<char>,
    signal: Signal,
    config: Config,
    fired: Fired,
    fired_after: Fired,
    before: Ledger,
    after: Ledger,
    stake: i64,
    percent: i64,
    switches: KillSwitchState,
    last_update: Map<Seq<char>, u64>,
    crypto_state: CryptoStateInner,
    signal_id: Option<i64>,
    now: u64,
    today: i64,
) -> bool {
    match signal_id {
        None => r is NotStored && fired_after == fired && after == before,
        Some(_) => {
            &&& fired_after == fired.firing(name, now)
            &&& match before.refusal(config, signal, stake, switches, last_update, now, today) {
                Some(reason) => {
                    &&& r matches EntryStep::Refused(m) && m@ == reason
                    &&& after == before
                },
                None => r matches EntryStep::Submit(s) && submits(
                    s,
                    before,
                    after,
                    config,
                    signal,
                    stake,
                    percent,
                    signal_id,
                    crypto_state,
                    now,
                ),
            }
        },
    }
}

impl<'a> JudgedEntry<'a> {
    pub closed spec fn valued_entry(&self) -> ValuedEntry<'a> {
        self.valued
    }

    pub closed spec fn facts(&self) -> TradeFacts {
        self.trade
    }

    pub closed spec fn on(&self) -> CryptoAsset {
        self.asset
    }

    pub closed spec fn wanted(&self) -> Signal {
        self.signal
    }

    pub closed spec fn feed_look(&self) -> FeedLook {
        self.look@
    }

    pub open spec fn settings(&self) -> Config {
        self.valued_entry().screened_entry().settings()
    }

    pub open spec fn name(&self) -> Seq<char> {
        self.valued_entry().screened_entry().name()
    }

    /// Nothing spoke against the trade, and the signal is the one for it.
    pub open spec fn passed(&self) -> bool {
        &&& self.facts().objection(
            self.valued_entry().facts(),
            self.name(),
            self.on(),
            self.settings(),
            self.feed_look().last_update,
            self.feed_look().at,
        ) is None
        &&& enters(self.wanted(), self.name(), self.valued_entry().facts(), self.facts())
    }

    /// The entry passed the first look, the hurdle of the fair value and that of the trade.
    pub open spec fn passed_all(&self) -> bool {
        self.valued_entry().screened_entry().passed() && self.valued_entry().passed() && self.passed()
    }

    #[verifier::type_invariant]
    spec fn holds(&self) -> bool {
        self.passed()
    }

    /// The signal, which is to be stored.
    pub fn signal(&self) -> (r: &Signal)
        ensures
            *r == self.wanted(),
            self.passed_all(),
    {
        proof {
            use_type_invariant(self);
            use_type_invariant(&self.valued);
            use_type_invariant(&self.valued.screened);
        }
        &self.signal
    }

    /// What becomes of the signal once it has been stored, under `signal_id`, or could not be. A
    /// stored signal fires. It is acted upon if the risk checks let it; an order goes out in no
    /// other case, and only for an entry that has passed every hurdle before.
    pub fn after_signal(
        &self,
        limiter: &mut SignalLimiter,
        orders: &mut OrderManager,
        stake: i64,
        percent: i64,
        switches: &KillSwitchState,
        feed_health: &FeedHealth,
        crypto_state: &CryptoStateInner,
        signal_id: Option<i64>,
        now: u64,
        today: i64,
    ) -> (r: EntryStep)
        requires
            old(limiter).wf(),
            old(orders).wf(),
            signal_id is Some && old(orders)@.refusal(
                self.settings(),
                self.wanted(),
                stake,
                *switches,
                feed_health@,
                now,
                today,
            ) is None ==> old(orders)@.sequence < u64::MAX,
        ensures
            final(limiter).wf(),
            final(orders).wf(),
            self.passed_all(),
            acts_on(
                r,
                self.name(),
                self.wanted(),
                self.settings(),
                old(limiter)@,
                final(limiter)@,
                old(orders)@,
                final(orders)@,
                stake,
                percent,
                *switches,
                feed_health@,
                *crypto_state,
                signal_id,
                now,
                today,
            ),
    {
        proof {
            use_type_invariant(self);
            use_type_invariant(&self.valued);
            use_type_invariant(&self.valued.screened);
        }
        if signal_id.is_none() {
            return EntryStep::NotStored;
        }
        let config: &Config = self.valued.screened.config;
        limiter.fire(self.valued.screened.ticker.as_str(), now);
        match orders.check_risk(config, &self.signal, stake, switches, feed_health, now, today) {
            Err(reason) => EntryStep::Refused(reason),
            Ok(_) => EntryStep::Submit(
                orders.submit_entry(config, &self.signal, stake, percent, signal_id, crypto_state, now),
            ),
        }
    }

    /// The log entry on a signal that the risk checks refused.
    pub fn log_refused(&self, reason: String, signal_id: Option<i64>) -> (r: DecisionEntry)
        ensures
            r@ == (DecisionRecord {
                signal_id,
                ..self.facts().logged(self.valued_entry().facts(), self.name(), "rejected"@, Some(reason@))
            }),
    {
        refused_entry(self.valued.screened.ticker.as_str(), &self.valued.value, &self.trade, reason, signal_id)
    }

    /// The log entry on a signal that was acted upon.
    pub fn log_acted(&self, signal_id: Option<i64>) -> (r: DecisionEntry)
        ensures
            r@ == (DecisionRecord {
                signal_id,
                ..self.facts().logged_micro(self.valued_entry().facts(), self.name(), "signal"@, None)
            }),
    {
        signal_entry(self.valued.screened.ticker.as_str(), &self.valued.value, &self.trade, signal_id)
    }
}

/// What an entry that has passed every hurdle keeps: a price inside the range and the band, enough
/// confidence, a market that does not disagree too much, an edge within its limits, a stake that is
/// worth it, fresh feeds, a ticker that does not rest and room within the hour. What is not a
/// number passes any limit.
pub proof fn passed_entries_keep_the_limits(e: JudgedEntry<'_>)
    requires
        e.passed_all(),
    ensures
        ({
            let config = e.settings();
            let value = e.valued_entry().facts();
            let trade = e.facts();
            let look = e.valued_entry().screened_entry().first_look();
            let mid = value.mid_price;
            &&& !mid.not_a_number() ==> (Float { bits: PRICE_TOO_LOW_BITS }).lt(mid) && mid.lt(
                Float { bits: PRICE_TOO_HIGH_BITS },
            )
            &&& !mid.not_a_number() ==> (Float { bits: PRICE_FLOOR_BITS }).le(mid) && mid.le(
                Float { bits: PRICE_CEILING_BITS },
            )
            &&& !value.confidence.lt(config.crypto_min_confidence.value)
            &&& !config.crypto_max_market_disagreement.value.lt(value.raw_edge)
            &&& !trade.adjusted_edge.lt(config.crypto_min_edge.value)
            &&& !config.crypto_max_edge.value.lt(trade.adjusted_edge)
            &&& !trade.kelly.lt(config.crypto_min_kelly.value)
            &&& blocking_feeds_of(e.feed_look().last_update, e.on(), e.feed_look().at).len() == 0
            &&& look.fired.resting(e.name(), config.crypto_cooldown_secs, look.at) is None
            &&& look.fired.forgetting(look.at).moments.len() < config.crypto_max_signals_per_hour
        }),
{
}

/// A signal fires exactly if it was stored. An order goes out exactly for a stored signal that the
/// risk checks let through, under the number that it was stored with, and then nothing in its
/// ticker was held and trading was not halted; in every other case no order changes.
pub proof fn stored_signals_fire_and_are_checked(
    r: EntryStep,
    name: Seq<char>,
    signal: Signal,
    config: Config,
    fired: Fired,
    fired_after: Fired,
    before: Ledger,
    after: Ledger,
    stake: i64,
    percent: i64,
    switches: KillSwitchState,
    last_update: Map<Seq<char>, u64>,
    crypto_state: CryptoStateInner,
    signal_id: Option<i64>,
    now: u64,
    today: i64,
)
    requires
        acts_on(
            r,
            name,
            signal,
            config,
            fired,
            fired_after,
            before,
            after,
            stake,
            percent,
            switches,
            last_update,
            crypto_state,
            signal_id,
            now,
            today,
        ),
    ensures
        r is NotStored <==> signal_id is None,
        signal_id is None ==> fired_after == fired,
        signal_id is Some ==> fired_after.moments == fired.moments.push(now) && fired_after.last == fired.last.insert(
            name,
            now,
        ),
        r is Submit ==> before.refusal(config, signal, stake, switches, last_update, now, today) is None,
        r is Submit ==> !before.positions.contains_key(signal.ticker@) && !switches.kill_all,
        r is Submit ==> before.positions.len() < config.max_positions,
        signal_id is Some && before.refusal(config, signal, stake, switches, last_update, now, today) is None ==> r
            is Submit,
        r matches EntryStep::Submit(s) ==> s.order.signal_id == signal_id,
        !(r is Submit) ==> after == before,
{
}

/// What is known of a contract at a price is what the model said, at that price.
pub proof fn facts_are_what_the_model_said(mid_price: Float, minutes: Float, v: Valuation)
    ensures
        ({
            let f = value_facts(mid_price, minutes, v);
            &&& f.mid_price == mid_price && f.minutes_remaining == minutes && f.directional == v.directional
            &&& f.probability == v.probability && f.confidence == v.confidence && f.raw_edge == v.raw_edge
                && f.conviction == v.conviction
        }),
{
}

} // verus!
