//! What the order manager knows, as mathematics: orders by their ids, positions by ticker, the
//! day's balance, cooldowns and the moments of past orders. Every operation of the manager is a
//! function on this.
use std::collections::hash_map::DefaultHasher;
use vstd::bytes::spec_u64_to_le_bytes;
use vstd::prelude::*;
use vstd::std_specs::hash::*;
use vstd::string::*;
use vstd::utf8::encode_utf8;

use crate::config::Config;
use crate::crypto_state::CryptoStateInner;
use crate::feed_health::blocking_feeds;
use crate::float::Float;
use crate::kalshi::error::KalshiError;
use crate::kalshi::types::{stated, Order, OrderRequest, Position};
use crate::kill_switch::KillSwitchState;
use crate::order_manager::limits::{recent, trimmed};
use crate::order_manager::order::{new_record, FillPrice, OrderRecord, OrderState};
use crate::order_manager::pnl::DailyPnl;
use crate::text::{decimal, padded_hex};
use crate::time::{secs, since};
use crate::types::Signal;

verus! {

pub struct Ledger {
    pub orders: Map<Seq<char>, OrderRecord>,
    /// Ticker to the id of the order that holds the position.
    pub positions: Map<Seq<char>, Seq<char>>,
    pub pnl: DailyPnl,
    /// Ticker to the moment of the last signal acted upon.
    pub cooldowns: Map<Seq<char>, u64>,
    pub stamps: Seq<u64>,
    pub ticker_stamps: Map<Seq<char>, Seq<u64>>,
    pub sequence: u64,
}

/// Number sent out in a minute at most.
pub const ORDERS_PER_MINUTE: usize = 10;

/// Number sent out for one ticker in five minutes at most.
pub const ORDERS_PER_TICKER: usize = 2;

/// The text between quotation marks.
pub open spec fn marked(s: Seq<char>) -> Seq<char> {
    "\""@ + s + "\""@
}

/// Texts between quotation marks, with commas between them.
pub open spec fn marked_list(names: Seq<Seq<char>>) -> Seq<char>
    decreases names.len(),
{
    if names.len() == 0 {
        Seq::empty()
    } else if names.len() == 1 {
        marked(names[0])
    } else {
        marked_list(names.drop_last()) + ", "@ + marked(names.last())
    }
}

/// What a whole number of 64 bits, negative or not, is as an unsigned one with the same bits.
pub open spec fn as_unsigned(x: i64) -> u64 {
    if x < 0 { (x + 0x1_0000_0000_0000_0000) as u64 } else { x as u64 }
}

/// The hash that ties an order id to its signal: over ticker, direction and type, each closed
/// by a byte that no text holds, and over the model's probability in whole percent.
pub open spec fn signal_hash(s: Signal, percent: i64) -> u64 {
    DefaultHasher::spec_finish(
        seq![
            encode_utf8(s.ticker@),
            seq![0xffu8],
            encode_utf8(s.direction@),
            seq![0xffu8],
            encode_utf8(s.signal_type@),
            seq![0xffu8],
            spec_u64_to_le_bytes(as_unsigned(percent)),
        ],
    )
}

/// The id of an order: the low twelve digits of the hash of its signal, and its number.
pub open spec fn order_id(hash: u64, number: u64) -> Seq<char> {
    "tb-"@ + padded_hex((hash % 0x1_0000_0000_0000) as nat, 12) + "-"@ + decimal(number as int)
}

/// How long a ticker rests after a signal, in seconds.
pub open spec fn cooldown(signal_type: Seq<char>, config: Option<Config>) -> u64 {
    if signal_type == "crypto"@ {
        match config {
            Some(c) => c.crypto_cooldown_secs,
            None => 30,
        }
    } else if signal_type == "weather"@ {
        match config {
            Some(c) => c.weather_cooldown_secs,
            None => 120,
        }
    } else {
        60
    }
}

/// The size of an order, given what the stake comes to in cents: no more than the limit, and at
/// least one.
pub open spec fn order_size(config: Config, stake: i64) -> i64 {
    let capped = if stake < config.max_trade_size_cents { stake } else { config.max_trade_size_cents };
    if capped > 1 { capped } else { 1 }
}

/// The sum of the exposures of all orders.
pub open spec fn total_exposure(orders: Map<Seq<char>, OrderRecord>) -> int
    decreases orders.dom().len(),
    when orders.dom().finite()
{
    if orders.dom().len() == 0 {
        0
    } else {
        let k = orders.dom().choose();
        orders[k].exposure() + total_exposure(orders.remove(k))
    }
}

/// Taking one order out takes its exposure out.
pub proof fn exposure_without(orders: Map<Seq<char>, OrderRecord>, k: Seq<char>)
    requires
        orders.dom().finite(),
        orders.contains_key(k),
    ensures
        total_exposure(orders) == orders[k].exposure() + total_exposure(orders.remove(k)),
    decreases orders.dom().len(),
{
    let c = orders.dom().choose();
    if c != k {
        exposure_without(orders.remove(c), k);
        exposure_without(orders.remove(k), c);
        assert(orders.remove(c).remove(k) =~= orders.remove(k).remove(c));
    }
}

impl Ledger {
    /// Whether a ticker still rests from its last signal.
    pub open spec fn cooling(self, signal: Signal, config: Option<Config>, now: u64) -> bool {
        self.cooldowns.contains_key(signal.ticker@) && since(now, self.cooldowns[signal.ticker@]) < secs(
            cooldown(signal.signal_type@, config) as int,
        )
    }

    /// Whether one more order may go out within the minute.
    pub open spec fn minute_has_room(self, now: u64) -> bool {
        recent(self.stamps, now, 60) < ORDERS_PER_MINUTE
    }

    /// Whether one more order for the ticker may go out within five minutes.
    pub open spec fn ticker_has_room(self, ticker: Seq<char>, now: u64) -> bool {
        self.ticker_stamps.contains_key(ticker) ==> recent(self.ticker_stamps[ticker], now, 300)
            < ORDERS_PER_TICKER
    }

    /// Whether a signal passes the cooldown: a certain outcome always does, fresh data with more
    /// than twice the least edge.
    pub open spec fn passes_cooldown(signal: Signal, config: Config) -> bool {
        signal.priority is LockDetection || (signal.priority is NewData
            && config.crypto_min_edge.value.twice().lt(signal.edge))
    }

    /// Why an entry is refused, the first reason that applies; `None` where it is not.
    pub open spec fn refusal(
        self,
        config: Config,
        signal: Signal,
        stake: i64,
        switches: KillSwitchState,
        last_update: Map<Seq<char>, u64>,
        now: u64,
        today: i64,
    ) -> Option<Seq<char>> {
        let stale = blocking_feeds(last_update, signal.signal_type@, now);
        if switches.blocks(signal.signal_type@) {
            Some("blocked by kill switch"@)
        } else if stale.len() > 0 {
            Some("stale feeds: ["@ + marked_list(stale) + "]"@)
        } else if self.cooling(signal, Some(config), now) && !Self::passes_cooldown(signal, config) {
            Some(
                "signal cooldown ("@ + decimal(cooldown(signal.signal_type@, Some(config)) as int)
                    + "s remaining)"@,
            )
        } else if self.positions.contains_key(signal.ticker@) {
            Some("already holding position"@)
        } else if self.positions.len() >= config.max_positions {
            Some(
                "max positions reached ("@ + decimal(self.positions.len() as int) + "/"@ + decimal(
                    config.max_positions as int,
                ) + ")"@,
            )
        } else if self.pnl.loss_on(today) >= config.max_daily_loss_cents {
            Some(
                "daily loss limit reached ("@ + decimal(self.pnl.loss_on(today)) + " >= "@ + decimal(
                    config.max_daily_loss_cents as int,
                ) + ")"@,
            )
        } else if total_exposure(self.orders) + order_size(config, stake) > config.max_exposure_cents {
            Some("would exceed max exposure"@)
        } else if !self.minute_has_room(now) {
            Some("global rate limit (10/min)"@)
        } else if !self.ticker_has_room(signal.ticker@, now) {
            Some("per-ticker rate limit (2/5min)"@)
        } else {
            None
        }
    }

    /// The ticker starts to rest.
    pub open spec fn with_cooldown(self, ticker: Seq<char>, now: u64) -> Ledger {
        Ledger { cooldowns: self.cooldowns.insert(ticker, now), ..self }
    }

    /// An order for the ticker has gone out.
    pub open spec fn with_submission(self, ticker: Seq<char>, now: u64) -> Ledger {
        let before = if self.ticker_stamps.contains_key(ticker) {
            self.ticker_stamps[ticker]
        } else {
            Seq::empty()
        };
        Ledger {
            stamps: trimmed(self.stamps.push(now), now),
            ticker_stamps: self.ticker_stamps.insert(ticker, trimmed(before.push(now), now)),
            ..self
        }
    }

    pub open spec fn with_position(self, ticker: Seq<char>, id: Seq<char>) -> Ledger {
        Ledger { positions: self.positions.insert(ticker, id), ..self }
    }

    pub open spec fn without_position(self, ticker: Seq<char>) -> Ledger {
        Ledger { positions: self.positions.remove(ticker), ..self }
    }

    pub open spec fn with_order(self, order: OrderRecord) -> Ledger {
        Ledger { orders: self.orders.insert(order.client_order_id, order), ..self }
    }

    /// The order holds the position in a ticker from here on.
    pub open spec fn holding(self, ticker: Seq<char>, order: OrderRecord) -> Ledger {
        self.with_position(ticker, order.client_order_id).with_order(order)
    }

    /// Every position rests on an order that is kept.
    pub open spec fn backed(self) -> bool {
        forall|t: Seq<char>| #[trigger] self.positions.contains_key(t) ==> self.orders.contains_key(self.positions[t])
    }

    pub open spec fn numbered(self) -> Ledger {
        Ledger { sequence: (self.sequence + 1) as u64, ..self }
    }

    /// The id of the next order for a signal.
    pub open spec fn next_id(self, signal: Signal, percent: i64) -> Seq<char> {
        order_id(signal_hash(signal, percent), (self.sequence + 1) as u64)
    }

    /// The order that a signal leads to, checked and about to be sent.
    pub open spec fn opened(
        self,
        signal: Signal,
        percent: i64,
        direction: Seq<char>,
        size: i64,
        signal_id: Option<i64>,
        crypto_state: CryptoStateInner,
        now: u64,
    ) -> OrderRecord {
        OrderRecord {
            signal_id,
            ..new_record(
                self.next_id(signal, percent),
                signal.ticker@,
                signal.signal_type@,
                direction,
                size,
                signal.model_prob,
                signal.market_price,
                if signal.signal_type@ == "crypto"@ { Some(crypto_state) } else { None },
                now,
            )
        }.moved(OrderState::Submitting, now)
    }

    /// What a paper entry leaves behind: a position, a resting ticker and a counted order. The
    /// order is kept once it is stored.
    pub open spec fn paper_entered(self, ticker: Seq<char>, id: Seq<char>, now: u64) -> Ledger {
        self.numbered().with_position(ticker, id).with_cooldown(ticker, now).with_submission(ticker, now)
    }

    /// What a prepared entry leaves behind: a resting ticker and a counted order.
    pub open spec fn prepared(self, ticker: Seq<char>, now: u64) -> Ledger {
        self.numbered().with_cooldown(ticker, now).with_submission(ticker, now)
    }

    /// The order that holds the position in a ticker; `None` where none is held, or where its
    /// order is not kept because it could not be stored.
    pub open spec fn holder(self, ticker: Seq<char>) -> Option<OrderRecord> {
        if self.positions.contains_key(ticker) && self.orders.contains_key(self.positions[ticker]) {
            Some(self.orders[self.positions[ticker]])
        } else {
            None
        }
    }

    /// What an exit from a ticker sells: what was bought, or one where the order is not kept.
    pub open spec fn exit_size(self, ticker: Seq<char>) -> i64 {
        match self.holder(ticker) {
            Some(o) => o.filled_qty,
            None => 1,
        }
    }

    /// The direction of the position in a ticker, taken to be yes where the order is not kept.
    pub open spec fn held_way(self, ticker: Seq<char>) -> Seq<char> {
        match self.holder(ticker) {
            Some(o) => o.direction,
            None => "yes"@,
        }
    }

    /// The price paid for a position, where it is known.
    pub open spec fn price_paid(self, ticker: Seq<char>) -> Option<FillPrice> {
        match self.holder(ticker) {
            Some(o) => o.entry_price,
            None => None,
        }
    }

    /// A stored order that counts as filled has no position.
    pub open spec fn likely_settled(self, ticker: Seq<char>, state: Seq<char>) -> bool {
        state == "filled"@ && !self.positions.contains_key(ticker)
    }

    /// Whether the price paid for a position is known.
    pub open spec fn cost_known(self, ticker: Seq<char>) -> bool {
        match self.holder(ticker) {
            Some(o) => o.entry_price is Some,
            None => false,
        }
    }

    /// Whether the outcome of an exit can be booked, where there is one to be booked.
    pub open spec fn can_close(self, ticker: Seq<char>, pnl: i64, today: i64) -> bool {
        self.cost_known(ticker) ==> self.pnl.can_book(pnl as int, today)
    }

    /// Whether the outcome of an exit can be booked, where the reply fills it.
    pub open spec fn can_answer_exit(
        self,
        order: OrderRecord,
        reply: Result<Order, KalshiError>,
        ticker: Seq<char>,
        pnl: i64,
        today: i64,
    ) -> bool {
        match reply {
            Ok(placed) => 0 < placed.filled_count() && order.requested_qty <= placed.filled_count() ==> self.can_close(
                ticker,
                pnl,
                today,
            ),
            Err(_) => true,
        }
    }

    /// The position is closed; its outcome is booked if the price paid for it is known.
    pub open spec fn closed(self, ticker: Seq<char>, pnl: i64, today: i64) -> Ledger {
        let booked = if self.cost_known(ticker) {
            Ledger { pnl: self.pnl.booked(pnl as int, today), ..self }
        } else {
            self
        };
        booked.without_position(ticker)
    }

    /// The order after the exchange took it: filled, filled in part, or acknowledged.
    pub open spec fn accepted(order: OrderRecord, reply: Order, now: u64) -> OrderRecord {
        let known = OrderRecord { kalshi_order_id: Some(reply.order_id@), ..order };
        if reply.filled_count() > 0 {
            known.took_fill(
                reply.filled_count() as i64,
                match reply.stated_price() {
                    Some(cents) => Some(FillPrice::Cents(cents)),
                    None => None,
                },
                now,
            )
        } else {
            known.moved(OrderState::Acknowledged, now)
        }
    }

    /// An error by which the exchange refuses an order; after any other its fate is unknown.
    pub open spec fn refuses(e: KalshiError) -> bool {
        e is InsufficientFunds || e is MarketClosed || e is RateLimit
    }

    /// What an entry that the exchange took leaves behind. The order is kept once it is stored.
    pub open spec fn entered(self, order: OrderRecord, reply: Order, ticker: Seq<char>, now: u64) -> Ledger {
        let after = Self::accepted(order, reply, now);
        let held = if reply.filled_count() > 0 && after.state.filled() {
            self.with_position(ticker, after.client_order_id)
        } else {
            self
        };
        held.with_cooldown(ticker, now).with_submission(ticker, now)
    }

    /// An order whose cancellation the exchange answered.
    pub open spec fn cancelled(self, id: Seq<char>, confirmed: bool, now: u64) -> Ledger {
        let o = self.orders[id];
        let to = if confirmed { OrderState::Cancelled } else { OrderState::Unknown };
        let moved = Ledger { orders: self.orders.insert(id, o.moved(to, now)), ..self };
        if confirmed && o.filled_qty == 0 { moved.without_position(o.ticker) } else { moved }
    }

    /// A closed order that was made an hour ago or earlier.
    pub open spec fn expired(o: OrderRecord, now: u64) -> bool {
        o.state.terminal() && since(now, o.created_at) >= secs(3600)
    }

    /// A position rests on the order of that id.
    pub open spec fn rests_on(self, id: Seq<char>) -> bool {
        exists|t: Seq<char>| #[trigger] self.positions.contains_key(t) && self.positions[t] == id
    }

    /// Without the expired orders, except those that a position rests on.
    pub open spec fn tidied(self, now: u64) -> Ledger {
        Ledger {
            orders: self.orders.restrict(
                Set::new(|id: Seq<char>| self.rests_on(id) || !Self::expired(self.orders[id], now)),
            ),
            ..self
        }
    }

    /// The position that the exchange reports is taken over if it is not known yet.
    pub open spec fn adopted(self, p: Position, now: u64) -> Ledger {
        let exposure = stated(p.market_exposure);
        let size = (if exposure < 0 { -exposure } else { exposure }) as i64;
        let id = "reconciled-"@ + p.ticker@;
        if exposure != 0 && !self.positions.contains_key(p.ticker@) {
            let made = new_record(
                id,
                p.ticker@,
                "unknown"@,
                "yes"@,
                size,
                Float { bits: 0 },
                Float { bits: 0 },
                None,
                now,
            );
            self.holding(p.ticker@, OrderRecord { filled_qty: size, ..made }.moved(OrderState::Filled, now))
        } else {
            self
        }
    }

    /// The reported positions are taken over, one after the other.
    pub open spec fn adopted_all(self, ps: Seq<Position>, now: u64) -> Ledger
        decreases ps.len(),
    {
        if ps.len() == 0 {
            self
        } else {
            self.adopted_all(ps.drop_last(), now).adopted(ps.last(), now)
        }
    }

    /// Positions that the exchange does not hold are dropped; none is added.
    pub open spec fn reconciled(self, ps: Seq<Position>) -> Ledger {
        Ledger { positions: self.positions.restrict(held_on_exchange(ps).dom()), ..self }
    }
}

/// What the exchange holds, by ticker; of two reports on one ticker the later stands.
pub open spec fn held_on_exchange(ps: Seq<Position>) -> Map<Seq<char>, i64>
    decreases ps.len(),
{
    if ps.len() == 0 {
        Map::empty()
    } else if stated(ps.last().market_exposure) != 0 {
        held_on_exchange(ps.drop_last()).insert(ps.last().ticker@, stated(ps.last().market_exposure) as i64)
    } else {
        held_on_exchange(ps.drop_last())
    }
}

/// The low 32 bits of a whole number, read as a signed one.
pub open spec fn low_half(q: i64) -> i32 {
    let m = (q + 0x8000_0000) % 0x1_0000_0000;
    (m - 0x8000_0000) as i32
}

/// The order that a request asks for.
pub open spec fn asks_for(r: OrderRequest, ticker: Seq<char>, action: Seq<char>, side: Seq<char>, count: i64, id: Seq<char>) -> bool {
    &&& r.ticker@ == ticker
    &&& r.action@ == action
    &&& r.side@ == side
    &&& r.order_type@ == "market"@
    &&& r.count == count
    &&& r.yes_price is None
    &&& r.no_price is None
    &&& r.client_order_id matches Some(c) && c@ == id
    &&& r.expiration_time is None
}

} // verus!
