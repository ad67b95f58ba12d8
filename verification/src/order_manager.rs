//! The life of an order, from signal to settlement: the risk checks before it, the limits on how
//! often orders go out, and the positions that come of it.
//!
//! Sending an order is left to the caller: an operation that needs the exchange comes in two
//! steps, one that prepares the request and one that takes the reply.
use std::collections::hash_map::DefaultHasher;
use std::collections::VecDeque;
use std::hash::Hasher;
use vstd::prelude::*;
use vstd::std_specs::hash::*;
use vstd::string::*;
use vstd::utf8::encode_utf8;

use crate::config::Config;
use crate::crypto_state::CryptoStateInner;
use crate::feed_health::FeedHealth;
use crate::float::Float;
use crate::kalshi::error::KalshiError;
use crate::kalshi::types::{stated, Order, OrderRequest, Position};
use crate::kill_switch::KillSwitchState;
use crate::order_manager::ledger::{
    as_unsigned, asks_for, cooldown, exposure_without, held_on_exchange, low_half, marked, marked_list,
    order_id, order_size, signal_hash, total_exposure, Ledger, ORDERS_PER_MINUTE, ORDERS_PER_TICKER,
};
use crate::order_manager::limits::{count_recent, record};
pub use crate::order_manager::order::{FillPrice, ManagedOrder, OrderRecord, OrderState};
pub use crate::order_manager::pnl::DailyPnl;
use crate::table::{association, association_looks_up, distinct_keys, Table};
use crate::text::{hex_text, i64_text, joined, same_text, texts, u64_text, usize_text};
use crate::time::younger_than_secs;
use crate::types::{Signal, SignalPriority};

pub mod laws;
pub mod ledger;
pub mod limits;
pub mod order;
pub mod outcomes;
pub mod pnl;

verus! {

/// The records of the orders.
pub open spec fn records(m: Map<Seq<char>, ManagedOrder>) -> Map<Seq<char>, OrderRecord> {
    m.map_values(|o: ManagedOrder| o@)
}

/// The texts that keys are bound to.
pub open spec fn bound_texts(m: Map<Seq<char>, String>) -> Map<Seq<char>, Seq<char>> {
    m.map_values(|s: String| s@)
}

/// The moments that keys are bound to.
pub open spec fn bound_moments(m: Map<Seq<char>, VecDeque<u64>>) -> Map<Seq<char>, Seq<u64>> {
    m.map_values(|d: VecDeque<u64>| d@)
}

/// All orders and positions, and what limits further ones.
pub struct OrderManager {
    orders: Table<ManagedOrder>,
    positions: Table<String>,
    daily_pnl: DailyPnl,
    signal_cooldowns: Table<u64>,
    order_timestamps: VecDeque<u64>,
    ticker_order_timestamps: Table<VecDeque<u64>>,
    sequence: u64,
}

impl View for OrderManager {
    type V = Ledger;

    closed spec fn view(&self) -> Ledger {
        Ledger {
            orders: records(self.orders@),
            positions: bound_texts(self.positions@),
            pnl: self.daily_pnl,
            cooldowns: self.signal_cooldowns@,
            stamps: self.order_timestamps@,
            ticker_stamps: bound_moments(self.ticker_order_timestamps@),
            sequence: self.sequence,
        }
    }
}

/// An order on its way: the order itself and, unless it was filled on paper, the request that
/// is to be sent.
pub struct Submission {
    pub order: ManagedOrder,
    pub request: Option<OrderRequest>,
    /// Whether the order went only where it may go.
    pub lawful: bool,
}

/// An entry is on its way: on paper it is filled and its position is held, otherwise it is asked
/// for.
pub open spec fn submits(
    r: Submission,
    before: Ledger,
    after: Ledger,
    config: Config,
    signal: Signal,
    stake: i64,
    percent: i64,
    signal_id: Option<i64>,
    crypto_state: CryptoStateInner,
    now: u64,
) -> bool {
    let size = order_size(config, stake);
    let opened = before.opened(signal, percent, signal.direction@, size, signal_id, crypto_state, now);
    &&& r.lawful
    &&& if config.paper_mode {
        &&& r.request is None
        &&& r.order@ == opened.took_fill(size, Some(FillPrice::Quote(signal.market_price)), now)
        &&& after == before.paper_entered(signal.ticker@, before.next_id(signal, percent), now)
    } else {
        &&& r.request matches Some(q) && asks_for(
            q,
            signal.ticker@,
            "buy"@,
            signal.direction@,
            size,
            before.next_id(signal, percent),
        )
        &&& r.order@ == opened
        &&& after == before.numbered()
    }
}

/// An entry is prepared: it is to be asked for unless orders are filled on paper.
pub open spec fn prepares(
    r: Submission,
    before: Ledger,
    config: Config,
    signal: Signal,
    stake: i64,
    percent: i64,
    crypto_state: CryptoStateInner,
    now: u64,
) -> bool {
    let size = order_size(config, stake);
    &&& r.lawful
    &&& r.order@ == before.opened(signal, percent, signal.direction@, size, None, crypto_state, now)
    &&& match r.request {
        Some(q) => !config.paper_mode && asks_for(
            q,
            signal.ticker@,
            "buy"@,
            signal.direction@,
            size,
            before.next_id(signal, percent),
        ),
        None => config.paper_mode,
    }
}

/// What is to be done with an order once the exchange has answered.
pub enum Answered {
    /// To be stored, then kept.
    Store { order: ManagedOrder, lawful: bool },
    /// It is kept with its fate unknown, and the error goes to the caller.
    Failed { error: KalshiError },
}

/// What is to be done about a signal.
pub enum SignalRoute {
    /// Nothing: there is no position to leave.
    Ignore,
    Exit,
    /// Nothing, for this reason.
    Refuse(String),
    /// The entry that is prepared.
    Enter(Submission),
}

/// What the exchange made of a prepared entry.
pub enum Placed {
    /// It took the order; whether the order went only where it may go.
    Taken { lawful: bool },
    /// It refused the order.
    Refused(KalshiError),
    /// The fate of the order is unknown.
    Lost(KalshiError),
}

/// What the exchange's reply to an entry leads to. What it took or refused is to be stored, then
/// kept; of anything else the fate is unknown.
pub open spec fn settles_entry(
    r: Answered,
    before: Ledger,
    after: Ledger,
    order: OrderRecord,
    ticker: Seq<char>,
    reply: Result<Order, KalshiError>,
    latency_ms: i64,
    now: u64,
) -> bool {
    match reply {
        Ok(placed) => {
            let sent = OrderRecord { latency_ms: Some(latency_ms), ..order };
            &&& after == before.entered(sent, placed, ticker, now)
            &&& r matches Answered::Store { order: o, lawful } && o@ == Ledger::accepted(sent, placed, now) && lawful
                == order.state.may_become(o.state)
        },
        Err(e) => if Ledger::refuses(e) {
            &&& after == before
            &&& r matches Answered::Store { order: o, lawful } && o@ == order.moved(OrderState::Rejected, now)
                && lawful == order.state.may_become(OrderState::Rejected)
        } else {
            &&& after == before.with_order(order.moved(OrderState::Unknown, now))
            &&& r matches Answered::Failed { error } && error == e
        },
    }
}

/// An exit is on its way, where a position is held: on paper it is filled and the position closed,
/// otherwise it is asked for.
pub open spec fn exits(
    r: Option<Submission>,
    before: Ledger,
    after: Ledger,
    config: Config,
    signal: Signal,
    percent: i64,
    signal_id: Option<i64>,
    crypto_state: CryptoStateInner,
    pnl: i64,
    now: u64,
    today: i64,
) -> bool {
    &&& !before.positions.contains_key(signal.ticker@) ==> r is None && after == before
    &&& before.positions.contains_key(signal.ticker@) ==> ({
        let size = before.exit_size(signal.ticker@);
        let side = if signal.direction@ == "yes"@ { "yes"@ } else { "no"@ };
        let opened = before.opened(signal, percent, side, size, signal_id, crypto_state, now);
        r matches Some(sub) && sub.lawful && if config.paper_mode {
            &&& sub.request is None
            &&& sub.order@ == opened.took_fill(size, Some(FillPrice::Quote(signal.market_price)), now)
            &&& after == before.numbered().closed(signal.ticker@, pnl, today)
        } else {
            &&& sub.request matches Some(q) && asks_for(
                q,
                signal.ticker@,
                "sell"@,
                side,
                size,
                before.next_id(signal, percent),
            )
            &&& sub.order@ == opened
            &&& after == before.numbered()
        }
    })
}

/// What the exchange's reply to an exit leads to.
pub open spec fn settles_exit(
    r: Answered,
    before: Ledger,
    after: Ledger,
    order: OrderRecord,
    ticker: Seq<char>,
    reply: Result<Order, KalshiError>,
    pnl: i64,
    now: u64,
    today: i64,
) -> bool {
    match reply {
        Ok(placed) => {
            let told = Ledger::accepted(order, placed, now);
            &&& r matches Answered::Store { order: o, lawful } && o@ == told && lawful == order.state.may_become(
                o.state,
            )
            &&& after == (if told.state is Filled { before.closed(ticker, pnl, today) } else { before })
        },
        Err(e) => {
            &&& after == before.with_order(order.moved(OrderState::Unknown, now))
            &&& r matches Answered::Failed { error } && error == e
        },
    }
}

/// What the exchange's reply to a prepared entry leads to. The order is kept in any case.
pub open spec fn settles_prepared(
    told: OrderRecord,
    r: Placed,
    before: Ledger,
    after: Ledger,
    order: OrderRecord,
    reply: Result<Order, KalshiError>,
    latency_ms: i64,
    now: u64,
) -> bool {
    match reply {
        Ok(placed) => {
            let sent = OrderRecord { latency_ms: Some(latency_ms), ..order };
            &&& told == Ledger::accepted(sent, placed, now)
            &&& r == (Placed::Taken { lawful: order.state.may_become(told.state) })
            &&& after == (if placed.filled_count() > 0 && told.state.filled() {
                before.holding(order.ticker, told)
            } else {
                before.with_order(told)
            })
        },
        Err(e) => {
            &&& after == before.with_order(told)
            &&& told == order.moved(
                if Ledger::refuses(e) {
                    OrderState::Rejected
                } else {
                    OrderState::Unknown
                },
                now,
            )
            &&& r == (if Ledger::refuses(e) { Placed::Refused(e) } else { Placed::Lost(e) })
        },
    }
}

/// What a signal leads to: an exit where it asks for one and a position is held, an entry where it
/// asks for one and nothing speaks against it.
pub open spec fn routes(
    r: SignalRoute,
    before: Ledger,
    after: Ledger,
    config: Config,
    signal: Signal,
    stake: i64,
    percent: i64,
    switches: KillSwitchState,
    last_update: Map<Seq<char>, u64>,
    crypto_state: CryptoStateInner,
    now: u64,
    today: i64,
) -> bool {
    if signal.action@ == "exit"@ {
        &&& r == (if before.positions.contains_key(signal.ticker@) { SignalRoute::Exit } else { SignalRoute::Ignore })
        &&& after == before
    } else {
        match before.refusal(config, signal, stake, switches, last_update, now, today) {
            Some(reason) => {
                &&& r matches SignalRoute::Refuse(m) && m@ == reason
                &&& after == before
            },
            None => {
                &&& r matches SignalRoute::Enter(s) && prepares(
                    s,
                    before,
                    config,
                    signal,
                    stake,
                    percent,
                    crypto_state,
                    now,
                )
                &&& after == before.prepared(signal.ticker@, now)
            },
        }
    }
}

/// What a request to cancel the order of an id comes to, and what it changes.
pub open spec fn asks_to_cancel(r: Cancellation, before: Ledger, after: Ledger, id: Seq<char>, now: u64) -> bool {
    &&& !before.orders.contains_key(id) ==> r is NoOrder && after == before
    &&& before.orders.contains_key(id) ==> ({
        let o = before.orders[id];
        match o.kalshi_order_id {
            None => r is NotPlaced && after == before,
            Some(placed) => if o.state.cancellable() {
                &&& r matches Cancellation::Ask(q) && q@ == placed
                &&& after == (Ledger {
                    orders: before.orders.insert(id, o.moved(OrderState::CancelPending, now)),
                    ..before
                })
            } else {
                r == Cancellation::NotCancellable(o.state) && after == before
            },
        }
    })
}

/// What a request to cancel comes to.
pub enum Cancellation {
    /// No order has that id.
    NoOrder,
    /// The exchange has not given the order an id.
    NotPlaced,
    /// The order is in no state from which it could be cancelled.
    NotCancellable(OrderState),
    /// The exchange is to be asked to cancel the order of this id.
    Ask(String),
}

/// The price that a position was bought at, and how much of it there is.
pub struct ExitBasis {
    pub size: i64,
    pub entry_price: Option<FillPrice>,
}

/// A position that exchange and tracker disagree on.
#[derive(Clone, Debug)]
pub struct ReconciliationEntry {
    pub discrepancy: String,
    pub ticker: String,
    pub exchange_qty: Option<i32>,
    pub local_qty: Option<i32>,
    pub action_taken: String,
}

/// How long a ticker rests after a signal, in seconds.
pub fn cooldown_for_signal_type(signal_type: &str, config: Option<&Config>) -> (r: u64)
    ensures
        r == cooldown(signal_type@, match config {
            Some(c) => Some(*c),
            None => None,
        }),
{
    if same_text(signal_type, "crypto") {
        match config {
            Some(c) => c.crypto_cooldown_secs,
            None => 30,
        }
    } else if same_text(signal_type, "weather") {
        match config {
            Some(c) => c.weather_cooldown_secs,
            None => 120,
        }
    } else {
        60
    }
}

/// The size of an order, given what the stake comes to in cents.
pub fn compute_order_size(config: &Config, stake: i64) -> (r: i64)
    ensures
        r == order_size(*config, stake),
{
    let capped: i64 = if stake < config.max_trade_size_cents { stake } else { config.max_trade_size_cents };
    if capped > 1 { capped } else { 1 }
}

/// The price of a fill on paper: what is quoted, or for a no the rest to one.
pub open spec fn paper_price(signal: Signal, rest: Float) -> Float {
    if signal.direction@ == "no"@ { rest } else { signal.market_price }
}

/// The price of a fill on paper; the caller supplies the rest to one.
pub fn paper_fill_price(signal: &Signal, rest: Float) -> (r: Float)
    ensures
        r == paper_price(*signal, rest),
{
    if same_text(signal.direction.as_str(), "no") { rest } else { signal.market_price }
}

/// The hash that ties an order id to its signal; `percent` is the model's probability in whole
/// percent.
pub fn hash_signal(signal: &Signal, percent: i64) -> (r: u64)
    ensures
        r == signal_hash(*signal, percent),
{
    let mut hasher: DefaultHasher = DefaultHasher::new();
    let mut close: Vec<u8> = Vec::new();
    close.push(0xffu8);
    assert(close@ =~= seq![0xffu8]);
    hasher.write(signal.ticker.as_str().as_bytes());
    hasher.write(close.as_slice());
    hasher.write(signal.direction.as_str().as_bytes());
    hasher.write(close.as_slice());
    hasher.write(signal.signal_type.as_str().as_bytes());
    hasher.write(close.as_slice());
    let bits: u64 = if percent < 0 {
        (percent as i128 + 0x1_0000_0000_0000_0000) as u64
    } else {
        percent as u64
    };
    let bytes: Vec<u8> = vstd::bytes::u64_to_le_bytes(bits);
    hasher.write(bytes.as_slice());
    assert(hasher@ =~= seq![
        encode_utf8(signal.ticker@),
        seq![0xffu8],
        encode_utf8(signal.direction@),
        seq![0xffu8],
        encode_utf8(signal.signal_type@),
        seq![0xffu8],
        vstd::bytes::spec_u64_to_le_bytes(as_unsigned(percent)),
    ]);
    hasher.finish()
}

/// The id of an order.
pub fn client_order_id(hash: u64, number: u64) -> (r: String)
    ensures
        r@ == order_id(hash, number),
{
    let mut out: String = joined("tb-", hex_text(hash % 0x1_0000_0000_0000, 12).as_str());
    out.append("-");
    out.append(u64_text(number).as_str());
    out
}

/// Texts between quotation marks, with commas between them.
fn marked_list_text(names: &Vec<String>) -> (r: String)
    ensures
        r@ == marked_list(texts(names@)),
{
    let mut out: String = String::new();
    let mut i: usize = 0;
    while i < names.len()
        invariant
            i <= names@.len(),
            out@ == marked_list(texts(names@).take(i as int)),
        decreases names@.len() - i,
    {
        let ghost before = texts(names@).take(i as int);
        let ghost after = texts(names@).take(i + 1);
        let ghost sofar = out@;
        proof {
            assert(after.drop_last() =~= before);
            assert(after.last() == names@[i as int]@);
        }
        if i > 0 {
            out.append(", ");
        }
        let mut m: String = joined("\"", names[i].as_str());
        m.append("\"");
        out.append(m.as_str());
        proof {
            if i == 0 {
                assert(sofar + marked(after[0]) =~= marked(after[0]));
            }
        }
        i = i + 1;
    }
    assert(texts(names@).take(names@.len() as int) =~= texts(names@));
    out
}

impl OrderManager {
    /// Every key is held once, and a loss can be told as a positive number.
    pub closed spec fn wf(&self) -> bool {
        &&& self.orders.wf()
        &&& self.positions.wf()
        &&& self.signal_cooldowns.wf()
        &&& self.ticker_order_timestamps.wf()
        &&& self.daily_pnl.wf()
    }

    pub fn new(today: i64) -> (r: Self)
        ensures
            r.wf(),
            r@.orders == Map::<Seq<char>, OrderRecord>::empty(),
            r@.positions == Map::<Seq<char>, Seq<char>>::empty(),
            r@.pnl == (DailyPnl { day: today, net_pnl_cents: 0 }),
            r@.cooldowns == Map::<Seq<char>, u64>::empty(),
            r@.stamps == Seq::<u64>::empty(),
            r@.ticker_stamps == Map::<Seq<char>, Seq<u64>>::empty(),
            r@.sequence == 0,
    {
        let r = OrderManager {
            orders: Table::new(),
            positions: Table::new(),
            daily_pnl: DailyPnl::new(today),
            signal_cooldowns: Table::new(),
            order_timestamps: VecDeque::new(),
            ticker_order_timestamps: Table::new(),
            sequence: 0,
        };
        assert(r@.orders =~= Map::<Seq<char>, OrderRecord>::empty());
        assert(r@.positions =~= Map::<Seq<char>, Seq<char>>::empty());
        assert(r@.ticker_stamps =~= Map::<Seq<char>, Seq<u64>>::empty());
        r
    }

    /// A new id for an order on `signal`.
    pub fn generate_client_order_id(&mut self, signal: &Signal, percent: i64) -> (r: String)
        requires
            old(self).wf(),
            old(self)@.sequence < u64::MAX,
        ensures
            final(self).wf(),
            r@ == old(self)@.next_id(*signal, percent),
            final(self)@ == old(self)@.numbered(),
    {
        self.sequence = self.sequence + 1;
        assert(self@ == old(self)@.numbered());
        client_order_id(hash_signal(signal, percent), self.sequence)
    }

    /// Whether the ticker of `signal` still rests.
    pub fn is_in_cooldown(&self, signal: &Signal, config: Option<&Config>, now: u64) -> (r: bool)
        requires
            self.wf(),
        ensures
            r == self@.cooling(*signal, match config {
                Some(c) => Some(*c),
                None => None,
            }, now),
    {
        match self.signal_cooldowns.get(signal.ticker.as_str()) {
            Some(last) => younger_than_secs(
                now,
                *last,
                cooldown_for_signal_type(signal.signal_type.as_str(), config),
            ),
            None => false,
        }
    }

    /// The ticker starts to rest.
    pub fn record_signal_cooldown(&mut self, ticker: &str, now: u64)
        requires
            old(self).wf(),
        ensures
            final(self).wf(),
            final(self)@ == old(self)@.with_cooldown(ticker@, now),
    {
        self.signal_cooldowns.insert(ticker.to_owned(), now);
        assert(self@ == old(self)@.with_cooldown(ticker@, now));
    }

    /// Whether one more order may go out within the minute.
    pub fn check_global_rate_limit(&self, now: u64) -> (r: bool)
        ensures
            r == self@.minute_has_room(now),
    {
        count_recent(&self.order_timestamps, now, 60) < ORDERS_PER_MINUTE
    }

    /// Whether one more order for `ticker` may go out within five minutes.
    pub fn check_ticker_rate_limit(&self, ticker: &str, now: u64) -> (r: bool)
        requires
            self.wf(),
        ensures
            r == self@.ticker_has_room(ticker@, now),
    {
        match self.ticker_order_timestamps.get(ticker) {
            Some(stamps) => count_recent(stamps, now, 300) < ORDERS_PER_TICKER,
            None => true,
        }
    }

    /// An order for `ticker` goes out.
    pub fn record_order_submission(&mut self, ticker: &str, now: u64)
        requires
            old(self).wf(),
        ensures
            final(self).wf(),
            final(self)@ == old(self)@.with_submission(ticker@, now),
    {
        let ghost before = self@;
        record(&mut self.order_timestamps, now);
        let mut stamps: VecDeque<u64> = match self.ticker_order_timestamps.remove(ticker) {
            Some(d) => d,
            None => VecDeque::new(),
        };
        record(&mut stamps, now);
        self.ticker_order_timestamps.insert(ticker.to_owned(), stamps);
        proof {
            assert(self@.ticker_stamps =~= before.with_submission(ticker@, now).ticker_stamps);
        }
    }

    /// The sum of the exposures of all orders.
    fn exposure(&self) -> (r: i128)
        requires
            self.wf(),
        ensures
            r == total_exposure(self@.orders),
            -0x8000_0000_0000_0000_0000_0000_0000_0000 <= r <= 0x7fff_ffff_ffff_ffff_0000_0000_0000_0000,
    {
        let n: usize = self.orders.len();
        let ghost e = self.orders.entries();
        let mut sum: i128 = 0;
        let mut i: usize = 0;
        while i < n
            invariant
                i <= n,
                n == e.len(),
                n <= 0xffff_ffff_ffff_ffff,
                e == self.orders.entries(),
                sum == listed_exposure(e.take(i as int)),
                -0x8000_0000_0000_0000 * i <= sum <= 0x7fff_ffff_ffff_ffff * i,
            decreases n - i,
        {
            let o: &ManagedOrder = self.orders.value_at(i);
            assert(e.take(i + 1).drop_last() =~= e.take(i as int));
            assert(-0x8000_0000_0000_0000 * i - 0x8000_0000_0000_0000 >= -0x8000_0000_0000_0000_0000_0000_0000_0000);
            if o.state.has_fill() {
                sum = sum + o.filled_qty as i128;
            }
            i = i + 1;
        }
        proof {
            assert(e.take(n as int) =~= e);
            listed_exposure_is_total(e);
        }
        sum
    }

    /// Whether an entry on `signal` may go out; otherwise the first reason why not. `stake` is
    /// what the stake comes to in cents.
    pub fn check_risk(
        &self,
        config: &Config,
        signal: &Signal,
        stake: i64,
        kill_switch: &KillSwitchState,
        feed_health: &FeedHealth,
        now: u64,
        today: i64,
    ) -> (r: Result<(), String>)
        requires
            self.wf(),
        ensures
            match r {
                Ok(_) => self@.refusal(*config, *signal, stake, *kill_switch, feed_health@, now, today) is None,
                Err(reason) => self@.refusal(*config, *signal, stake, *kill_switch, feed_health@, now, today)
                    == Some(reason@),
            },
    {
        if kill_switch.is_blocked(signal.signal_type.as_str()) {
            return Err("blocked by kill switch".to_owned());
        }
        if let Err(stale) = feed_health.required_feeds_healthy(signal.signal_type.as_str(), now) {
            let mut out: String = joined("stale feeds: [", marked_list_text(&stale).as_str());
            out.append("]");
            return Err(out);
        }
        if self.is_in_cooldown(signal, Some(config), now) {
            let passes: bool = match signal.priority {
                SignalPriority::LockDetection => true,
                SignalPriority::NewData => config.crypto_min_edge.value.doubled().less(signal.edge),
                _ => false,
            };
            if !passes {
                let rest: u64 = cooldown_for_signal_type(signal.signal_type.as_str(), Some(config));
                let mut out: String = joined("signal cooldown (", u64_text(rest).as_str());
                out.append("s remaining)");
                return Err(out);
            }
        }
        if self.positions.contains_key(signal.ticker.as_str()) {
            return Err("already holding position".to_owned());
        }
        let held: usize = self.positions.len();
        assert(self@.positions.dom() =~= self.positions@.dom());
        if held >= config.max_positions {
            let mut out: String = joined("max positions reached (", usize_text(held).as_str());
            out.append("/");
            out.append(usize_text(config.max_positions).as_str());
            out.append(")");
            return Err(out);
        }
        let loss: i64 = self.daily_pnl.current_loss(today);
        if loss >= config.max_daily_loss_cents {
            let mut out: String = joined("daily loss limit reached (", i64_text(loss).as_str());
            out.append(" >= ");
            out.append(i64_text(config.max_daily_loss_cents).as_str());
            out.append(")");
            return Err(out);
        }
        let size: i64 = compute_order_size(config, stake);
        if self.exposure() + size as i128 > config.max_exposure_cents as i128 {
            return Err("would exceed max exposure".to_owned());
        }
        if !self.check_global_rate_limit(now) {
            return Err("global rate limit (10/min)".to_owned());
        }
        if !self.check_ticker_rate_limit(signal.ticker.as_str(), now) {
            return Err("per-ticker rate limit (2/5min)".to_owned());
        }
        Ok(())
    }

    /// The order that `signal` leads to, checked and about to be sent.
    fn open_order(
        &mut self,
        signal: &Signal,
        percent: i64,
        direction: String,
        size: i64,
        signal_id: Option<i64>,
        crypto_state: &CryptoStateInner,
        now: u64,
    ) -> (r: ManagedOrder)
        requires
            old(self).wf(),
            old(self)@.sequence < u64::MAX,
        ensures
            final(self).wf(),
            final(self)@ == old(self)@.numbered(),
            r@ == old(self)@.opened(*signal, percent, direction@, size, signal_id, *crypto_state, now),
    {
        let id: String = self.generate_client_order_id(signal, percent);
        let snapshot: Option<CryptoStateInner> = if same_text(signal.signal_type.as_str(), "crypto") {
            Some(*crypto_state)
        } else {
            None
        };
        let mut order: ManagedOrder = ManagedOrder::new(
            id,
            signal.ticker.clone(),
            signal.signal_type.clone(),
            direction,
            size,
            signal.model_prob,
            signal.market_price,
            snapshot,
            now,
        );
        order.signal_id = signal_id;
        order.transition(OrderState::Submitting, now);
        order
    }

    /// Prepares an entry. On paper the order is filled at once and its position is held; it is to
    /// be stored, then kept. Otherwise the request is to be sent, and `entry_answered` takes the
    /// reply.
    pub fn submit_entry(
        &mut self,
        config: &Config,
        signal: &Signal,
        stake: i64,
        percent: i64,
        signal_id: Option<i64>,
        crypto_state: &CryptoStateInner,
        now: u64,
    ) -> (r: Submission)
        requires
            old(self).wf(),
            old(self)@.sequence < u64::MAX,
        ensures
            final(self).wf(),
            submits(
                r,
                old(self)@,
                final(self)@,
                *config,
                *signal,
                stake,
                percent,
                signal_id,
                *crypto_state,
                now,
            ),
    {
        let size: i64 = compute_order_size(config, stake);
        let mut order: ManagedOrder = self.open_order(
            signal,
            percent,
            signal.direction.clone(),
            size,
            signal_id,
            crypto_state,
            now,
        );
        if config.paper_mode {
            let lawful: bool = order.record_fill(size, Some(FillPrice::Quote(signal.market_price)), now);
            self.take_position(signal.ticker.clone(), order.client_order_id.clone());
            self.record_signal_cooldown(signal.ticker.as_str(), now);
            self.record_order_submission(signal.ticker.as_str(), now);
            return Submission { order, request: None, lawful };
        }
        let request: OrderRequest = OrderRequest {
            ticker: signal.ticker.clone(),
            action: "buy".to_owned(),
            side: signal.direction.clone(),
            order_type: "market".to_owned(),
            count: size,
            yes_price: None,
            no_price: None,
            client_order_id: Some(order.client_order_id.clone()),
            expiration_time: None,
        };
        Submission { order, request: Some(request), lawful: true }
    }

    /// Keeps an order.
    pub fn keep(&mut self, order: ManagedOrder)
        requires
            old(self).wf(),
        ensures
            final(self).wf(),
            final(self)@ == old(self)@.with_order(order@),
    {
        let ghost before = self@;
        let id: String = order.client_order_id.clone();
        self.orders.insert(id, order);
        assert(self@.orders =~= before.with_order(order@).orders);
    }

    /// The order of that id holds the position in `ticker` from here on.
    fn take_position(&mut self, ticker: String, id: String)
        requires
            old(self).wf(),
        ensures
            final(self).wf(),
            final(self)@ == old(self)@.with_position(ticker@, id@),
    {
        let ghost before = self@;
        let ghost t = ticker@;
        let ghost i = id@;
        self.positions.insert(ticker, id);
        assert(self@.positions =~= before.with_position(t, i).positions);
    }

    /// Takes the exchange's reply to an entry, after `latency_ms`. An order that the exchange took
    /// or refused is to be stored, then kept.
    pub fn entry_answered(
        &mut self,
        mut order: ManagedOrder,
        signal: &Signal,
        reply: Result<Order, KalshiError>,
        latency_ms: i64,
        now: u64,
    ) -> (r: Answered)
        requires
            old(self).wf(),
        ensures
            final(self).wf(),
            settles_entry(r, old(self)@, final(self)@, order@, signal.ticker@, reply, latency_ms, now),
    {
        match reply {
            Ok(placed) => {
                order.latency_ms = Some(latency_ms);
                order.kalshi_order_id = Some(placed.order_id.clone());
                let filled: i64 = placed.filled_qty();
                let lawful: bool = if filled > 0 {
                    let price: Option<FillPrice> = match placed.price_cents() {
                        Some(cents) => Some(FillPrice::Cents(cents)),
                        None => None,
                    };
                    let lawful: bool = order.record_fill(filled, price, now);
                    if order.state.has_fill() {
                        self.take_position(signal.ticker.clone(), order.client_order_id.clone());
                    }
                    lawful
                } else {
                    order.transition(OrderState::Acknowledged, now)
                };
                self.record_signal_cooldown(signal.ticker.as_str(), now);
                self.record_order_submission(signal.ticker.as_str(), now);
                Answered::Store { order, lawful }
            },
            Err(e) => {
                let refused: bool = match &e {
                    KalshiError::InsufficientFunds => true,
                    KalshiError::MarketClosed => true,
                    KalshiError::RateLimit { retry_after_secs: _ } => true,
                    _ => false,
                };
                if refused {
                    let lawful: bool = order.transition(OrderState::Rejected, now);
                    Answered::Store { order, lawful }
                } else {
                    order.transition(OrderState::Unknown, now);
                    self.keep(order);
                    Answered::Failed { error: e }
                }
            },
        }
    }

    /// The order that holds the position in `ticker`.
    fn holding_order(&self, ticker: &str) -> (r: Option<&ManagedOrder>)
        requires
            self.wf(),
        ensures
            match r {
                Some(o) => self@.holder(ticker@) == Some(o@),
                None => self@.holder(ticker@) is None,
            },
    {
        match self.positions.get(ticker) {
            Some(id) => self.orders.get(id.as_str()),
            None => None,
        }
    }

    /// What an exit from `ticker` would sell, and at what price that was bought; `None` where no
    /// position is held. Of a position whose order is not kept one is sold, and no price is known.
    pub fn exit_basis(&self, ticker: &str) -> (r: Option<ExitBasis>)
        requires
            self.wf(),
        ensures
            match r {
                Some(b) => {
                    &&& self@.positions.contains_key(ticker@)
                    &&& b.size == self@.exit_size(ticker@)
                    &&& b.entry_price == self@.price_paid(ticker@)
                },
                None => !self@.positions.contains_key(ticker@),
            },
    {
        if !self.positions.contains_key(ticker) {
            return None;
        }
        match self.holding_order(ticker) {
            Some(o) => Some(ExitBasis { size: o.filled_qty, entry_price: o.entry_price }),
            None => Some(ExitBasis { size: 1, entry_price: None }),
        }
    }

    /// Closes the position in `ticker` and books its outcome if the price paid is known.
    fn close(&mut self, ticker: &str, pnl: i64, today: i64)
        requires
            old(self).wf(),
            old(self)@.can_close(ticker@, pnl, today),
        ensures
            final(self).wf(),
            final(self)@ == old(self)@.closed(ticker@, pnl, today),
    {
        let ghost before = self@;
        let known: bool = match self.holding_order(ticker) {
            Some(o) => o.entry_price.is_some(),
            None => false,
        };
        if known {
            self.daily_pnl.record_pnl(pnl, today);
        }
        self.positions.remove(ticker);
        assert(self@.positions =~= before.positions.remove(ticker@));
    }

    /// Whether the outcome of an exit can be booked, where there is one to be booked.
    pub fn can_close(&self, ticker: &str, pnl: i64, today: i64) -> (r: bool)
        requires
            self.wf(),
        ensures
            r == self@.can_close(ticker@, pnl, today),
    {
        let known: bool = match self.holding_order(ticker) {
            Some(o) => o.entry_price.is_some(),
            None => false,
        };
        if !known {
            return true;
        }
        let net: i128 = if today == self.daily_pnl.day { self.daily_pnl.net_pnl_cents as i128 } else { 0 };
        (i64::MIN as i128) < net + pnl as i128 && net + pnl as i128 <= i64::MAX as i128
    }

    /// Whether there is a number left for another order.
    pub fn can_number(&self) -> (r: bool)
        ensures
            r == (self@.sequence < u64::MAX),
    {
        self.sequence < u64::MAX
    }

    /// Prepares an exit; `None` where no position is held. `pnl` is the outcome in cents of
    /// selling at the signal's market price, for the case that the order is filled on paper.
    pub fn submit_exit(
        &mut self,
        config: &Config,
        signal: &Signal,
        percent: i64,
        signal_id: Option<i64>,
        crypto_state: &CryptoStateInner,
        pnl: i64,
        now: u64,
        today: i64,
    ) -> (r: Option<Submission>)
        requires
            old(self).wf(),
            old(self)@.positions.contains_key(signal.ticker@) ==> old(self)@.sequence < u64::MAX,
            config.paper_mode ==> old(self)@.can_close(signal.ticker@, pnl, today),
        ensures
            final(self).wf(),
            exits(
                r,
                old(self)@,
                final(self)@,
                *config,
                *signal,
                percent,
                signal_id,
                *crypto_state,
                pnl,
                now,
                today,
            ),
    {
        let size: i64 = match self.exit_basis(signal.ticker.as_str()) {
            Some(b) => b.size,
            None => {
                return None;
            },
        };
        let side: &str = if same_text(signal.direction.as_str(), "yes") { "yes" } else { "no" };
        let mut order: ManagedOrder = self.open_order(
            signal,
            percent,
            side.to_owned(),
            size,
            signal_id,
            crypto_state,
            now,
        );
        if config.paper_mode {
            let lawful: bool = order.record_fill(size, Some(FillPrice::Quote(signal.market_price)), now);
            self.close(signal.ticker.as_str(), pnl, today);
            return Some(Submission { order, request: None, lawful });
        }
        let request: OrderRequest = OrderRequest {
            ticker: signal.ticker.clone(),
            action: "sell".to_owned(),
            side: side.to_owned(),
            order_type: "market".to_owned(),
            count: size,
            yes_price: None,
            no_price: None,
            client_order_id: Some(order.client_order_id.clone()),
            expiration_time: None,
        };
        Some(Submission { order, request: Some(request), lawful: true })
    }

    /// Whether the outcome of an exit can be booked once the exchange has answered it: always where
    /// the reply does not fill the order.
    pub fn can_answer_exit(
        &self,
        order: &ManagedOrder,
        signal: &Signal,
        reply: &Result<Order, KalshiError>,
        pnl: i64,
        today: i64,
    ) -> (r: bool)
        requires
            self.wf(),
        ensures
            r == self@.can_answer_exit(order@, *reply, signal.ticker@, pnl, today),
    {
        match reply {
            Ok(placed) => {
                let qty: i64 = placed.filled_qty();
                !(qty > 0 && qty >= order.requested_qty) || self.can_close(signal.ticker.as_str(), pnl, today)
            },
            Err(_) => true,
        }
    }

    /// Takes the exchange's reply to an exit. `pnl` is the outcome in cents of selling at the
    /// price in the reply, or at the signal's market price where it states none.
    pub fn exit_answered(
        &mut self,
        mut order: ManagedOrder,
        signal: &Signal,
        reply: Result<Order, KalshiError>,
        pnl: i64,
        now: u64,
        today: i64,
    ) -> (r: Answered)
        requires
            old(self).wf(),
            old(self)@.can_answer_exit(order@, reply, signal.ticker@, pnl, today),
        ensures
            final(self).wf(),
            settles_exit(r, old(self)@, final(self)@, order@, signal.ticker@, reply, pnl, now, today),
    {
        match reply {
            Ok(placed) => {
                order.kalshi_order_id = Some(placed.order_id.clone());
                let filled: i64 = placed.filled_qty();
                let lawful: bool = if filled > 0 {
                    let price: Option<FillPrice> = match placed.price_cents() {
                        Some(cents) => Some(FillPrice::Cents(cents)),
                        None => None,
                    };
                    order.record_fill(filled, price, now)
                } else {
                    order.transition(OrderState::Acknowledged, now)
                };
                if order.state == OrderState::Filled {
                    self.close(signal.ticker.as_str(), pnl, today);
                }
                Answered::Store { order, lawful }
            },
            Err(e) => {
                order.transition(OrderState::Unknown, now);
                self.keep(order);
                Answered::Failed { error: e }
            },
        }
    }

    /// Prepares to cancel an order. Where the exchange is to be asked, the order waits for the
    /// answer, which `cancel_answered` takes; otherwise nothing changes.
    pub fn cancel_order(&mut self, client_order_id: &str, now: u64) -> (r: Cancellation)
        requires
            old(self).wf(),
        ensures
            final(self).wf(),
            asks_to_cancel(r, old(self)@, final(self)@, client_order_id@, now),
    {
        let ghost before = self@;
        let asked: String = match self.orders.get(client_order_id) {
            None => {
                return Cancellation::NoOrder;
            },
            Some(o) => match &o.kalshi_order_id {
                None => {
                    return Cancellation::NotPlaced;
                },
                Some(id) => if o.state.is_cancellable() {
                    id.clone()
                } else {
                    return Cancellation::NotCancellable(o.state);
                },
            },
        };
        if let Some(mut o) = self.orders.remove(client_order_id) {
            o.transition(OrderState::CancelPending, now);
            self.orders.insert(client_order_id.to_owned(), o);
        }
        proof {
            assert(self@.orders =~= before.orders.insert(
                client_order_id@,
                before.orders[client_order_id@].moved(OrderState::CancelPending, now),
            ));
        }
        Cancellation::Ask(asked)
    }

    /// Takes the exchange's answer to a cancellation. An order that was filled in part keeps its
    /// position; one whose cancellation failed has an unknown fate.
    pub fn cancel_answered(&mut self, client_order_id: &str, confirmed: bool, now: u64)
        requires
            old(self).wf(),
            old(self)@.orders.contains_key(client_order_id@),
        ensures
            final(self).wf(),
            final(self)@ == old(self)@.cancelled(client_order_id@, confirmed, now),
    {
        let ghost before = self@;
        if let Some(mut o) = self.orders.remove(client_order_id) {
            if confirmed {
                o.transition(OrderState::Cancelled, now);
                if o.filled_qty == 0 {
                    self.positions.remove(o.ticker.as_str());
                    assert(self@.positions =~= before.positions.remove(o.ticker@));
                }
            } else {
                o.transition(OrderState::Unknown, now);
            }
            self.orders.insert(client_order_id.to_owned(), o);
            proof {
                assert(self@.orders =~= before.cancelled(client_order_id@, confirmed, now).orders);
            }
        }
    }

    /// The ids of all orders that could be cancelled, of one signal type or of all.
    pub fn in_flight(&self, signal_type: Option<&str>) -> (r: Vec<String>)
        requires
            self.wf(),
        ensures
            texts(r@).no_duplicates(),
            forall|id: Seq<char>| #[trigger] texts(r@).contains(id) <==> self@.orders.contains_key(id)
                && self@.orders[id].state.cancellable() && (signal_type matches Some(t)
                ==> self@.orders[id].signal_type == t@),
    {
        let n: usize = self.orders.len();
        let ghost e = self.orders.entries();
        let mut out: Vec<String> = Vec::new();
        let mut i: usize = 0;
        while i < n
            invariant
                self.wf(),
                self.orders.spelled(),
                i <= n,
                n == e.len(),
                e == self.orders.entries(),
                texts(out@).no_duplicates(),
                forall|j: int| #![trigger texts(out@)[j]] 0 <= j < out@.len() ==> exists|k: int|
                    0 <= k < i && (#[trigger] e[k]).0 == texts(out@)[j] && flying(e[k].1, signal_type),
                forall|k: int| 0 <= k < i && flying(e[k].1, signal_type) ==> texts(out@).contains(
                    (#[trigger] e[k]).0,
                ),
            decreases n - i,
        {
            let o: &ManagedOrder = self.orders.value_at(i);
            let wanted: bool = match signal_type {
                Some(t) => same_text(o.signal_type.as_str(), t),
                None => true,
            };
            if o.state.is_cancellable() && wanted {
                let ghost before = texts(out@);
                let id: String = self.orders.key_at(i).clone();
                out.push(id);
                proof {
                    let after = texts(out@);
                    assert(after =~= before.push(e[i as int].0));
                    assert(!before.contains(e[i as int].0)) by {
                        if before.contains(e[i as int].0) {
                            let j = choose|j: int| 0 <= j < before.len() && before[j] == e[i as int].0;
                            assert(texts(out@.drop_last()) =~= before);
                        }
                    }
                    assert(after.last() == e[i as int].0);
                    assert forall|k: int| 0 <= k <= i && flying(e[k].1, signal_type) implies after.contains(
                        (#[trigger] e[k]).0,
                    ) by {
                        if k < i {
                            let j = choose|j: int| 0 <= j < before.len() && before[j] == e[k].0;
                            assert(after[j] == e[k].0);
                        } else {
                            assert(after[before.len() as int] == e[k].0);
                        }
                    }
                    assert forall|j: int| #![trigger after[j]] 0 <= j < after.len() implies exists|k: int|
                        0 <= k <= i && (#[trigger] e[k]).0 == after[j] && flying(e[k].1, signal_type) by {
                        if j < before.len() {
                            assert(after[j] == before[j]);
                            let k = choose|k: int| 0 <= k < i && (#[trigger] e[k]).0 == before[j] && flying(
                                e[k].1,
                                signal_type,
                            );
                            assert(e[k].0 == after[j]);
                        } else {
                            assert(e[i as int].0 == after[j]);
                        }
                    }
                }
            }
            i = i + 1;
        }
        proof {
            assert forall|id: Seq<char>| #[trigger] texts(out@).contains(id) <==> self@.orders.contains_key(id)
                && self@.orders[id].state.cancellable() && (signal_type matches Some(t)
                ==> self@.orders[id].signal_type == t@) by {
                if texts(out@).contains(id) {
                    let j = choose|j: int| 0 <= j < texts(out@).len() && texts(out@)[j] == id;
                    let k = choose|k: int| 0 <= k < n && (#[trigger] e[k]).0 == texts(out@)[j] && flying(
                        e[k].1,
                        signal_type,
                    );
                    assert(self.orders@.contains_key(e[k].0));
                }
                if self@.orders.contains_key(id) {
                    let k = choose|k: int| 0 <= k < e.len() && (#[trigger] e[k]).0 == id;
                    assert(self.orders@[e[k].0] == e[k].1);
                }
            }
        }
        out
    }

    /// Takes over, after a restart, the positions that the exchange reports and that are not
    /// known here. Of their direction nothing is told, so that it is taken to be yes.
    pub fn reconcile_on_startup(&mut self, exchange: &Vec<Position>, now: u64)
        requires
            old(self).wf(),
            forall|i: int| 0 <= i < exchange@.len() ==> stated((#[trigger] exchange@[i]).market_exposure) > i64::MIN,
        ensures
            final(self).wf(),
            final(self)@ == old(self)@.adopted_all(exchange@, now),
    {
        let ghost start = self@;
        let mut i: usize = 0;
        assert(exchange@.take(0) =~= Seq::<Position>::empty());
        while i < exchange.len()
            invariant
                self.wf(),
                i <= exchange@.len(),
                forall|i: int| 0 <= i < exchange@.len() ==> stated((#[trigger] exchange@[i]).market_exposure)
                    > i64::MIN,
                self@ == start.adopted_all(exchange@.take(i as int), now),
            decreases exchange@.len() - i,
        {
            let ghost before = self@;
            proof {
                assert(exchange@.take(i + 1).drop_last() =~= exchange@.take(i as int));
                assert(exchange@.take(i + 1).last() == exchange@[i as int]);
            }
            let p: &Position = &exchange[i];
            let exposure: i64 = match p.market_exposure {
                Some(n) => n,
                None => 0,
            };
            if exposure != 0 && !self.positions.contains_key(p.ticker.as_str()) {
                let id: String = joined("reconciled-", p.ticker.as_str());
                let size: i64 = if exposure < 0 { -exposure } else { exposure };
                let mut order: ManagedOrder = ManagedOrder::new(
                    id,
                    p.ticker.clone(),
                    "unknown".to_owned(),
                    "yes".to_owned(),
                    size,
                    Float::from_bits(0),
                    Float::from_bits(0),
                    None,
                    now,
                );
                order.filled_qty = size;
                order.state = OrderState::Filled;
                order.transitions.push((OrderState::Filled, now));
                self.hold(order);
            }
            assert(self@ == before.adopted(exchange@[i as int], now));
            i = i + 1;
        }
        assert(exchange@.take(exchange@.len() as int) =~= exchange@);
    }

    /// Whether a stored order that counts as filled has no position here, most likely because
    /// its market has settled.
    pub fn is_likely_settled(&self, ticker: &str, state: &str) -> (r: bool)
        requires
            self.wf(),
        ensures
            r == self@.likely_settled(ticker@, state@),
    {
        same_text(state, "filled") && !self.positions.contains_key(ticker)
    }

    pub fn has_position(&self, ticker: &str) -> (r: bool)
        requires
            self.wf(),
        ensures
            r == self@.positions.contains_key(ticker@),
    {
        self.positions.contains_key(ticker)
    }

    /// The direction of the order that holds the position in `ticker`; `None` where none is held,
    /// or where its order is not kept.
    pub fn held_direction(&self, ticker: &str) -> (r: Option<&str>)
        requires
            self.wf(),
        ensures
            match r {
                Some(d) => self@.holder(ticker@) matches Some(o) && o.direction == d@,
                None => self@.holder(ticker@) is None,
            },
    {
        match self.holding_order(ticker) {
            Some(o) => Some(o.direction.as_str()),
            None => None,
        }
    }

    pub fn position_count(&self) -> (r: usize)
        requires
            self.wf(),
        ensures
            r == self@.positions.len(),
    {
        assert(self@.positions.dom() =~= self.positions@.dom());
        self.positions.len()
    }

    /// The orders that are kept, each once.
    pub closed spec fn order_list(&self) -> Seq<OrderRecord> {
        self.orders.entries().map_values(|e: (Seq<char>, ManagedOrder)| e.1@)
    }

    /// The list holds every order that is kept, and no other.
    pub proof fn order_list_holds_orders(&self)
        requires
            self.wf(),
        ensures
            self.order_list().len() == self@.orders.len(),
            forall|id: Seq<char>| #[trigger] self@.orders.contains_key(id) ==> self.order_list().contains(
                self@.orders[id],
            ),
            forall|i: int| 0 <= i < self.order_list().len() ==> exists|id: Seq<char>|
                self@.orders.contains_key(id) && #[trigger] self@.orders[id] == #[trigger] self.order_list()[i],
    {
        self.orders.wf_spells();
        let e = self.orders.entries();
        let list = self.order_list();
        assert(self@.orders.dom() =~= self.orders@.dom());
        assert forall|id: Seq<char>| #[trigger] self@.orders.contains_key(id) implies list.contains(
            self@.orders[id],
        ) by {
            assert(self.orders@.contains_key(id));
            let k = choose|k: int| 0 <= k < e.len() && (#[trigger] e[k]).0 == id;
            assert(self.orders@[e[k].0] == e[k].1);
            assert(list[k] == self@.orders[id]);
        }
        assert forall|i: int| 0 <= i < list.len() implies exists|id: Seq<char>|
            self@.orders.contains_key(id) && #[trigger] self@.orders[id] == #[trigger] list[i] by {
            let id = e[i].0;
            assert(self.orders@.contains_key(e[i].0));
            assert(self@.orders.contains_key(id) && self@.orders[id] == list[i]);
        }
    }

    /// All orders that are kept.
    pub fn all_orders(&self) -> (r: Vec<&ManagedOrder>)
        requires
            self.wf(),
        ensures
            r@.map_values(|o: &ManagedOrder| o@) == self.order_list(),
    {
        let n: usize = self.orders.len();
        let ghost e = self.orders.entries();
        let mut out: Vec<&ManagedOrder> = Vec::new();
        let mut i: usize = 0;
        while i < n
            invariant
                i <= n,
                n == e.len(),
                e == self.orders.entries(),
                out@.len() == i,
                forall|j: int| 0 <= j < i ==> *(#[trigger] out@[j]) == e[j].1,
            decreases n - i,
        {
            out.push(self.orders.value_at(i));
            i = i + 1;
        }
        assert(out@.map_values(|o: &ManagedOrder| o@) =~= self.order_list());
        out
    }

    /// All positions that are held, each once, with the direction of each, which is taken to be
    /// yes where the order is not kept.
    pub fn all_positions(&self) -> (r: Vec<(&str, &str)>)
        requires
            self.wf(),
        ensures
            r@.len() == self@.positions.len(),
            forall|i: int| 0 <= i < r@.len() ==> self@.positions.contains_key((#[trigger] r@[i]).0@) && r@[i].1@
                == self@.held_way(r@[i].0@),
            forall|t: Seq<char>| #[trigger] self@.positions.contains_key(t) ==> exists|i: int|
                0 <= i < r@.len() && (#[trigger] r@[i]).0@ == t,
            forall|i: int, j: int| 0 <= i < j < r@.len() ==> (#[trigger] r@[i]).0@ != (#[trigger] r@[j]).0@,
    {
        let n: usize = self.positions.len();
        let ghost e = self.positions.entries();
        let mut out: Vec<(&str, &str)> = Vec::new();
        let mut i: usize = 0;
        while i < n
            invariant
                self.wf(),
                self.positions.spelled(),
                i <= n,
                n == e.len(),
                e == self.positions.entries(),
                out@.len() == i,
                forall|j: int| 0 <= j < i ==> (#[trigger] out@[j]).0@ == e[j].0 && out@[j].1@
                    == self@.held_way(out@[j].0@),
            decreases n - i,
        {
            let ticker: &str = self.positions.key_at(i).as_str();
            let direction: &str = match self.holding_order(ticker) {
                Some(o) => o.direction.as_str(),
                None => "yes",
            };
            out.push((ticker, direction));
            i = i + 1;
        }
        proof {
            assert(self@.positions.dom() =~= self.positions@.dom());
            assert forall|i: int| 0 <= i < out@.len() implies self@.positions.contains_key((#[trigger] out@[i]).0@) by {
                assert(self.positions@.contains_key(e[i].0));
            }
            assert forall|t: Seq<char>| #[trigger] self@.positions.contains_key(t) implies exists|i: int|
                0 <= i < out@.len() && (#[trigger] out@[i]).0@ == t by {
                assert(self.positions@.contains_key(t));
                let k = choose|k: int| 0 <= k < e.len() && (#[trigger] e[k]).0 == t;
                assert(out@[k].0@ == t);
            }
            assert forall|i: int, j: int| 0 <= i < j < out@.len() implies (#[trigger] out@[i]).0@ != (
            #[trigger] out@[j]).0@ by {
                assert(e[i].0 != e[j].0);
            }
        }
        out
    }

    /// The balance last booked, in cents.
    pub fn daily_pnl_cents(&self) -> (r: i64)
        ensures
            r == self@.pnl.net_pnl_cents,
    {
        self.daily_pnl.net_pnl_cents
    }

    /// The loss of `today`, in cents.
    pub fn daily_loss_cents(&self, today: i64) -> (r: i64)
        requires
            self.wf(),
        ensures
            r == self@.pnl.loss_on(today),
    {
        self.daily_pnl.current_loss(today)
    }

    /// Whether a position rests on the order of that id.
    fn is_rested_on(&self, id: &str) -> (r: bool)
        requires
            self.wf(),
        ensures
            r == self@.rests_on(id@),
    {
        let n: usize = self.positions.len();
        let ghost e = self.positions.entries();
        let mut i: usize = 0;
        while i < n
            invariant
                self.wf(),
                self.positions.spelled(),
                i <= n,
                n == e.len(),
                e == self.positions.entries(),
                forall|j: int| 0 <= j < i ==> (#[trigger] e[j]).1@ != id@,
            decreases n - i,
        {
            assert(self.positions@.contains_key(e[i as int].0) && self.positions@[e[i as int].0] == e[i as int].1);
            if same_text(self.positions.value_at(i).as_str(), id) {
                assert(self@.positions.contains_key(e[i as int].0));
                return true;
            }
            i = i + 1;
        }
        proof {
            if self@.rests_on(id@) {
                let t = choose|t: Seq<char>| #[trigger] self@.positions.contains_key(t) && self@.positions[t] == id@;
                assert(self.positions@.contains_key(t));
                let k = choose|k: int| 0 <= k < e.len() && (#[trigger] e[k]).0 == t;
                assert(self.positions@[e[k].0] == e[k].1);
            }
        }
        false
    }

    /// Drops closed orders that were made an hour ago or earlier, except those that a position
    /// rests on.
    pub fn gc_old_orders(&mut self, now: u64)
        requires
            old(self).wf(),
        ensures
            final(self).wf(),
            final(self)@ == old(self)@.tidied(now),
    {
        let ghost before = self@;
        let ghost drops = |id: Seq<char>| !before.rests_on(id) && Ledger::expired(before.orders[id], now);
        let n: usize = self.orders.len();
        let ghost e = self.orders.entries();
        let mut gone: Vec<String> = Vec::new();
        let mut i: usize = 0;
        while i < n
            invariant
                self.wf(),
                self.orders.spelled(),
                self@ == before,
                i <= n,
                n == e.len(),
                e == self.orders.entries(),
                drops == (|id: Seq<char>| !before.rests_on(id) && Ledger::expired(before.orders[id], now)),
                forall|j: int| 0 <= j < gone@.len() ==> before.orders.contains_key((#[trigger] gone@[j])@) && drops(
                    gone@[j]@,
                ),
                forall|k: int| 0 <= k < i && drops((#[trigger] e[k]).0) ==> exists|j: int|
                    0 <= j < gone@.len() && (#[trigger] gone@[j])@ == e[k].0,
            decreases n - i,
        {
            let o: &ManagedOrder = self.orders.value_at(i);
            let id: &String = self.orders.key_at(i);
            let ghost had = gone@;
            assert(self.orders@.contains_key(e[i as int].0) && self.orders@[e[i as int].0] == e[i as int].1);
            assert(before.orders[e[i as int].0] == o@);
            if o.state.is_terminal() && !younger_than_secs(now, o.created_at, 3600) && !self.is_rested_on(id.as_str()) {
                gone.push(id.clone());
                assert(gone@[had.len() as int]@ == e[i as int].0);
                assert forall|k: int| 0 <= k <= i && drops((#[trigger] e[k]).0) implies exists|j: int|
                    0 <= j < gone@.len() && (#[trigger] gone@[j])@ == e[k].0 by {
                    if k < i {
                        let j = choose|j: int| 0 <= j < had.len() && (#[trigger] had[j])@ == e[k].0;
                        assert(gone@[j]@ == e[k].0);
                    }
                }
            }
            i = i + 1;
        }
        let ghost all = self.orders@;
        proof {
            assert forall|id: Seq<char>| all.contains_key(id) && #[trigger] drops(id) implies exists|j: int|
                0 <= j < gone@.len() && (#[trigger] gone@[j])@ == id by {
                let k = choose|k: int| 0 <= k < e.len() && (#[trigger] e[k]).0 == id;
                assert(drops(e[k].0));
            }
        }
        let mut j: usize = 0;
        while j < gone.len()
            invariant
                self.wf(),
                j <= gone@.len(),
                forall|id: Seq<char>| #[trigger] self.orders@.contains_key(id) <==> all.contains_key(id)
                    && !(exists|m: int| 0 <= m < j && (#[trigger] gone@[m])@ == id),
                forall|id: Seq<char>| #[trigger] self.orders@.contains_key(id) ==> self.orders@[id] == all[id],
                self@ == (Ledger { orders: self@.orders, ..before }),
            decreases gone@.len() - j,
        {
            let ghost prior = self.orders@;
            self.orders.remove(gone[j].as_str());
            proof {
                assert forall|id: Seq<char>| #[trigger] self.orders@.contains_key(id) <==> all.contains_key(id)
                    && !(exists|m: int| 0 <= m <= j && (#[trigger] gone@[m])@ == id) by {
                    assert(prior.contains_key(id) <==> all.contains_key(id) && !(exists|m: int|
                        0 <= m < j && (#[trigger] gone@[m])@ == id));
                    if exists|m: int| 0 <= m <= j && (#[trigger] gone@[m])@ == id {
                        let m = choose|m: int| 0 <= m <= j && (#[trigger] gone@[m])@ == id;
                        if m < j {
                            assert(gone@[m]@ == id);
                        }
                    } else {
                        assert(gone@[j as int]@ != id);
                    }
                }
            }
            j = j + 1;
        }
        proof {
            let kept = before.tidied(now).orders;
            assert forall|id: Seq<char>| self@.orders.contains_key(id) <==> kept.contains_key(id) by {
                assert(self.orders@.contains_key(id) <==> all.contains_key(id) && !(exists|m: int|
                    0 <= m < j && (#[trigger] gone@[m])@ == id));
                if all.contains_key(id) {
                    assert(before.orders[id] == all[id]@);
                    assert(drops(id) == (!before.rests_on(id) && Ledger::expired(before.orders[id], now)));
                }
            }
            assert(self@.orders =~= kept);
        }
    }

    /// The positions that are held on the exchange and not known here.
    fn unknown_positions(&self, held: &Table<i64>) -> (r: Vec<ReconciliationEntry>)
        requires
            self.wf(),
            held.wf(),
        ensures
            forall|a: int| 0 <= a < r@.len() ==> missing_here(#[trigger] r@[a], held@, self@.positions),
            distinct_tickers(r@),
            forall|t: Seq<char>| #[trigger] held@.contains_key(t) && !self@.positions.contains_key(t)
                ==> has_ticker(r@, t),
    {
        let ghost here = self@.positions;
        let mut out: Vec<ReconciliationEntry> = Vec::new();
        let n: usize = held.len();
        let ghost e = held.entries();
        let mut i: usize = 0;
        while i < n
            invariant
                self.wf(),
                here == self@.positions,
                held.wf(),
                held.spelled(),
                i <= n,
                n == e.len(),
                e == held.entries(),
                forall|j: int| 0 <= j < out@.len() ==> missing_here(#[trigger] out@[j], held@, here),
                forall|j: int| 0 <= j < out@.len() ==> exists|k: int|
                    0 <= k < i && (#[trigger] e[k]).0 == (#[trigger] out@[j]).ticker@,
                distinct_tickers(out@),
                forall|k: int| 0 <= k < i && !here.contains_key((#[trigger] e[k]).0) ==> has_ticker(out@, e[k].0),
            decreases n - i,
        {
            let ticker: &String = held.key_at(i);
            let qty: i64 = *held.value_at(i);
            let ghost had = out@;
            assert(held@.contains_key(e[i as int].0));
            if !self.positions.contains_key(ticker.as_str()) {
                out.push(
                    ReconciliationEntry {
                        discrepancy: "missing_local".to_owned(),
                        ticker: ticker.clone(),
                        exchange_qty: Some(low_half_of(qty)),
                        local_qty: None,
                        action_taken: "added_to_tracker".to_owned(),
                    },
                );
                proof {
                    assert(out@ == had.push(out@.last()));
                    assert(out@[had.len() as int].ticker@ == e[i as int].0);
                    assert forall|k: int| 0 <= k <= i && !here.contains_key((#[trigger] e[k]).0) implies has_ticker(
                        out@,
                        e[k].0,
                    ) by {
                        if k < i {
                            assert(has_ticker(had, e[k].0));
                            let j = choose|j: int| 0 <= j < had.len() && (#[trigger] had[j]).ticker@ == e[k].0;
                            assert(out@[j].ticker@ == e[k].0);
                        }
                    }
                    assert forall|j: int| 0 <= j < out@.len() implies exists|k: int|
                        0 <= k <= i && (#[trigger] e[k]).0 == (#[trigger] out@[j]).ticker@ by {
                        if j < had.len() {
                            assert(out@[j] == had[j]);
                            let k = choose|k: int| 0 <= k < i && (#[trigger] e[k]).0 == had[j].ticker@;
                            assert(e[k].0 == out@[j].ticker@);
                        }
                    }
                }
            }
            i = i + 1;
        }
        proof {
            assert forall|t: Seq<char>| #[trigger] held@.contains_key(t) && !self@.positions.contains_key(t) implies has_ticker(
                out@,
                t,
            ) by {
                let k = choose|k: int| 0 <= k < e.len() && (#[trigger] e[k]).0 == t;
                assert(!here.contains_key(e[k].0));
            }
        }
        out
    }

    /// Drops the positions that are not held on the exchange.
    fn drop_unheld(&mut self, held: &Table<i64>) -> (r: Vec<ReconciliationEntry>)
        requires
            old(self).wf(),
            held.wf(),
        ensures
            final(self).wf(),
            final(self)@ == (Ledger {
                positions: old(self)@.positions.restrict(held@.dom()),
                ..old(self)@
            }),
            forall|a: int| 0 <= a < r@.len() ==> missing_there(#[trigger] r@[a], held@, old(self)@.positions),
            distinct_tickers(r@),
            forall|t: Seq<char>| #[trigger] old(self)@.positions.contains_key(t) && !held@.contains_key(t)
                ==> has_ticker(r@, t),
    {
        let ghost before = self@;
        let ghost here = self@.positions;
        let mut out: Vec<ReconciliationEntry> = Vec::new();
        let local: Vec<String> = self.held_tickers();
        let mut j: usize = 0;
        while j < local.len()
            invariant
                self.wf(),
                held.wf(),
                j <= local@.len(),
                here == before.positions,
                self@ == (Ledger { positions: self@.positions, ..before }),
                texts(local@).no_duplicates(),
                forall|t: Seq<char>| #[trigger] texts(local@).contains(t) <==> here.contains_key(t),
                forall|a: int| 0 <= a < out@.len() ==> missing_there(#[trigger] out@[a], held@, here),
                forall|a: int| 0 <= a < out@.len() ==> exists|k: int|
                    0 <= k < j && (#[trigger] local@[k])@ == (#[trigger] out@[a]).ticker@,
                distinct_tickers(out@),
                forall|k: int| 0 <= k < j && !held@.contains_key((#[trigger] local@[k])@) ==> has_ticker(
                    out@,
                    local@[k]@,
                ),
                forall|t: Seq<char>| #[trigger] self@.positions.contains_key(t) <==> here.contains_key(t)
                    && !has_ticker(out@, t),
                forall|t: Seq<char>| #[trigger] self@.positions.contains_key(t) ==> self@.positions[t] == here[t],
            decreases local@.len() - j,
        {
            let ticker: &String = &local[j];
            let ghost had = out@;
            let ghost prior = self@;
            assert(texts(local@)[j as int] == ticker@);
            assert(texts(local@).contains(ticker@));
            if !held.contains_key(ticker.as_str()) {
                self.positions.remove(ticker.as_str());
                out.push(
                    ReconciliationEntry {
                        discrepancy: "missing_exchange".to_owned(),
                        ticker: ticker.clone(),
                        exchange_qty: None,
                        local_qty: Some(1),
                        action_taken: "removed_from_tracker".to_owned(),
                    },
                );
                proof {
                    assert(self@.positions =~= prior.positions.remove(ticker@));
                    let last = had.len() as int;
                    assert(out@[last].ticker@ == ticker@);
                    assert forall|a: int| 0 <= a < out@.len() implies exists|k: int|
                        0 <= k <= j && (#[trigger] local@[k])@ == (#[trigger] out@[a]).ticker@ by {
                        if a < last {
                            assert(out@[a] == had[a]);
                            let k = choose|k: int| 0 <= k < j && (#[trigger] local@[k])@ == had[a].ticker@;
                            assert(local@[k]@ == out@[a].ticker@);
                        } else {
                            assert(local@[j as int]@ == out@[a].ticker@);
                        }
                    }
                    assert forall|a: int, b: int| 0 <= a < b < out@.len() implies (#[trigger] out@[a]).ticker@ != (
                    #[trigger] out@[b]).ticker@ by {
                        assert(out@[a] == had[a]);
                        if b == last {
                            let k = choose|k: int| 0 <= k < j && (#[trigger] local@[k])@ == had[a].ticker@;
                            assert(texts(local@)[k] == had[a].ticker@);
                        } else {
                            assert(out@[b] == had[b]);
                        }
                    }
                    assert forall|t: Seq<char>| has_ticker(out@, t) <==> has_ticker(had, t) || t == ticker@ by {
                        if has_ticker(had, t) {
                            let a = choose|a: int| 0 <= a < had.len() && (#[trigger] had[a]).ticker@ == t;
                            assert(out@[a].ticker@ == t);
                        }
                        if has_ticker(out@, t) {
                            let a = choose|a: int| 0 <= a < out@.len() && (#[trigger] out@[a]).ticker@ == t;
                            if a < last {
                                assert(had[a].ticker@ == t);
                            }
                        }
                    }
                }
            }
            j = j + 1;
        }
        proof {
            assert forall|t: Seq<char>| #[trigger] here.contains_key(t) && !held@.contains_key(t) implies has_ticker(
                out@,
                t,
            ) by {
                assert(texts(local@).contains(t));
                let k = choose|k: int| 0 <= k < texts(local@).len() && texts(local@)[k] == t;
                assert(local@[k]@ == t);
            }
            assert forall|t: Seq<char>| self@.positions.contains_key(t) <==> here.restrict(held@.dom()).contains_key(
                t,
            ) by {
                if self@.positions.contains_key(t) {
                    assert(here.contains_key(t));
                }
                if has_ticker(out@, t) {
                    let a = choose|a: int| 0 <= a < out@.len() && (#[trigger] out@[a]).ticker@ == t;
                    assert(missing_there(out@[a], held@, here));
                }
            }
            assert(self@.positions =~= here.restrict(held@.dom()));
        }
        out
    }

    /// Compares the positions here with those that the exchange reports, and drops those that the
    /// exchange does not hold. Returns the disagreements, for the record: first what is missing
    /// here, then what was missing there.
    pub fn reconcile_positions(&mut self, exchange: &Vec<Position>) -> (r: Vec<ReconciliationEntry>)
        requires
            old(self).wf(),
        ensures
            final(self).wf(),
            final(self)@ == old(self)@.reconciled(exchange@),
            exists|m: int| #[trigger] disagreements(
                r@,
                m,
                held_on_exchange(exchange@),
                old(self)@.positions,
            ),
    {
        let ghost here = self@.positions;
        let held: Table<i64> = exchange_table(exchange);
        let ghost there = held@;
        let mut out: Vec<ReconciliationEntry> = self.unknown_positions(&held);
        let mut gone: Vec<ReconciliationEntry> = self.drop_unheld(&held);
        let ghost first = out@;
        let ghost second = gone@;
        out.append(&mut gone);
        proof {
            let m = first.len() as int;
            assert(out@ == first + second);
            assert forall|a: int, b: int| 0 <= a < b < out@.len() implies (#[trigger] out@[a]).ticker@ != (
            #[trigger] out@[b]).ticker@ by {
                if b < m {
                    assert(first[a].ticker@ != first[b].ticker@);
                } else if a >= m {
                    assert(second[a - m].ticker@ != second[b - m].ticker@);
                } else {
                    assert(missing_here(first[a], there, here));
                    assert(missing_there(second[b - m], there, here));
                }
            }
            assert forall|t: Seq<char>|
                #![trigger there.contains_key(t)]
                #![trigger here.contains_key(t)]
                there.contains_key(t) != here.contains_key(t) implies has_ticker(out@, t) by {
                if there.contains_key(t) {
                    assert(has_ticker(first, t));
                    let a = choose|a: int| 0 <= a < first.len() && (#[trigger] first[a]).ticker@ == t;
                    assert(out@[a].ticker@ == t);
                } else {
                    assert(has_ticker(second, t));
                    let a = choose|a: int| 0 <= a < second.len() && (#[trigger] second[a]).ticker@ == t;
                    assert(out@[m + a].ticker@ == t);
                }
            }
            assert forall|a: int| m <= a < out@.len() implies missing_there(#[trigger] out@[a], there, here) by {
                assert(out@[a] == second[a - m]);
            }
            assert(disagreements(out@, m, there, here));
        }
        out
    }

    /// The tickers in which a position is held.
    fn held_tickers(&self) -> (r: Vec<String>)
        requires
            self.wf(),
        ensures
            texts(r@).no_duplicates(),
            forall|t: Seq<char>| #[trigger] texts(r@).contains(t) <==> self@.positions.contains_key(t),
    {
        let out: Vec<String> = self.positions.keys();
        assert forall|t: Seq<char>| #[trigger] texts(out@).contains(t) <==> self@.positions.contains_key(t) by {
            assert(texts(out@).to_set().contains(t) == texts(out@).contains(t));
        }
        out
    }

    /// What is to be done about a signal: an exit where a position is held, an entry where
    /// nothing speaks against it. No entry is prepared in any other case.
    pub fn route_signal(
        &mut self,
        config: &Config,
        signal: &Signal,
        stake: i64,
        percent: i64,
        kill_switch: &KillSwitchState,
        feed_health: &FeedHealth,
        crypto_state: &CryptoStateInner,
        now: u64,
        today: i64,
    ) -> (r: SignalRoute)
        requires
            old(self).wf(),
            signal.action@ != "exit"@ && old(self)@.refusal(
                *config,
                *signal,
                stake,
                *kill_switch,
                feed_health@,
                now,
                today,
            ) is None ==> old(self)@.sequence < u64::MAX,
        ensures
            final(self).wf(),
            routes(
                r,
                old(self)@,
                final(self)@,
                *config,
                *signal,
                stake,
                percent,
                *kill_switch,
                feed_health@,
                *crypto_state,
                now,
                today,
            ),
    {
        if same_text(signal.action.as_str(), "exit") {
            return if self.has_position(signal.ticker.as_str()) { SignalRoute::Exit } else { SignalRoute::Ignore };
        }
        match self.check_risk(config, signal, stake, kill_switch, feed_health, now, today) {
            Ok(_) => SignalRoute::Enter(self.prepare_entry(config, signal, stake, percent, crypto_state, now)),
            Err(reason) => SignalRoute::Refuse(reason),
        }
    }

    /// Prepares an entry that is carried out while others may use the manager: the ticker rests
    /// and the order counts from here on. The request is to be sent unless orders are filled on
    /// paper.
    pub fn prepare_entry(
        &mut self,
        config: &Config,
        signal: &Signal,
        stake: i64,
        percent: i64,
        crypto_state: &CryptoStateInner,
        now: u64,
    ) -> (r: Submission)
        requires
            old(self).wf(),
            old(self)@.sequence < u64::MAX,
        ensures
            final(self).wf(),
            final(self)@ == old(self)@.prepared(signal.ticker@, now),
            prepares(r, old(self)@, *config, *signal, stake, percent, *crypto_state, now),
    {
        let size: i64 = compute_order_size(config, stake);
        let order: ManagedOrder = self.open_order(
            signal,
            percent,
            signal.direction.clone(),
            size,
            None,
            crypto_state,
            now,
        );
        self.record_signal_cooldown(signal.ticker.as_str(), now);
        self.record_order_submission(signal.ticker.as_str(), now);
        let request: Option<OrderRequest> = if config.paper_mode {
            None
        } else {
            Some(
                OrderRequest {
                    ticker: signal.ticker.clone(),
                    action: "buy".to_owned(),
                    side: signal.direction.clone(),
                    order_type: "market".to_owned(),
                    count: size,
                    yes_price: None,
                    no_price: None,
                    client_order_id: Some(order.client_order_id.clone()),
                    expiration_time: None,
                },
            )
        };
        Submission { order, request, lawful: true }
    }

    /// The order of a prepared entry holds the position in its ticker from here on, and is kept.
    pub fn hold(&mut self, order: ManagedOrder)
        requires
            old(self).wf(),
        ensures
            final(self).wf(),
            final(self)@ == old(self)@.holding(order.ticker@, order@),
    {
        let ticker: String = order.ticker.clone();
        let id: String = order.client_order_id.clone();
        self.take_position(ticker, id);
        self.keep(order);
    }

    /// Fills a prepared entry on paper, in full and at the price of its side; `rest` is what the
    /// market price leaves to one. The order holds its position from here on and is kept; what is
    /// handed out is to be stored.
    pub fn prepared_filled(&mut self, mut order: ManagedOrder, signal: &Signal, rest: Float, now: u64) -> (r: ManagedOrder)
        requires
            old(self).wf(),
        ensures
            final(self).wf(),
            r@ == order@.took_fill(
                order.requested_qty,
                Some(FillPrice::Quote(paper_price(*signal, rest))),
                now,
            ),
            final(self)@ == old(self)@.holding(order.ticker@, r@),
    {
        let price: FillPrice = FillPrice::Quote(paper_fill_price(signal, rest));
        let size: i64 = order.requested_qty;
        order.record_fill(size, Some(price), now);
        self.hold(order.copy());
        order
    }

    /// Takes the exchange's reply to a prepared entry, after `latency_ms`. The order is kept in
    /// any case; what is handed out is to be stored.
    pub fn prepared_answered(
        &mut self,
        mut order: ManagedOrder,
        reply: Result<Order, KalshiError>,
        latency_ms: i64,
        now: u64,
    ) -> (r: (ManagedOrder, Placed))
        requires
            old(self).wf(),
        ensures
            final(self).wf(),
            settles_prepared(r.0@, r.1, old(self)@, final(self)@, order@, reply, latency_ms, now),
    {
        match reply {
            Ok(placed) => {
                order.latency_ms = Some(latency_ms);
                order.kalshi_order_id = Some(placed.order_id.clone());
                let filled: i64 = placed.filled_qty();
                if filled > 0 {
                    let price: Option<FillPrice> = match placed.price_cents() {
                        Some(cents) => Some(FillPrice::Cents(cents)),
                        None => None,
                    };
                    let lawful: bool = order.record_fill(filled, price, now);
                    if order.state.has_fill() {
                        self.hold(order.copy());
                    } else {
                        self.keep(order.copy());
                    }
                    (order, Placed::Taken { lawful })
                } else {
                    let lawful: bool = order.transition(OrderState::Acknowledged, now);
                    self.keep(order.copy());
                    (order, Placed::Taken { lawful })
                }
            },
            Err(e) => {
                let refused: bool = match &e {
                    KalshiError::InsufficientFunds => true,
                    KalshiError::MarketClosed => true,
                    KalshiError::RateLimit { retry_after_secs: _ } => true,
                    _ => false,
                };
                if refused {
                    order.transition(OrderState::Rejected, now);
                    self.keep(order.copy());
                    (order, Placed::Refused(e))
                } else {
                    order.transition(OrderState::Unknown, now);
                    self.keep(order.copy());
                    (order, Placed::Lost(e))
                }
            },
        }
    }

    /// The orders to be cancelled while trading is halted: those of each strategy that is.
    pub fn halted_orders(&self, kill_switch: &KillSwitchState) -> (r: Vec<String>)
        requires
            self.wf(),
        ensures
            texts(r@).no_duplicates(),
            forall|id: Seq<char>| #[trigger] texts(r@).contains(id) <==> self@.orders.contains_key(id) && called_back(
                self@.orders[id],
                *kill_switch,
            ),
    {
        let mut out: Vec<String> = self.halted_of("crypto", kill_switch.is_blocked("crypto"));
        let mut more: Vec<String> = self.halted_of("weather", kill_switch.is_blocked("weather"));
        let ghost first = texts(out@);
        let ghost second = texts(more@);
        out.append(&mut more);
        proof {
            let all = texts(out@);
            assert(all =~= first + second);
            assert forall|i: int, j: int| 0 <= i < j < all.len() implies all[i] != all[j] by {
                let m = first.len() as int;
                if j < m {
                    assert(first[i] != first[j]);
                } else if i >= m {
                    assert(second[i - m] != second[j - m]);
                } else {
                    assert(first.contains(first[i]));
                    assert(second.contains(second[j - m]));
                    reveal_strlit("crypto");
                    reveal_strlit("weather");
                    assert("crypto"@.len() != "weather"@.len());
                }
            }
            assert forall|id: Seq<char>| #[trigger] texts(out@).contains(id) <==> first.contains(id) || second.contains(
                id,
            ) by {
                if texts(out@).contains(id) {
                    let k = choose|k: int| 0 <= k < texts(out@).len() && texts(out@)[k] == id;
                    if k < first.len() {
                        assert(first[k] == id);
                    } else {
                        assert(second[k - first.len()] == id);
                    }
                }
                if first.contains(id) {
                    let k = choose|k: int| 0 <= k < first.len() && first[k] == id;
                    assert(texts(out@)[k] == id);
                }
                if second.contains(id) {
                    let k = choose|k: int| 0 <= k < second.len() && second[k] == id;
                    assert(texts(out@)[first.len() + k] == id);
                }
            }
        }
        out
    }

    fn halted_of(&self, signal_type: &str, halted: bool) -> (r: Vec<String>)
        requires
            self.wf(),
        ensures
            texts(r@).no_duplicates(),
            forall|id: Seq<char>| #[trigger] texts(r@).contains(id) <==> halted && self@.orders.contains_key(id)
                && self@.orders[id].state.cancellable() && self@.orders[id].signal_type == signal_type@,
    {
        if halted {
            self.in_flight(Some(signal_type))
        } else {
            let none: Vec<String> = Vec::new();
            assert(texts(none@).len() == 0);
            none
        }
    }
}

/// An order that could be cancelled, of a strategy that is halted.
pub open spec fn called_back(o: OrderRecord, switches: KillSwitchState) -> bool {
    o.state.cancellable() && (switches.blocks("crypto"@) && o.signal_type == "crypto"@ || switches.blocks("weather"@)
        && o.signal_type == "weather"@)
}

/// A position that the exchange holds and that is not known here.
pub open spec fn missing_here(
    e: ReconciliationEntry,
    there: Map<Seq<char>, i64>,
    here: Map<Seq<char>, Seq<char>>,
) -> bool {
    &&& there.contains_key(e.ticker@)
    &&& !here.contains_key(e.ticker@)
    &&& e.discrepancy@ == "missing_local"@
    &&& e.exchange_qty == Some(low_half(there[e.ticker@]))
    &&& e.local_qty is None
    &&& e.action_taken@ == "added_to_tracker"@
}

/// A position that is known here and that the exchange does not hold.
pub open spec fn missing_there(
    e: ReconciliationEntry,
    there: Map<Seq<char>, i64>,
    here: Map<Seq<char>, Seq<char>>,
) -> bool {
    &&& !there.contains_key(e.ticker@)
    &&& here.contains_key(e.ticker@)
    &&& e.discrepancy@ == "missing_exchange"@
    &&& e.exchange_qty is None
    &&& e.local_qty == Some(1i32)
    &&& e.action_taken@ == "removed_from_tracker"@
}

/// The entries are the disagreements between exchange and tracker, each once, with the first
/// `m` on what is missing here.
pub open spec fn disagreements(
    entries: Seq<ReconciliationEntry>,
    m: int,
    there: Map<Seq<char>, i64>,
    here: Map<Seq<char>, Seq<char>>,
) -> bool {
    &&& 0 <= m <= entries.len()
    &&& forall|a: int| 0 <= a < m ==> missing_here(#[trigger] entries[a], there, here)
    &&& forall|a: int| m <= a < entries.len() ==> missing_there(#[trigger] entries[a], there, here)
    &&& distinct_tickers(entries)
    &&& forall|t: Seq<char>|
        #![trigger there.contains_key(t)]
        #![trigger here.contains_key(t)]
        there.contains_key(t) != here.contains_key(t) ==> has_ticker(entries, t)
}

/// No two entries are on one ticker.
pub open spec fn distinct_tickers(entries: Seq<ReconciliationEntry>) -> bool {
    forall|a: int, b: int|
        0 <= a < b < entries.len() ==> (#[trigger] entries[a]).ticker@ != (#[trigger] entries[b]).ticker@
}

/// Some entry is on the ticker.
pub open spec fn has_ticker(entries: Seq<ReconciliationEntry>, t: Seq<char>) -> bool {
    exists|a: int| 0 <= a < entries.len() && (#[trigger] entries[a]).ticker@ == t
}

/// The low 32 bits of a whole number, read as a signed one.
fn low_half_of(q: i64) -> (r: i32)
    ensures
        r == low_half(q),
{
    let lifted: u128 = (q as i128 + 0x8000_0000_0000_0000i128 + 0x8000_0000i128) as u128;
    let m: u128 = lifted % 0x1_0000_0000u128;
    proof {
        vstd::arithmetic::div_mod::lemma_mod_multiples_vanish(0x8000_0000, q + 0x8000_0000, 0x1_0000_0000);
    }
    (m as i64 - 0x8000_0000i64) as i32
}

/// What the exchange holds, by ticker.
fn exchange_table(exchange: &Vec<Position>) -> (r: Table<i64>)
    ensures
        r.wf(),
        r@ == held_on_exchange(exchange@),
{
    let mut held: Table<i64> = Table::new();
    let mut i: usize = 0;
    assert(exchange@.take(0) =~= Seq::<Position>::empty());
    while i < exchange.len()
        invariant
            held.wf(),
            i <= exchange@.len(),
            held@ == held_on_exchange(exchange@.take(i as int)),
        decreases exchange@.len() - i,
    {
        let p: &Position = &exchange[i];
        proof {
            assert(exchange@.take(i + 1).drop_last() =~= exchange@.take(i as int));
            assert(exchange@.take(i + 1).last() == exchange@[i as int]);
        }
        let exposure: i64 = match p.market_exposure {
            Some(n) => n,
            None => 0,
        };
        if exposure != 0 {
            held.insert(p.ticker.clone(), exposure);
        }
        i = i + 1;
    }
    assert(exchange@.take(exchange@.len() as int) =~= exchange@);
    held
}

/// An order that could be cancelled, of one signal type or of any.
spec fn flying(o: ManagedOrder, signal_type: Option<&str>) -> bool {
    o.state.cancellable() && (signal_type matches Some(t) ==> o.signal_type@ == t@)
}

/// The sum of the exposures of listed orders.
spec fn listed_exposure(e: Seq<(Seq<char>, ManagedOrder)>) -> int
    decreases e.len(),
{
    if e.len() == 0 { 0 } else { listed_exposure(e.drop_last()) + e.last().1@.exposure() }
}

proof fn listed_exposure_is_total(e: Seq<(Seq<char>, ManagedOrder)>)
    requires
        distinct_keys(e),
    ensures
        listed_exposure(e) == total_exposure(records(association(e))),
    decreases e.len(),
{
    association_looks_up(e);
    let all = records(association(e));
    assert(all.dom() =~= association(e).dom());
    if e.len() > 0 {
        let t = e.drop_last();
        assert(distinct_keys(t));
        listed_exposure_is_total(t);
        association_looks_up(t);
        let k = e.last().0;
        assert(!association(t).contains_key(k)) by {
            if association(t).contains_key(k) {
                let j = choose|j: int| 0 <= j < t.len() && (#[trigger] t[j]).0 == k;
                assert(e[j].0 == e[e.len() - 1].0);
            }
        }
        exposure_without(all, k);
        assert(all.remove(k) =~= records(association(t)));
    }
}

} // verus!
