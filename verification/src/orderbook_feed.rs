//! From the exchange's messages to books, tape and per-ticker state, and from there to the
//! summaries that others read.
use std::collections::VecDeque;
use vstd::prelude::*;
use vstd::string::*;

use crate::feed_health::FeedHealth;
use crate::float::Float;
use crate::kalshi::orderbook::{size_at, OrderbookManager, Shelf, Side, TickerTopOfBook};
use crate::kalshi::price::{cents_price, half_cents_price, Price};
use crate::kalshi::trade_tape::{recorded, TradeRecord, TradeTape};
use crate::kalshi::websocket::{FeedNews, WsFeedMessage};
use crate::order_manager::order::text_of;
use crate::table::Table;
use crate::text::{same_text, texts};
use crate::time::{elapsed, secs, since};

verus! {

/// Seconds that a price is remembered.
pub const PRICE_MEMORY_SECS: u64 = 60;

/// Seconds after which a book counts as stale.
pub const STALE_SECS: u64 = 30;

/// What the ticker channel has told of a market.
pub struct TickerState {
    pub yes_bid_size: Option<i64>,
    pub yes_ask_size: Option<i64>,
    pub volume: Option<i64>,
    pub open_interest: Option<i64>,
    pub prev_open_interest: Option<i64>,
    pub last_price_history: VecDeque<(u64, i64)>,
    pub market_status: Option<String>,
}

/// The same as mathematics.
pub struct TickerInfo {
    pub yes_bid_size: Option<i64>,
    pub yes_ask_size: Option<i64>,
    pub volume: Option<i64>,
    pub open_interest: Option<i64>,
    pub prev_open_interest: Option<i64>,
    pub last_price_history: Seq<(u64, i64)>,
    pub market_status: Option<Seq<char>>,
}

impl View for TickerState {
    type V = TickerInfo;

    open spec fn view(&self) -> TickerInfo {
        TickerInfo {
            yes_bid_size: self.yes_bid_size,
            yes_ask_size: self.yes_ask_size,
            volume: self.volume,
            open_interest: self.open_interest,
            prev_open_interest: self.prev_open_interest,
            last_price_history: self.last_price_history@,
            market_status: text_of(self.market_status),
        }
    }
}

/// Nothing told yet.
pub open spec fn no_info() -> TickerInfo {
    TickerInfo {
        yes_bid_size: None,
        yes_ask_size: None,
        volume: None,
        open_interest: None,
        prev_open_interest: None,
        last_price_history: Seq::empty(),
        market_status: None,
    }
}

impl Default for TickerState {
    fn default() -> (r: Self)
        ensures
            r@ == no_info(),
    {
        TickerState {
            yes_bid_size: None,
            yes_ask_size: None,
            volume: None,
            open_interest: None,
            prev_open_interest: None,
            last_price_history: VecDeque::new(),
            market_status: None,
        }
    }
}

/// The prices without those at the front that are forgotten.
pub open spec fn remembered(s: Seq<(u64, i64)>, now: u64) -> Seq<(u64, i64)>
    decreases s.len(),
{
    if s.len() > 0 && s[0].0 + secs(PRICE_MEMORY_SECS as int) < now { remembered(s.drop_first(), now) } else { s }
}

/// The first if it is there, else the second.
pub open spec fn or_else<T>(a: Option<T>, b: Option<T>) -> Option<T> {
    if a is Some { a } else { b }
}

impl TickerInfo {
    /// What is known after another update; what it does not tell stays. A new open interest
    /// makes the one before it the previous one.
    pub open spec fn updated(
        self,
        yes_bid_size: Option<i64>,
        yes_ask_size: Option<i64>,
        volume: Option<i64>,
        open_interest: Option<i64>,
        last_price: Option<i64>,
        market_status: Option<Seq<char>>,
        now: u64,
    ) -> TickerInfo {
        TickerInfo {
            yes_bid_size: or_else(yes_bid_size, self.yes_bid_size),
            yes_ask_size: or_else(yes_ask_size, self.yes_ask_size),
            volume: or_else(volume, self.volume),
            open_interest: or_else(open_interest, self.open_interest),
            prev_open_interest: if open_interest is Some { self.open_interest } else { self.prev_open_interest },
            last_price_history: match last_price {
                Some(p) => remembered(self.last_price_history.push((now, p)), now),
                None => self.last_price_history,
            },
            market_status: or_else(market_status, self.market_status),
        }
    }
}

impl TickerState {
    /// Remembers a price, and forgets those that are too old.
    pub fn record_price(&mut self, price: i64, now: u64)
        ensures
            final(self)@ == (TickerInfo {
                last_price_history: remembered(old(self)@.last_price_history.push((now, price)), now),
                ..old(self)@
            }),
    {
        let ghost before = *self;
        self.last_price_history.push_back((now, price));
        let ghost all = self.last_price_history@;
        while self.last_price_history.len() > 0 && self.last_price_history[0].0 as u128 + (
        PRICE_MEMORY_SECS as u128) * 1_000_000_000u128 < now as u128
            invariant
                remembered(self.last_price_history@, now) == remembered(all, now),
                *self == (TickerState { last_price_history: self.last_price_history, ..before }),
            decreases self.last_price_history@.len(),
        {
            let ghost prices = self.last_price_history@;
            self.last_price_history.pop_front();
            assert(self.last_price_history@ =~= prices.drop_first());
        }
    }

    /// Takes note of an open interest.
    pub fn record_open_interest(&mut self, open_interest: i64)
        ensures
            final(self)@ == (TickerInfo {
                prev_open_interest: old(self)@.open_interest,
                open_interest: Some(open_interest),
                ..old(self)@
            }),
    {
        self.prev_open_interest = self.open_interest;
        self.open_interest = Some(open_interest);
    }
}

/// Side and price in cents of the level that a change is about: a no at a price is an ask at
/// what is left to a hundred.
pub open spec fn level_of(side: Seq<char>, price_cents: i64) -> (Side, int) {
    if side == "yes"@ { (Side::Bid, price_cents as int) } else { (Side::Ask, 100 - price_cents) }
}

/// A change that stays within the range of sizes and prices.
pub open spec fn fits(news: FeedNews, shelf: Shelf, now: u64) -> bool {
    match news {
        FeedNews::Delta { ticker, side, price_cents, delta } => {
            let (s, p) = level_of(side, price_cents);
            p <= i64::MAX && size_at(shelf.book(ticker, now).side(s), p as i64) + delta <= i64::MAX
        },
        _ => true,
    }
}

/// What becomes of the books.
pub open spec fn shelf_after(shelf: Shelf, news: FeedNews, now: u64) -> Shelf {
    match news {
        FeedNews::Snapshot { ticker, yes_bids, yes_asks } => Shelf {
            books: shelf.books.insert(ticker, shelf.book(ticker, now).replaced(yes_bids, yes_asks, now)),
            ..shelf
        },
        FeedNews::Delta { ticker, side, price_cents, delta } => {
            let (s, p) = level_of(side, price_cents);
            Shelf {
                books: shelf.books.insert(ticker, shelf.book(ticker, now).with_change(s, p as i64, delta, now)),
                ..shelf
            }
        },
        FeedNews::Ticker { ticker, yes_bid, yes_ask, market_status, .. } => {
            let told = if yes_bid is Some || yes_ask is Some {
                Shelf {
                    tops: shelf.tops.insert(
                        ticker,
                        TickerTopOfBook {
                            yes_bid: or_else(yes_bid, shelf.told(ticker).yes_bid),
                            yes_ask: or_else(yes_ask, shelf.told(ticker).yes_ask),
                            last_update: Some(now),
                        },
                    ),
                    ..shelf
                }
            } else {
                shelf
            };
            if market_status == Some("closed"@) || market_status == Some("settled"@) {
                Shelf { books: told.books.remove(ticker), ..told }
            } else {
                told
            }
        },
        _ => shelf,
    }
}

/// The ticker that a message is about.
pub open spec fn subject(news: FeedNews) -> Option<Seq<char>> {
    match news {
        FeedNews::Snapshot { ticker, .. } => Some(ticker),
        FeedNews::Delta { ticker, .. } => Some(ticker),
        FeedNews::Trade { ticker, .. } => Some(ticker),
        FeedNews::Ticker { ticker, .. } => Some(ticker),
        _ => None,
    }
}

/// The tickers whose summary is out of date after a message.
pub open spec fn outdated_by(stale: Set<Seq<char>>, news: FeedNews) -> Set<Seq<char>> {
    match subject(news) {
        Some(t) => stale.insert(t),
        None => stale,
    }
}

/// When each feed last brought data, after a message: news on a book count for the exchange.
pub open spec fn refreshed_by(last: Map<Seq<char>, u64>, news: FeedNews, now: u64) -> Map<Seq<char>, u64> {
    if news is Snapshot || news is Delta { last.insert("kalshi_ws"@, now) } else { last }
}

/// The ticker channel has spoken of a market, and its book is stale or missing.
pub open spec fn left_behind(told: Map<Seq<char>, TickerInfo>, shelf: Shelf, t: Seq<char>, now: u64) -> bool {
    told.contains_key(t) && (shelf.books.contains_key(t) ==> since(now, shelf.books[t].last_update) > secs(
        STALE_SECS as int,
    ))
}

/// What becomes of the per-ticker state.
pub open spec fn infos_after(infos: Map<Seq<char>, TickerInfo>, news: FeedNews, now: u64) -> Map<
    Seq<char>,
    TickerInfo,
> {
    match news {
        FeedNews::Ticker {
            ticker,
            yes_bid_size,
            yes_ask_size,
            last_price,
            volume,
            open_interest,
            market_status,
            ..
        } => infos.insert(
            ticker,
            info_of(infos, ticker).updated(
                yes_bid_size,
                yes_ask_size,
                volume,
                open_interest,
                last_price,
                market_status,
                now,
            ),
        ),
        _ => infos,
    }
}

pub open spec fn info_of(infos: Map<Seq<char>, TickerInfo>, ticker: Seq<char>) -> TickerInfo {
    if infos.contains_key(ticker) { infos[ticker] } else { no_info() }
}

/// A record of the trade that a message tells.
pub open spec fn records(t: TradeRecord, news: FeedNews, now: u64) -> bool {
    news matches FeedNews::Trade { ticker, price_cents, count, taker_side } && t.ticker@ == ticker && t.price_cents
        == price_cents && t.count == count && t.taker_side@ == taker_side && t.timestamp == now
}

/// What the consumer of the feed keeps: tickers whose summary is out of date, and what the
/// ticker channel has told.
pub struct FeedConsumer {
    dirty: Table<bool>,
    states: Table<TickerState>,
}

pub open spec fn infos(m: Map<Seq<char>, TickerState>) -> Map<Seq<char>, TickerInfo> {
    m.map_values(|s: TickerState| s@)
}

impl FeedConsumer {
    pub closed spec fn wf(&self) -> bool {
        self.dirty.wf() && self.states.wf()
    }

    /// The tickers whose summary is out of date.
    pub closed spec fn stale_summaries(&self) -> Set<Seq<char>> {
        self.dirty@.dom()
    }

    pub closed spec fn told(&self) -> Map<Seq<char>, TickerInfo> {
        infos(self.states@)
    }

    pub fn new() -> (r: Self)
        ensures
            r.wf(),
            r.stale_summaries() == Set::<Seq<char>>::empty(),
            r.told() == Map::<Seq<char>, TickerInfo>::empty(),
    {
        let r = FeedConsumer { dirty: Table::new(), states: Table::new() };
        assert(r.stale_summaries() =~= Set::<Seq<char>>::empty());
        assert(r.told() =~= Map::<Seq<char>, TickerInfo>::empty());
        r
    }

    /// Whether a message stays within the range of sizes and prices.
    pub fn admits(msg: &WsFeedMessage, books: &OrderbookManager, now: u64) -> (r: bool)
        requires
            books.wf(),
        ensures
            r == fits(msg@, books@, now),
    {
        match msg {
            WsFeedMessage::OrderbookDelta { ticker, side, price_cents, delta } => {
                let yes: bool = same_text(side.as_str(), "yes");
                let s: Side = if yes { Side::Bid } else { Side::Ask };
                let p: i128 = if yes { *price_cents as i128 } else { 100 - *price_cents as i128 };
                if p > i64::MAX as i128 {
                    return false;
                }
                books.level_size(ticker.as_str(), s, p as i64) as i128 + *delta as i128 <= i64::MAX as i128
            },
            _ => true,
        }
    }

    fn mark(&mut self, ticker: &str)
        requires
            old(self).wf(),
        ensures
            final(self).wf(),
            final(self).stale_summaries() == old(self).stale_summaries().insert(ticker@),
            final(self).told() == old(self).told(),
    {
        self.dirty.insert(ticker.to_owned(), true);
        assert(self.stale_summaries() =~= old(self).stale_summaries().insert(ticker@));
    }

    /// Takes a message in.
    pub fn handle(
        &mut self,
        msg: WsFeedMessage,
        books: &mut OrderbookManager,
        tape: &mut TradeTape,
        feed_health: &mut FeedHealth,
        now: u64,
    )
        requires
            old(self).wf(),
            old(books).wf(),
            old(tape).wf(),
            fits(msg@, old(books)@, now),
        ensures
            final(self).wf(),
            final(books).wf(),
            final(tape).wf(),
            final(books)@ == shelf_after(old(books)@, msg@, now),
            final(self).told() == infos_after(old(self).told(), msg@, now),
            final(self).stale_summaries() == outdated_by(old(self).stale_summaries(), msg@),
            final(feed_health)@ == refreshed_by(old(feed_health)@, msg@, now),
            if msg@ is Trade {
                exists|t: TradeRecord| #[trigger] records(t, msg@, now) && final(tape)@ == recorded(
                    old(tape)@,
                    t,
                    old(tape).limit(),
                )
            } else {
                final(tape)@ == old(tape)@
            },
            final(tape).limit() == old(tape).limit(),
    {
        let ghost seen = msg@;
        match msg {
            WsFeedMessage::OrderbookSnapshot { ticker, yes_bids, yes_asks } => {
                books.apply_snapshot(ticker.as_str(), yes_bids, yes_asks, now);
                self.mark(ticker.as_str());
                feed_health.record_update("kalshi_ws", now);
            },
            WsFeedMessage::OrderbookDelta { ticker, side, price_cents, delta } => {
                if same_text(side.as_str(), "yes") {
                    books.apply_delta(ticker.as_str(), Side::Bid, price_cents, delta, now);
                } else {
                    books.apply_delta(ticker.as_str(), Side::Ask, 100 - price_cents, delta, now);
                }
                self.mark(ticker.as_str());
                feed_health.record_update("kalshi_ws", now);
            },
            WsFeedMessage::Trade { ticker, price_cents, count, taker_side } => {
                let t: TradeRecord = TradeRecord {
                    ticker: ticker.clone(),
                    price_cents,
                    count,
                    taker_side,
                    timestamp: now,
                };
                assert(records(t, seen, now));
                tape.record(t);
                self.mark(ticker.as_str());
            },
            WsFeedMessage::TickerUpdate {
                ticker,
                yes_bid,
                yes_ask,
                yes_bid_size,
                yes_ask_size,
                last_price,
                last_trade_count: _,
                volume,
                open_interest,
                market_status,
            } => {
                if yes_bid.is_some() || yes_ask.is_some() {
                    books.update_ticker_tob(ticker.as_str(), yes_bid, yes_ask, now);
                }
                let ghost before = self.told();
                let mut state: TickerState = match self.states.remove(ticker.as_str()) {
                    Some(s) => s,
                    None => TickerState::default(),
                };
                if yes_bid_size.is_some() {
                    state.yes_bid_size = yes_bid_size;
                }
                if yes_ask_size.is_some() {
                    state.yes_ask_size = yes_ask_size;
                }
                if volume.is_some() {
                    state.volume = volume;
                }
                if let Some(oi) = open_interest {
                    state.record_open_interest(oi);
                }
                if let Some(price) = last_price {
                    state.record_price(price, now);
                }
                if let Some(status) = market_status {
                    if same_text(status.as_str(), "closed") || same_text(status.as_str(), "settled") {
                        books.remove(ticker.as_str());
                    }
                    state.market_status = Some(status);
                }
                self.states.insert(ticker.clone(), state);
                assert(self.told() =~= infos_after(before, seen, now));
                self.mark(ticker.as_str());
            },
            WsFeedMessage::Disconnected => {},
            WsFeedMessage::Reconnected => {},
        }
    }

    /// Hands out the tickers whose summary is out of date, each once; from here on none is.
    pub fn take_dirty(&mut self) -> (r: Vec<String>)
        requires
            old(self).wf(),
        ensures
            final(self).wf(),
            texts(r@).no_duplicates(),
            texts(r@).to_set() == old(self).stale_summaries(),
            final(self).stale_summaries() == Set::<Seq<char>>::empty(),
            final(self).told() == old(self).told(),
    {
        let out: Vec<String> = self.dirty.keys();
        self.dirty = Table::new();
        assert(self.stale_summaries() =~= Set::<Seq<char>>::empty());
        out
    }

    /// The tickers that the ticker channel has spoken of and whose book is stale or missing.
    pub fn stale_tickers(&self, books: &OrderbookManager, now: u64) -> (r: Vec<String>)
        requires
            self.wf(),
        ensures
            texts(r@).no_duplicates(),
            forall|t: Seq<char>| #[trigger] texts(r@).contains(t) <==> left_behind(self.told(), books@, t, now),
    {
        let all: Vec<String> = self.states.keys();
        let ghost names = texts(all@);
        let mut out: Vec<String> = Vec::new();
        let ghost old_book = |t: Seq<char>| books@.books.contains_key(t) ==> since(
            now,
            books@.books[t].last_update,
        ) > secs(STALE_SECS as int);
        let mut i: usize = 0;
        while i < all.len()
            invariant
                i <= all@.len(),
                names == texts(all@),
                names.no_duplicates(),
                old_book == (|t: Seq<char>| books@.books.contains_key(t) ==> since(
                    now,
                    books@.books[t].last_update,
                ) > secs(STALE_SECS as int)),
                texts(out@) == names.take(i as int).filter(old_book),
            decreases all@.len() - i,
        {
            proof {
                reveal(Seq::filter);
                assert(names.take(i + 1).drop_last() =~= names.take(i as int));
                assert(names.take(i + 1).last() == all@[i as int]@);
            }
            let ghost had = texts(out@);
            if books.is_stale(all[i].as_str(), 30_000_000_000, now) {
                out.push(all[i].clone());
                assert(texts(out@) =~= had.push(all@[i as int]@));
            }
            i = i + 1;
        }
        proof {
            assert(names.take(names.len() as int) =~= names);
            filter_keeps_members(names, old_book);
            assert forall|t: Seq<char>| #[trigger] texts(out@).contains(t) <==> self.told().contains_key(t) && (
            books@.books.contains_key(t) ==> since(now, books@.books[t].last_update) > secs(STALE_SECS as int)) by {
                assert(names.to_set().contains(t) == names.contains(t));
                assert(old_book(t) == (books@.books.contains_key(t) ==> since(now, books@.books[t].last_update)
                    > secs(STALE_SECS as int)));
            }
        }
        out
    }

    /// What is known of `ticker`.
    pub fn state(&self, ticker: &str) -> (r: Option<&TickerState>)
        requires
            self.wf(),
        ensures
            match r {
                Some(s) => self.told().contains_key(ticker@) && s@ == self.told()[ticker@],
                None => !self.told().contains_key(ticker@),
            },
    {
        self.states.get(ticker)
    }
}

proof fn filter_keeps_members(s: Seq<Seq<char>>, p: spec_fn(Seq<char>) -> bool)
    requires
        s.no_duplicates(),
    ensures
        s.filter(p).no_duplicates(),
        forall|t: Seq<char>| #[trigger] s.filter(p).contains(t) <==> s.contains(t) && p(t),
    decreases s.len(),
{
    reveal(Seq::filter);
    if s.len() > 0 {
        let rest = s.drop_last();
        filter_keeps_members(rest, p);
        let f = rest.filter(p);
        assert forall|t: Seq<char>| #[trigger] s.filter(p).contains(t) <==> s.contains(t) && p(t) by {
            if s.filter(p).contains(t) {
                let k = choose|k: int| 0 <= k < s.filter(p).len() && s.filter(p)[k] == t;
                if k < f.len() {
                    assert(f[k] == t);
                    assert(f.contains(t));
                    let m = choose|m: int| 0 <= m < rest.len() && rest[m] == t;
                    assert(s[m] == t);
                } else {
                    assert(s[s.len() - 1] == t);
                }
            }
            if s.contains(t) && p(t) {
                let m = choose|m: int| 0 <= m < s.len() && s[m] == t;
                if m < rest.len() {
                    assert(rest[m] == t);
                    assert(f.contains(t));
                    let k = choose|k: int| 0 <= k < f.len() && f[k] == t;
                    assert(s.filter(p)[k] == t);
                } else {
                    assert(s.filter(p)[f.len() as int] == t);
                }
            }
        }
        if p(s.last()) {
            assert(!f.contains(s.last())) by {
                if f.contains(s.last()) {
                    assert(rest.contains(s.last()));
                    let m = choose|m: int| 0 <= m < rest.len() && rest[m] == s.last();
                    assert(s[m] == s[s.len() - 1]);
                }
            }
        }
    }
}

/// Volume surges: there is a usual rate, and more than three times that was traded.
pub open spec fn surges(minute: Float, usual: Float, thrice: Float) -> bool {
    (Float { bits: 0 }).lt(usual) && thrice.lt(minute)
}

/// Whether volume surges: more than three times the usual rate within the last minute. `usual`
/// is the rate, `thrice` three times that, `minute` what was traded.
pub fn volume_surge(minute: Float, usual: Float, thrice: Float) -> (r: bool)
    ensures
        r == surges(minute, usual, thrice),
{
    usual.positive() && thrice.less(minute)
}

/// The prices that a trend is drawn through, with their moments counted from the first; `None`
/// where there are fewer than two.
pub open spec fn momentum_line(s: Seq<(u64, i64)>) -> Option<Seq<(u64, i64)>> {
    if s.len() < 2 {
        None
    } else {
        Some(s.map_values(|p: (u64, i64)| (since(p.0, s[0].0) as u64, p.1)))
    }
}

/// The prices that a trend is drawn through.
pub fn momentum_points(history: &VecDeque<(u64, i64)>) -> (r: Option<Vec<(u64, i64)>>)
    ensures
        match r {
            Some(v) => momentum_line(history@) == Some(v@),
            None => momentum_line(history@) is None,
        },
{
    if history.len() < 2 {
        return None;
    }
    let anchor: u64 = history[0].0;
    let mut out: Vec<(u64, i64)> = Vec::new();
    let mut i: usize = 0;
    while i < history.len()
        invariant
            i <= history@.len(),
            out@.len() == i,
            forall|k: int| 0 <= k < i ==> #[trigger] out@[k] == (since(history@[k].0, anchor) as u64, history@[k].1),
        decreases history@.len() - i,
    {
        out.push((elapsed(history[i].0, anchor), history[i].1));
        i = i + 1;
    }
    proof {
        let s = history@;
        assert(out@ =~= s.map_values(|p: (u64, i64)| (since(p.0, s[0].0) as u64, p.1)));
    }
    Some(out)
}

/// A summary of one market: from the book, from the ticker channel if it has spoken, and from
/// the tape.
pub struct TickerSummary {
    pub mid_price: Option<Price>,
    pub spread: Option<Price>,
    pub best_bid: Option<Price>,
    pub best_ask: Option<Price>,
    pub bid_depth: i64,
    pub ask_depth: i64,
    /// The ticker channel has spoken of the market.
    pub told: bool,
    pub best_bid_size: Option<i64>,
    pub best_ask_size: Option<i64>,
    pub market_status: Option<String>,
    pub volume: Option<i64>,
    pub open_interest: Option<i64>,
    /// Change of the open interest.
    pub oi_delta: Option<i128>,
    pub price_points: Option<Vec<(u64, i64)>>,
    pub volume_surge: bool,
    /// Price in cents and count of the last trade.
    pub last_trade: Option<(i64, i64)>,
}

/// The price and the count of the latest trade in a ticker.
pub open spec fn latest_trade(s: Seq<TradeRecord>, ticker: Seq<char>) -> Option<(i64, i64)>
    decreases s.len(),
{
    if s.len() == 0 {
        None
    } else if s.last().ticker@ == ticker {
        Some((s.last().price_cents, s.last().count))
    } else {
        latest_trade(s.drop_last(), ticker)
    }
}

proof fn latest_trade_is_last(s: Seq<TradeRecord>, ticker: Seq<char>, i: int)
    requires
        -1 <= i < s.len(),
        i >= 0 ==> s[i].ticker@ == ticker,
        forall|j: int| i < j < s.len() ==> (#[trigger] s[j]).ticker@ != ticker,
    ensures
        latest_trade(s, ticker) == (if i >= 0 { Some((s[i].price_cents, s[i].count)) } else { None }),
    decreases s.len(),
{
    if s.len() > 0 && i < s.len() - 1 {
        assert(s[s.len() - 1].ticker@ != ticker);
        latest_trade_is_last(s.drop_last(), ticker, i);
    }
}

/// The change of the open interest, where two values of it are known.
pub open spec fn interest_change(info: TickerInfo) -> Option<int> {
    match (info.open_interest, info.prev_open_interest) {
        (Some(now), Some(before)) => Some(now - before),
        _ => None,
    }
}

/// The summary is that of `ticker`.
pub open spec fn summarizes(
    r: TickerSummary,
    ticker: Seq<char>,
    shelf: Shelf,
    told: Map<Seq<char>, TickerInfo>,
    tape: Seq<TradeRecord>,
    surge: bool,
) -> bool {
    let info = info_of(told, ticker);
    &&& r.best_bid == (match shelf.bid(ticker) {
        Some(l) => Some(cents_price(l.0 as int)),
        None => None,
    })
    &&& r.best_ask == (match shelf.ask(ticker) {
        Some(l) => Some(cents_price(l.0 as int)),
        None => None,
    })
    &&& r.bid_depth == (match shelf.bid(ticker) {
        Some(l) => l.1,
        None => 0,
    })
    &&& r.ask_depth == (match shelf.ask(ticker) {
        Some(l) => l.1,
        None => 0,
    })
    &&& r.mid_price == (match (shelf.bid(ticker), shelf.ask(ticker)) {
        (Some(b), Some(a)) => Some(half_cents_price(b.0 + a.0)),
        _ => None,
    })
    &&& r.spread == (match (shelf.bid(ticker), shelf.ask(ticker)) {
        (Some(b), Some(a)) => Some(cents_price(a.0 - b.0)),
        _ => None,
    })
    &&& r.told == told.contains_key(ticker)
    &&& r.best_bid_size == info.yes_bid_size
    &&& r.best_ask_size == info.yes_ask_size
    &&& text_of(r.market_status) == info.market_status
    &&& r.volume == info.volume
    &&& r.open_interest == info.open_interest
    &&& match r.oi_delta {
        Some(d) => interest_change(info) == Some(d as int),
        None => interest_change(info) is None,
    }
    &&& match r.price_points {
        Some(v) => momentum_line(info.last_price_history) == Some(v@),
        None => momentum_line(info.last_price_history) is None,
    }
    &&& r.volume_surge == surge
    &&& r.last_trade == latest_trade(tape, ticker)
}

/// The summary of `ticker`.
pub fn build_ticker_summary(
    ticker: &str,
    books: &OrderbookManager,
    tape: &TradeTape,
    consumer: &FeedConsumer,
    surge: bool,
) -> (r: TickerSummary)
    requires
        consumer.wf(),
    ensures
        summarizes(r, ticker@, books@, consumer.told(), tape@, surge),
{
    let bid: Option<(Price, i64)> = books.best_bid(ticker);
    let ask: Option<(Price, i64)> = books.best_ask(ticker);
    let last_trade: Option<(i64, i64)> = match tape.last_trade(ticker) {
        Some(t) => {
            proof {
                let i = choose|i: int|
                    0 <= i < tape@.len() && *t == #[trigger] tape@[i] && t.ticker@ == ticker@ && forall|j: int|
                        i < j < tape@.len() ==> (#[trigger] tape@[j]).ticker@ != ticker@;
                latest_trade_is_last(tape@, ticker@, i);
            }
            Some((t.price_cents, t.count))
        },
        None => {
            proof {
                latest_trade_is_last(tape@, ticker@, -1);
            }
            None
        },
    };
    let mut out: TickerSummary = TickerSummary {
        mid_price: books.mid_price(ticker),
        spread: books.spread(ticker),
        best_bid: match bid {
            Some(b) => Some(b.0),
            None => None,
        },
        best_ask: match ask {
            Some(a) => Some(a.0),
            None => None,
        },
        bid_depth: match bid {
            Some(b) => b.1,
            None => 0,
        },
        ask_depth: match ask {
            Some(a) => a.1,
            None => 0,
        },
        told: false,
        best_bid_size: None,
        best_ask_size: None,
        market_status: None,
        volume: None,
        open_interest: None,
        oi_delta: None,
        price_points: None,
        volume_surge: surge,
        last_trade,
    };
    if let Some(s) = consumer.state(ticker) {
        out.told = true;
        out.best_bid_size = s.yes_bid_size;
        out.best_ask_size = s.yes_ask_size;
        out.market_status = match &s.market_status {
            Some(t) => Some(t.clone()),
            None => None,
        };
        out.volume = s.volume;
        out.open_interest = s.open_interest;
        out.oi_delta = match (s.open_interest, s.prev_open_interest) {
            (Some(now), Some(before)) => Some(now as i128 - before as i128),
            _ => None,
        };
        out.price_points = momentum_points(&s.last_price_history);
    }
    out
}

/// What an update does not tell stays as it was told before, and what it tells is taken over.
pub proof fn partial_updates_keep_the_rest(
    info: TickerInfo,
    yes_bid_size: Option<i64>,
    yes_ask_size: Option<i64>,
    volume: Option<i64>,
    open_interest: Option<i64>,
    last_price: Option<i64>,
    market_status: Option<Seq<char>>,
    now: u64,
)
    ensures
        ({
            let next = info.updated(
                yes_bid_size,
                yes_ask_size,
                volume,
                open_interest,
                last_price,
                market_status,
                now,
            );
            &&& next.yes_bid_size == (if yes_bid_size is None { info.yes_bid_size } else { yes_bid_size })
            &&& next.yes_ask_size == (if yes_ask_size is None { info.yes_ask_size } else { yes_ask_size })
            &&& next.volume == (if volume is None { info.volume } else { volume })
            &&& next.open_interest == (if open_interest is None { info.open_interest } else { open_interest })
            &&& open_interest is None ==> next.prev_open_interest == info.prev_open_interest
            &&& last_price is None ==> next.last_price_history == info.last_price_history
            &&& last_price matches Some(p) ==> next.last_price_history.last() == (now, p)
            &&& next.market_status == (if market_status is None { info.market_status } else { market_status })
        }),
{
    if let Some(p) = last_price {
        newest_price_is_remembered(info.last_price_history.push((now, p)), now);
    }
}

proof fn newest_price_is_remembered(s: Seq<(u64, i64)>, now: u64)
    requires
        s.len() > 0,
        s.last().0 == now,
    ensures
        remembered(s, now).len() > 0,
        remembered(s, now).last() == s.last(),
    decreases s.len(),
{
    if s[0].0 + secs(PRICE_MEMORY_SECS as int) < now {
        newest_price_is_remembered(s.drop_first(), now);
    }
}

/// Two open interests in a row are the current one and the previous one.
pub proof fn open_interest_moves_on(info: TickerInfo, a: i64, b: i64, now: u64, later: u64)
    ensures
        ({
            let once = info.updated(None, None, None, Some(a), None, None, now);
            let twice = once.updated(None, None, None, Some(b), None, None, later);
            twice.prev_open_interest == Some(a) && interest_change(twice) == Some(b - a)
        }),
{
}

/// A yes at a price and a no at its complement to a hundred are bids and asks at that price.
pub proof fn sides_complement(price: i64)
    requires
        i64::MIN <= 100 - price <= i64::MAX,
    ensures
        level_of("yes"@, price) == (Side::Bid, price as int),
        level_of("no"@, (100 - price) as i64) == (Side::Ask, price as int),
{
    reveal_strlit("yes");
    reveal_strlit("no");
    assert("yes"@.len() != "no"@.len());
}

/// A market that closes or settles has no book any more.
pub proof fn closed_markets_have_no_book(shelf: Shelf, news: FeedNews, now: u64)
    requires
        news matches FeedNews::Ticker { market_status, .. } && (market_status == Some("closed"@) || market_status
            == Some("settled"@)),
    ensures
        subject(news) matches Some(t) && !shelf_after(shelf, news, now).books.contains_key(t),
{
}

/// What is forgotten is older than a minute, and what then stands first is not; the rest keeps its
/// order.
pub proof fn prices_are_remembered_for_a_minute(s: Seq<(u64, i64)>, now: u64) -> (k: int)
    ensures
        0 <= k <= s.len(),
        remembered(s, now) == s.skip(k),
        forall|i: int| 0 <= i < k ==> now - (#[trigger] s[i]).0 > 60_000_000_000,
        k < s.len() ==> now - s[k].0 <= 60_000_000_000,
    decreases s.len(),
{
    if s.len() > 0 && now - s[0].0 > 60_000_000_000 {
        let t = s.drop_first();
        let k = prices_are_remembered_for_a_minute(t, now);
        assert(t.skip(k) =~= s.skip(k + 1));
        assert forall|i: int| 0 <= i < k + 1 implies now - (#[trigger] s[i]).0 > 60_000_000_000 by {
            if i > 0 {
                assert(t[i - 1] == s[i]);
            }
        }
        k + 1
    } else {
        assert(s.skip(0) =~= s);
        0
    }
}

/// News on a book change that book: a snapshot all of it, a change of yes the bid at its price, a
/// change of anything else the ask at what its price leaves to a hundred. News on a trade, and on
/// the connection, change no book.
pub proof fn news_change_their_book(
    s: Shelf,
    ticker: Seq<char>,
    bids: Seq<(i64, i64)>,
    asks: Seq<(i64, i64)>,
    side: Seq<char>,
    price: i64,
    delta: i64,
    now: u64,
)
    requires
        -1_000_000 <= price <= 1_000_000,
    ensures
        shelf_after(s, FeedNews::Snapshot { ticker, yes_bids: bids, yes_asks: asks }, now) == s.with_snapshot(
            ticker,
            bids,
            asks,
            now,
        ),
        side == "yes"@ ==> shelf_after(s, FeedNews::Delta { ticker, side, price_cents: price, delta }, now)
            == s.with_delta(ticker, Side::Bid, price, delta, now),
        side != "yes"@ ==> shelf_after(s, FeedNews::Delta { ticker, side, price_cents: price, delta }, now)
            == s.with_delta(ticker, Side::Ask, (100 - price) as i64, delta, now),
        shelf_after(s, FeedNews::Trade { ticker, price_cents: price, count: delta, taker_side: side }, now) == s,
        shelf_after(s, FeedNews::Disconnected, now) == s && shelf_after(s, FeedNews::Reconnected, now) == s,
{
}

/// The ticker channel tells the best prices where it states one, and takes the book away where the
/// market is closed or settled; in any other case the book stays.
pub proof fn ticker_news_tell_the_top(s: Shelf, news: FeedNews, now: u64)
    requires
        news is Ticker,
    ensures
        news matches FeedNews::Ticker { ticker, yes_bid, yes_ask, market_status, .. } && {
            let told = shelf_after(s, news, now);
            let closes = market_status == Some("closed"@) || market_status == Some("settled"@);
            &&& yes_bid is Some || yes_ask is Some ==> told.tops == s.with_top(ticker, yes_bid, yes_ask, now).tops
            &&& yes_bid is None && yes_ask is None ==> told.tops == s.tops
            &&& closes ==> told.books == s.books.remove(ticker)
            &&& !closes ==> told.books == s.books
        },
{
}

/// Each message outdates the summary of the ticker that it is on; news on a book, and no other,
/// make the exchange's feed fresh; only the ticker channel changes what it has told, and only of its
/// own ticker.
pub proof fn messages_count_for_their_ticker(
    stale: Set<Seq<char>>,
    last: Map<Seq<char>, u64>,
    told: Map<Seq<char>, TickerInfo>,
    news: FeedNews,
    other: Seq<char>,
    now: u64,
)
    requires
        subject(news) != Some(other),
    ensures
        subject(news) matches Some(t) ==> outdated_by(stale, news) == stale.insert(t),
        subject(news) is None ==> outdated_by(stale, news) == stale,
        subject(news) is None <==> news is Disconnected || news is Reconnected,
        news is Snapshot || news is Delta ==> refreshed_by(last, news, now).contains_key("kalshi_ws"@) && refreshed_by(
            last,
            news,
            now,
        )["kalshi_ws"@] == now,
        news is Trade || news is Ticker || news is Disconnected || news is Reconnected ==> refreshed_by(last, news, now)
            == last,
        other != "kalshi_ws"@ && last.contains_key(other) ==> refreshed_by(last, news, now)[other] == last[other],
        !(news is Ticker) ==> infos_after(told, news, now) == told,
        infos_after(told, news, now).contains_key(other) == told.contains_key(other),
        told.contains_key(other) ==> infos_after(told, news, now)[other] == told[other],
        news is Ticker ==> infos_after(told, news, now).contains_key(subject(news)->0),
        news matches FeedNews::Snapshot { ticker, .. } ==> subject(news) == Some(ticker),
        news matches FeedNews::Delta { ticker, .. } ==> subject(news) == Some(ticker),
        news matches FeedNews::Trade { ticker, .. } ==> subject(news) == Some(ticker),
        news matches FeedNews::Ticker { ticker, .. } ==> subject(news) == Some(ticker),
{
}

/// A record of a trade says what the message said, at the moment that it came.
pub proof fn trade_records_say_what_was_told(t: TradeRecord, news: FeedNews, now: u64)
    requires
        records(t, news, now),
    ensures
        news matches FeedNews::Trade { ticker, price_cents, count, taker_side } && t.ticker@ == ticker && t.price_cents
            == price_cents && t.count == count && t.taker_side@ == taker_side,
        t.timestamp == now,
{
}

/// Volume surges exactly if there is a usual rate above zero and more than three times that was
/// traded.
pub proof fn surges_exceed_the_usual(minute: Float, usual: Float, thrice: Float)
    requires
        !minute.not_a_number() && !usual.not_a_number() && !thrice.not_a_number(),
    ensures
        surges(minute, usual, thrice) <==> usual.rank() > 0 && minute.rank() > thrice.rank(),
{
}

/// A trend is drawn through all remembered prices, once there are two, each at its distance from
/// the first.
pub proof fn trends_start_at_the_first_price(s: Seq<(u64, i64)>, i: int)
    requires
        0 <= i < s.len(),
    ensures
        s.len() < 2 <==> momentum_line(s) is None,
        momentum_line(s) matches Some(line) ==> line.len() == s.len() && line[i].1 == s[i].1 && (s[0].0 <= s[i].0
            ==> line[i].0 == s[i].0 - s[0].0),
{
}

/// The latest trade in a ticker is the last one written in it.
pub proof fn the_last_trade_is_the_latest(s: Seq<TradeRecord>, t: TradeRecord, ticker: Seq<char>)
    ensures
        latest_trade(Seq::empty(), ticker) is None,
        t.ticker@ == ticker ==> latest_trade(s.push(t), ticker) == Some((t.price_cents, t.count)),
        t.ticker@ != ticker ==> latest_trade(s.push(t), ticker) == latest_trade(s, ticker),
{
    assert(s.push(t).drop_last() =~= s);
}

/// A summary agrees with the book, with what the ticker channel told, and with the tape.
pub proof fn summaries_agree_with_their_sources(
    r: TickerSummary,
    ticker: Seq<char>,
    shelf: Shelf,
    told: Map<Seq<char>, TickerInfo>,
    tape: Seq<TradeRecord>,
    surge: bool,
)
    requires
        summarizes(r, ticker, shelf, told, tape, surge),
    ensures
        r.mid_price == shelf.mid(ticker) && r.spread == shelf.gap(ticker),
        r.best_bid is Some <==> shelf.bid(ticker) is Some,
        r.best_ask is Some <==> shelf.ask(ticker) is Some,
        shelf.bid(ticker) matches Some(l) ==> r.best_bid == Some(cents_price(l.0 as int)) && r.bid_depth == l.1,
        shelf.ask(ticker) matches Some(l) ==> r.best_ask == Some(cents_price(l.0 as int)) && r.ask_depth == l.1,
        shelf.bid(ticker) is None ==> r.bid_depth == 0,
        shelf.ask(ticker) is None ==> r.ask_depth == 0,
        r.told <==> told.contains_key(ticker),
        !r.told ==> r.volume is None && r.open_interest is None && r.oi_delta is None && r.price_points is None
            && r.best_bid_size is None && r.best_ask_size is None && r.market_status is None,
        r.told ==> r.volume == told[ticker].volume && r.open_interest == told[ticker].open_interest && r.best_bid_size
            == told[ticker].yes_bid_size && r.best_ask_size == told[ticker].yes_ask_size,
        r.told && told[ticker].open_interest is Some && told[ticker].prev_open_interest is Some ==> (r.oi_delta
            matches Some(d) && d == told[ticker].open_interest->0 - told[ticker].prev_open_interest->0),
        r.volume_surge == surge && r.last_trade == latest_trade(tape, ticker),
{
}

/// A market is left behind exactly if the ticker channel has spoken of it and its book has not been
/// heard of for more than thirty seconds, or is missing.
pub proof fn markets_are_left_behind_after_half_a_minute(told: Map<Seq<char>, TickerInfo>, shelf: Shelf, t: Seq<char>, now: u64)
    ensures
        left_behind(told, shelf, t, now) <==> told.contains_key(t) && (!shelf.books.contains_key(t) || now
            - shelf.books[t].last_update > 30_000_000_000),
{
}

/// Only a change can lead beyond the range of sizes and prices: a message is admitted exactly if it
/// is no change, or the price and the size that it leads to stay within the range.
pub proof fn messages_are_admitted_within_the_range(s: Shelf, news: FeedNews, price: i64, delta: i64, ticker: Seq<char>, now: u64)
    ensures
        !(news is Delta) ==> fits(news, s, now),
        fits(FeedNews::Delta { ticker, side: "yes"@, price_cents: price, delta }, s, now) <==> s.depth(
            ticker,
            Side::Bid,
            price,
        ) + delta <= i64::MAX,
        fits(FeedNews::Delta { ticker, side: "no"@, price_cents: price, delta }, s, now) <==> 100 - price <= i64::MAX
            && s.depth(ticker, Side::Ask, (100 - price) as i64) + delta <= i64::MAX,
{
    reveal_strlit("yes");
    reveal_strlit("no");
    assert("yes"@.len() != "no"@.len());
}

} // verus!
