//! Order books kept in memory, and the prices that can be read off them.
use std::collections::BTreeMap;
use vstd::prelude::*;
use vstd::std_specs::btree::*;
use vstd::std_specs::cmp::OrdSpec;
use vstd::std_specs::iter::IteratorSpec;
use vstd::string::*;

use dashmap::DashMap;

use crate::dash::{book_of, books, no_books, no_tops, put_book, put_top, take_book, top_of, tops};
use crate::kalshi::price::{
    average_of_cents, cents_are_cents, cents_price, cents_to_decimal, decimal_quotient, half_cents_are_half_cents,
    half_cents_price, half_of_cents, shares_exactly, shortest, ten_to, whole_cents, wide_cents_to_decimal, Price,
    MANTISSA_LIMIT,
};
use crate::time::{elapsed, since};

verus! {

/// A side of the book.
#[derive(Clone, Copy, Debug, PartialEq, Eq, Structural)]
pub enum Side {
    Bid,
    Ask,
}

/// Sizes by price in cents.
pub type Levels = Map<i64, i64>;

/// `s` lists the levels from the lowest price to the highest.
pub open spec fn lists(s: Seq<(i64, i64)>, m: Levels) -> bool {
    &&& forall|i: int, j: int| 0 <= i < j < s.len() ==> (#[trigger] s[i]).0 < (#[trigger] s[j]).0
    &&& forall|i: int| 0 <= i < s.len() ==> m.contains_key((#[trigger] s[i]).0) && m[s[i].0] == s[i].1
    &&& forall|p: i64| #[trigger] m.contains_key(p) ==> exists|i: int| 0 <= i < s.len() && (#[trigger] s[i]).0 == p
}

/// The levels from the lowest price to the highest.
pub open spec fn ladder(m: Levels) -> Seq<(i64, i64)> {
    choose|s: Seq<(i64, i64)>| lists(s, m)
}

proof fn one_listing(s: Seq<(i64, i64)>, t: Seq<(i64, i64)>, m: Levels)
    requires
        lists(s, m),
        lists(t, m),
    ensures
        s == t,
    decreases s.len(),
{
    if s.len() == 0 {
        if t.len() > 0 {
            assert(m.contains_key(t[0].0));
        }
        assert(s =~= t);
    } else {
        let a = s.last();
        assert(m.contains_key(s[s.len() - 1].0));
        let j = choose|j: int| 0 <= j < t.len() && (#[trigger] t[j]).0 == a.0;
        let b = t.last();
        assert(m.contains_key(t[t.len() - 1].0));
        let i = choose|i: int| 0 <= i < s.len() && (#[trigger] s[i]).0 == b.0;
        assert(a.0 == b.0) by {
            if i < s.len() - 1 {
                assert(s[i].0 < s[s.len() - 1].0);
            }
            if j < t.len() - 1 {
                assert(t[j].0 < t[t.len() - 1].0);
            }
        }
        let rest = m.remove(a.0);
        listing_without_last(s, m);
        listing_without_last(t, m);
        one_listing(s.drop_last(), t.drop_last(), rest);
        assert(s =~= s.drop_last().push(a));
        assert(t =~= t.drop_last().push(b));
    }
}

proof fn listing_without_last(s: Seq<(i64, i64)>, m: Levels)
    requires
        lists(s, m),
        s.len() > 0,
    ensures
        lists(s.drop_last(), m.remove(s.last().0)),
{
    let r = s.drop_last();
    let rest = m.remove(s.last().0);
    assert forall|i: int| 0 <= i < r.len() implies rest.contains_key((#[trigger] r[i]).0) && rest[r[i].0]
        == r[i].1 by {
        assert(s[i].0 < s[s.len() - 1].0);
    }
    assert forall|p: i64| #[trigger] rest.contains_key(p) implies exists|i: int|
        0 <= i < r.len() && (#[trigger] r[i]).0 == p by {
        assert(m.contains_key(p));
        let i = choose|i: int| 0 <= i < s.len() && (#[trigger] s[i]).0 == p;
        assert(r[i].0 == p);
    }
}

/// The highest price is the last of the ladder, the lowest the first.
pub proof fn ladder_ends(s: Seq<(i64, i64)>, m: Levels)
    requires
        lists(s, m),
    ensures
        ladder(m) == s,
        forall|p: i64| #[trigger] m.contains_key(p) ==> s.len() > 0 && s[0].0 <= p <= s.last().0,
{
    one_listing(s, ladder(m), m);
    assert forall|p: i64| #[trigger] m.contains_key(p) implies s.len() > 0 && s[0].0 <= p <= s.last().0 by {
        let i = choose|i: int| 0 <= i < s.len() && (#[trigger] s[i]).0 == p;
        if i > 0 {
            assert(s[0].0 < s[i].0);
        }
        if i < s.len() - 1 {
            assert(s[i].0 < s[s.len() - 1].0);
        }
    }
}

/// The levels from the lowest price to the highest.
fn listed(m: &BTreeMap<i64, i64>) -> (r: Vec<(i64, i64)>)
    ensures
        lists(r@, m@),
        r@ == ladder(m@),
{
    let iter = m.iter();
    let ghost v = iter.remaining();
    let ghost keys = v.map_values(|kv: (&i64, &i64)| *kv.0);
    proof {
        assert(v == spec_btree_map_iter(m).remaining());
        assert(increasing_seq(keys));
        assert forall|i: int, j: int| 0 <= i < j < v.len() implies *(#[trigger] v[i]).0 < *(#[trigger] v[j]).0 by {
            assert(keys[i].cmp_spec(&keys[j]) is Less);
        }
    }
    let mut out: Vec<(i64, i64)> = Vec::new();
    for kv in it: iter
        invariant
            it.seq() == v,
            out@.len() == it.index(),
            forall|i: int| 0 <= i < out@.len() ==> (#[trigger] out@[i]) == (*v[i].0, *v[i].1),
    {
        out.push((*kv.0, *kv.1));
    }
    proof {
        assert forall|i: int| 0 <= i < out@.len() implies m@.contains_key((#[trigger] out@[i]).0) && m@[out@[i].0]
            == out@[i].1 by {
            assert(m@.contains_key(*v[i].0));
        }
        assert forall|p: i64| #[trigger] m@.contains_key(p) implies exists|i: int|
            0 <= i < out@.len() && (#[trigger] out@[i]).0 == p by {
            assert(v.contains((&p, &m@[p])));
            let i = choose|i: int| 0 <= i < v.len() && v[i] == (&p, &m@[p]);
            assert(out@[i].0 == p);
        }
        assert(lists(out@, m@));
        ladder_ends(out@, m@);
    }
    out
}

/// An order book as mathematics.
pub struct BookView {
    pub ticker: Seq<char>,
    pub bids: Levels,
    pub asks: Levels,
    pub last_update: u64,
}

/// The order book of one market. Prices are in cents.
pub struct Orderbook {
    pub ticker: String,
    pub bids: BTreeMap<i64, i64>,
    pub asks: BTreeMap<i64, i64>,
    pub last_update: u64,
}

impl View for Orderbook {
    type V = BookView;

    open spec fn view(&self) -> BookView {
        BookView {
            ticker: self.ticker@,
            bids: self.bids@,
            asks: self.asks@,
            last_update: self.last_update,
        }
    }
}

/// The levels that a list spells: those of positive size, of two at one price the later.
pub open spec fn kept(list: Seq<(i64, i64)>) -> Levels
    decreases list.len(),
{
    if list.len() == 0 {
        Map::empty()
    } else if list.last().1 > 0 {
        kept(list.drop_last()).insert(list.last().0, list.last().1)
    } else {
        kept(list.drop_last())
    }
}

/// The size at a price, zero where there is no level.
pub open spec fn size_at(m: Levels, price: i64) -> int {
    if m.contains_key(price) { m[price] as int } else { 0 }
}

/// The levels after the size at a price has changed by `delta`; a level that is used up is gone.
pub open spec fn changed(m: Levels, price: i64, delta: int) -> Levels {
    let size = size_at(m, price) + delta;
    if size <= 0 { m.remove(price) } else { m.insert(price, size as i64) }
}

/// Every level has something in it.
pub open spec fn positive(m: Levels) -> bool {
    forall|p: i64| #[trigger] m.contains_key(p) ==> m[p] > 0
}

impl BookView {
    pub open spec fn side(self, side: Side) -> Levels {
        match side {
            Side::Bid => self.bids,
            Side::Ask => self.asks,
        }
    }

    /// There are finitely many levels, and each has something in it.
    pub open spec fn wf(self) -> bool {
        &&& positive(self.bids) && self.bids.dom().finite()
        &&& positive(self.asks) && self.asks.dom().finite()
    }

    /// The book after a snapshot, which replaces all levels.
    pub open spec fn replaced(self, bids: Seq<(i64, i64)>, asks: Seq<(i64, i64)>, now: u64) -> BookView {
        BookView { bids: kept(bids), asks: kept(asks), last_update: now, ..self }
    }

    /// The book after the size at one price has changed.
    pub open spec fn with_change(self, side: Side, price: i64, delta: i64, now: u64) -> BookView {
        match side {
            Side::Bid => BookView { bids: changed(self.bids, price, delta as int), last_update: now, ..self },
            Side::Ask => BookView { asks: changed(self.asks, price, delta as int), last_update: now, ..self },
        }
    }
}

pub open spec fn empty_book(ticker: Seq<char>, now: u64) -> BookView {
    BookView { ticker, bids: Map::empty(), asks: Map::empty(), last_update: now }
}

/// A snapshot leaves no empty level and finitely many, and so does a change.
pub proof fn levels_stay_positive(list: Seq<(i64, i64)>, m: Levels, price: i64, delta: int)
    ensures
        positive(kept(list)),
        kept(list).dom().finite(),
        m.dom().finite() ==> changed(m, price, delta).dom().finite(),
        positive(m) && size_at(m, price) + delta <= i64::MAX ==> positive(changed(m, price, delta)),
    decreases list.len(),
{
    if list.len() > 0 {
        levels_stay_positive(list.drop_last(), m, price, delta);
    }
}

fn kept_levels(list: &Vec<(i64, i64)>) -> (r: BTreeMap<i64, i64>)
    ensures
        r@ == kept(list@),
{
    let mut out: BTreeMap<i64, i64> = BTreeMap::new();
    let mut i: usize = 0;
    assert(list@.take(0) =~= Seq::<(i64, i64)>::empty());
    while i < list.len()
        invariant
            i <= list@.len(),
            out@ == kept(list@.take(i as int)),
        decreases list@.len() - i,
    {
        let level: (i64, i64) = list[i];
        proof {
            assert(list@.take(i + 1).drop_last() =~= list@.take(i as int));
            assert(list@.take(i + 1).last() == level);
        }
        if level.1 > 0 {
            out.insert(level.0, level.1);
        }
        i = i + 1;
    }
    assert(list@.take(list@.len() as int) =~= list@);
    out
}

fn change_level(m: &mut BTreeMap<i64, i64>, price: i64, delta: i64)
    requires
        i64::MIN <= size_at(old(m)@, price) + delta <= i64::MAX,
    ensures
        final(m)@ == changed(old(m)@, price, delta as int),
{
    let before: i64 = match m.get(&price) {
        Some(n) => *n,
        None => 0,
    };
    let size: i64 = before + delta;
    if size <= 0 {
        m.remove(&price);
    } else {
        m.insert(price, size);
    }
}

impl Orderbook {
    pub fn new(ticker: String, now: u64) -> (r: Self)
        ensures
            r@ == empty_book(ticker@, now),
    {
        Orderbook { ticker, bids: BTreeMap::new(), asks: BTreeMap::new(), last_update: now }
    }

    /// Replaces all levels.
    pub fn apply_snapshot(&mut self, bids: Vec<(i64, i64)>, asks: Vec<(i64, i64)>, now: u64)
        ensures
            final(self)@ == old(self)@.replaced(bids@, asks@, now),
    {
        self.bids = kept_levels(&bids);
        self.asks = kept_levels(&asks);
        self.last_update = now;
    }

    /// Changes the size at one price.
    pub fn apply_delta(&mut self, side: Side, price_cents: i64, delta: i64, now: u64)
        requires
            i64::MIN <= size_at(old(self)@.side(side), price_cents) + delta <= i64::MAX,
        ensures
            final(self)@ == old(self)@.with_change(side, price_cents, delta, now),
    {
        match side {
            Side::Bid => change_level(&mut self.bids, price_cents, delta),
            Side::Ask => change_level(&mut self.asks, price_cents, delta),
        }
        self.last_update = now;
    }

    fn levels(&self, side: Side) -> (r: &BTreeMap<i64, i64>)
        ensures
            r@ == self@.side(side),
    {
        match side {
            Side::Bid => &self.bids,
            Side::Ask => &self.asks,
        }
    }

    /// A copy of the book.
    pub fn copy(&self) -> (r: Orderbook)
        ensures
            r@ == self@,
    {
        Orderbook {
            ticker: self.ticker.clone(),
            bids: self.bids.clone(),
            asks: self.asks.clone(),
            last_update: self.last_update,
        }
    }
}

/// The best prices that the ticker channel told.
#[derive(Clone, Copy, Debug, PartialEq, Eq, Structural)]
pub struct TickerTopOfBook {
    pub yes_bid: Option<i64>,
    pub yes_ask: Option<i64>,
    pub last_update: Option<u64>,
}

impl Default for TickerTopOfBook {
    fn default() -> (r: Self)
        ensures
            r == no_top(),
    {
        TickerTopOfBook { yes_bid: None, yes_ask: None, last_update: None }
    }
}

pub open spec fn no_top() -> TickerTopOfBook {
    TickerTopOfBook { yes_bid: None, yes_ask: None, last_update: None }
}

/// Where a middle price comes from.
#[derive(Clone, Copy, Debug, PartialEq, Eq, Structural)]
pub enum MidPriceSource {
    /// Both sides of the book.
    Orderbook,
    /// One side of the book, the other from the ticker channel.
    OrderbookPlusTicker,
    /// One side of the book alone.
    OneSided,
    /// The ticker channel alone.
    TickerOnly,
}

/// What is known about the book of a ticker.
#[derive(Clone, Copy, Debug, PartialEq, Eq, Structural)]
pub struct BookStatus {
    pub has_entry: bool,
    pub has_bids: bool,
    pub has_asks: bool,
    pub has_tob: bool,
}

/// All books, and all tops of books told by the ticker channel.
pub struct Shelf {
    pub books: Map<Seq<char>, BookView>,
    pub tops: Map<Seq<char>, TickerTopOfBook>,
}

/// The middle price in half cents and its source, from the best prices of the book and those of
/// the ticker channel: both sides of the book; else one of them, with the other side from the
/// channel; else that one alone; else what the channel has.
pub open spec fn middle(
    bid: Option<i64>,
    ask: Option<i64>,
    told_bid: Option<i64>,
    told_ask: Option<i64>,
) -> Option<(int, MidPriceSource)> {
    match (bid, ask) {
        (Some(b), Some(a)) => Some((b + a, MidPriceSource::Orderbook)),
        (Some(b), None) => match told_ask {
            Some(a) => Some((b + a, MidPriceSource::OrderbookPlusTicker)),
            None => Some((2 * b, MidPriceSource::OneSided)),
        },
        (None, Some(a)) => match told_bid {
            Some(b) => Some((b + a, MidPriceSource::OrderbookPlusTicker)),
            None => Some((2 * a, MidPriceSource::OneSided)),
        },
        (None, None) => match (told_bid, told_ask) {
            (Some(b), Some(a)) => Some((b + a, MidPriceSource::TickerOnly)),
            (Some(b), None) => Some((2 * b, MidPriceSource::TickerOnly)),
            (None, Some(a)) => Some((2 * a, MidPriceSource::TickerOnly)),
            (None, None) => None,
        },
    }
}

/// What taking `size` from the levels, in their order, costs in cents, and what is left over.
pub open spec fn walk(levels: Seq<(i64, i64)>, size: int) -> (int, int)
    decreases levels.len(),
{
    if levels.len() == 0 {
        (0, size)
    } else {
        let fill = if size < levels[0].1 { size } else { levels[0].1 as int };
        if size - fill <= 0 {
            (levels[0].0 * fill, size - fill)
        } else {
            let (cost, left) = walk(levels.drop_first(), size - fill);
            (levels[0].0 * fill + cost, left)
        }
    }
}

/// The sum of the sizes.
pub open spec fn volume(levels: Seq<(i64, i64)>) -> int
    decreases levels.len(),
{
    if levels.len() == 0 { 0 } else { volume(levels.drop_last()) + levels.last().1 }
}

impl Shelf {
    pub open spec fn wf(self) -> bool {
        forall|t: Seq<char>| #[trigger] self.books.contains_key(t) ==> self.books[t].wf()
    }

    /// The book of a ticker, empty where there is none.
    pub open spec fn book(self, ticker: Seq<char>, now: u64) -> BookView {
        if self.books.contains_key(ticker) { self.books[ticker] } else { empty_book(ticker, now) }
    }

    /// The highest bid, price in cents and size.
    pub open spec fn bid(self, ticker: Seq<char>) -> Option<(i64, i64)> {
        if self.books.contains_key(ticker) && ladder(self.books[ticker].bids).len() > 0 {
            Some(ladder(self.books[ticker].bids).last())
        } else {
            None
        }
    }

    /// The lowest ask, price in cents and size.
    pub open spec fn ask(self, ticker: Seq<char>) -> Option<(i64, i64)> {
        if self.books.contains_key(ticker) && ladder(self.books[ticker].asks).len() > 0 {
            Some(ladder(self.books[ticker].asks)[0])
        } else {
            None
        }
    }

    pub open spec fn told(self, ticker: Seq<char>) -> TickerTopOfBook {
        if self.tops.contains_key(ticker) { self.tops[ticker] } else { no_top() }
    }

    /// The levels that an order walks: a buyer takes asks from the lowest up, a seller bids
    /// from the highest down.
    pub open spec fn path(self, ticker: Seq<char>, side: Side) -> Seq<(i64, i64)> {
        match side {
            Side::Bid => ladder(self.books[ticker].asks),
            Side::Ask => ladder(self.books[ticker].bids).reverse(),
        }
    }

    /// What an order costs in cents; `None` where the book is unknown or too thin.
    pub open spec fn cost(self, ticker: Seq<char>, side: Side, size: i64) -> Option<int> {
        if self.books.contains_key(ticker) && walk(self.path(ticker, side), size as int).1 <= 0 {
            Some(walk(self.path(ticker, side), size as int).0)
        } else {
            None
        }
    }
}

impl Shelf {
    /// The book of a ticker is replaced by a snapshot.
    pub open spec fn with_snapshot(
        self,
        ticker: Seq<char>,
        bids: Seq<(i64, i64)>,
        asks: Seq<(i64, i64)>,
        now: u64,
    ) -> Shelf {
        Shelf { books: self.books.insert(ticker, self.book(ticker, now).replaced(bids, asks, now)), ..self }
    }

    /// The size at one price in the book of a ticker changes.
    pub open spec fn with_delta(self, ticker: Seq<char>, side: Side, price: i64, delta: i64, now: u64) -> Shelf {
        Shelf { books: self.books.insert(ticker, self.book(ticker, now).with_change(side, price, delta, now)), ..self }
    }

    /// The ticker channel has told a bid, an ask or both; what it did not tell stays.
    pub open spec fn with_top(self, ticker: Seq<char>, bid: Option<i64>, ask: Option<i64>, now: u64) -> Shelf {
        Shelf {
            tops: self.tops.insert(
                ticker,
                TickerTopOfBook {
                    yes_bid: if bid is Some { bid } else { self.told(ticker).yes_bid },
                    yes_ask: if ask is Some { ask } else { self.told(ticker).yes_ask },
                    last_update: Some(now),
                },
            ),
            ..self
        }
    }

    /// The book of a ticker is forgotten.
    pub open spec fn without_book(self, ticker: Seq<char>) -> Shelf {
        Shelf { books: self.books.remove(ticker), ..self }
    }

    /// The size at a price, zero where there is no book.
    pub open spec fn depth(self, ticker: Seq<char>, side: Side, price: i64) -> int {
        if self.books.contains_key(ticker) { size_at(self.books[ticker].side(side), price) } else { 0 }
    }

    /// The middle between the best bid and the best ask.
    pub open spec fn mid(self, ticker: Seq<char>) -> Option<Price> {
        match (self.bid(ticker), self.ask(ticker)) {
            (Some(b), Some(a)) => Some(half_cents_price(b.0 + a.0)),
            _ => None,
        }
    }

    /// The best ask less the best bid.
    pub open spec fn gap(self, ticker: Seq<char>) -> Option<Price> {
        match (self.bid(ticker), self.ask(ticker)) {
            (Some(b), Some(a)) => Some(cents_price(a.0 - b.0)),
            _ => None,
        }
    }

    /// What is known about the book of a ticker.
    pub open spec fn status(self, ticker: Seq<char>) -> BookStatus {
        BookStatus {
            has_entry: self.books.contains_key(ticker),
            has_bids: self.books.contains_key(ticker) && !self.books[ticker].bids.is_empty(),
            has_asks: self.books.contains_key(ticker) && !self.books[ticker].asks.is_empty(),
            has_tob: self.told(ticker).yes_bid is Some || self.told(ticker).yes_ask is Some,
        }
    }

    /// The book of a ticker is missing, or older than so many nanoseconds.
    pub open spec fn stale(self, ticker: Seq<char>, max_age: u64, now: u64) -> bool {
        self.books.contains_key(ticker) ==> since(now, self.books[ticker].last_update) > max_age
    }
}

/// A level with its price as a decimal.
pub open spec fn priced_level(level: Option<(i64, i64)>) -> Option<(Price, i64)> {
    match level {
        Some(l) => Some((cents_price(l.0 as int), l.1)),
        None => None,
    }
}

/// The price of a level.
pub open spec fn price_of(level: Option<(i64, i64)>) -> Option<i64> {
    match level {
        Some(l) => Some(l.0),
        None => None,
    }
}

/// Books of all tracked markets.
pub struct OrderbookManager {
    books: DashMap<String, Orderbook>,
    ticker_tob: DashMap<String, TickerTopOfBook>,
}

impl View for OrderbookManager {
    type V = Shelf;

    closed spec fn view(&self) -> Shelf {
        Shelf { books: books(self.books), tops: tops(self.ticker_tob) }
    }
}

fn walk_levels(levels: &Vec<(i64, i64)>, from_top: bool, size: i64) -> (r: (i128, i64))
    requires
        forall|i: int| 0 <= i < levels@.len() ==> (#[trigger] levels@[i]).1 > 0,
    ensures
        (r.0 as int, r.1 as int) == walk(if from_top { levels@.reverse() } else { levels@ }, size as int),
        -0x4000_0000_0000_0000_0000_0000_0000_0000 <= r.0 <= 0x4000_0000_0000_0000_0000_0000_0000_0000,
{
    let ghost path = if from_top { levels@.reverse() } else { levels@ };
    let n: usize = levels.len();
    let mut cost: i128 = 0;
    let mut left: i64 = size;
    let mut i: usize = 0;
    assert(path.skip(0) =~= path);
    while i < n
        invariant_except_break
            i == 0 || left > 0,
            i == 0 ==> left == size,
            walk(path, size as int) == ({
                let (c, l) = walk(path.skip(i as int), left as int);
                (cost + c, l)
            }),
            size > 0 ==> 0 <= left <= size && -0x8000_0000_0000_0000 * (size - left) <= cost
                <= 0x8000_0000_0000_0000 * (size - left),
            size <= 0 ==> i == 0 && cost == 0,
        invariant
            n == levels@.len(),
            i <= n,
            path == (if from_top { levels@.reverse() } else { levels@ }),
            forall|j: int| 0 <= j < levels@.len() ==> (#[trigger] levels@[j]).1 > 0,
        ensures
            (cost as int, left as int) == walk(path, size as int),
            -0x4000_0000_0000_0000_0000_0000_0000_0000 <= cost <= 0x4000_0000_0000_0000_0000_0000_0000_0000,
        decreases n - i,
    {
        let level: (i64, i64) = if from_top { levels[n - 1 - i] } else { levels[i] };
        let fill: i64 = if left < level.1 { left } else { level.1 };
        proof {
            assert(path.skip(i as int)[0] == level);
            assert(path.skip(i as int).drop_first() =~= path.skip(i + 1));
            let p = level.0 as int;
            let f = fill as int;
            assert(-0x8000_0000_0000_0000 * (if f < 0 { -f } else { f }) <= p * f <= 0x8000_0000_0000_0000 * (if f < 0 {
                -f
            } else {
                f
            })) by (nonlinear_arith)
                requires
                    -0x8000_0000_0000_0000 <= p < 0x8000_0000_0000_0000,
            ;
        }
        cost = cost + (level.0 as i128) * (fill as i128);
        left = left - fill;
        if left <= 0 {
            break;
        }
        i = i + 1;
        proof {
            if i == n {
                assert(path.skip(i as int) =~= Seq::<(i64, i64)>::empty());
            }
        }
    }
    (cost, left)
}

fn total_size(levels: &Vec<(i64, i64)>) -> (r: i128)
    ensures
        r == volume(levels@),
{
    let n: usize = levels.len();
    let mut sum: i128 = 0;
    let mut i: usize = 0;
    while i < n
        invariant
            i <= n,
            n == levels@.len(),
            n <= 0xffff_ffff_ffff_ffff,
            sum == volume(levels@.take(i as int)),
            -0x8000_0000_0000_0000 * i <= sum <= 0x7fff_ffff_ffff_ffff * i,
        decreases n - i,
    {
        assert(levels@.take(i + 1).drop_last() =~= levels@.take(i as int));
        assert(-0x8000_0000_0000_0000 * i - 0x8000_0000_0000_0000 >= -0x8000_0000_0000_0000_0000_0000_0000_0000);
        sum = sum + levels[i].1 as i128;
        i = i + 1;
    }
    assert(levels@.take(n as int) =~= levels@);
    sum
}

/// A level of a listed side is a level of that side.
proof fn listed_levels_are_positive(s: Seq<(i64, i64)>, m: Levels)
    requires
        lists(s, m),
        positive(m),
    ensures
        forall|i: int| 0 <= i < s.len() ==> (#[trigger] s[i]).1 > 0,
{
    assert forall|i: int| 0 <= i < s.len() implies (#[trigger] s[i]).1 > 0 by {
        assert(m.contains_key(s[i].0));
    }
}

impl OrderbookManager {
    /// Every book has finitely many levels, and each of them has something in it.
    pub open spec fn wf(&self) -> bool {
        self@.wf()
    }

    pub fn new() -> (r: Self)
        ensures
            r.wf(),
            r@.books == Map::<Seq<char>, BookView>::empty(),
            r@.tops == Map::<Seq<char>, TickerTopOfBook>::empty(),
    {
        let r = OrderbookManager { books: no_books(), ticker_tob: no_tops() };
        assert(r@.books =~= Map::<Seq<char>, BookView>::empty());
        assert(r@.tops =~= Map::<Seq<char>, TickerTopOfBook>::empty());
        r
    }

    fn take_or_new(&mut self, ticker: &str, now: u64) -> (r: Orderbook)
        ensures
            r@ == old(self)@.book(ticker@, now),
            final(self)@ == (Shelf { books: old(self)@.books.remove(ticker@), ..old(self)@ }),
    {
        match take_book(&mut self.books, ticker) {
            Some(b) => b,
            None => Orderbook::new(ticker.to_owned(), now),
        }
    }

    /// Makes sure that there is a book for `ticker`, and hands out a copy of it.
    pub fn get_or_create(&mut self, ticker: &str, now: u64) -> (r: Orderbook)
        requires
            old(self).wf(),
        ensures
            final(self).wf(),
            r@ == old(self)@.book(ticker@, now),
            final(self)@ == (Shelf {
                books: old(self)@.books.insert(ticker@, old(self)@.book(ticker@, now)),
                ..old(self)@
            }),
    {
        let ghost before = self@;
        let book: Orderbook = self.take_or_new(ticker, now);
        let copy: Orderbook = book.copy();
        put_book(&mut self.books, ticker.to_owned(), book);
        assert(self@.books =~= before.books.insert(ticker@, before.book(ticker@, now)));
        copy
    }

    /// Replaces the whole book of `ticker`.
    pub fn apply_snapshot(&mut self, ticker: &str, bids: Vec<(i64, i64)>, asks: Vec<(i64, i64)>, now: u64)
        requires
            old(self).wf(),
        ensures
            final(self).wf(),
            final(self)@ == old(self)@.with_snapshot(ticker@, bids@, asks@, now),
    {
        let ghost before = self@;
        let mut book: Orderbook = self.take_or_new(ticker, now);
        let ghost b = bids@;
        let ghost a = asks@;
        book.apply_snapshot(bids, asks, now);
        put_book(&mut self.books, ticker.to_owned(), book);
        proof {
            assert(self@.books =~= before.books.insert(ticker@, before.book(ticker@, now).replaced(b, a, now)));
            levels_stay_positive(b, Map::empty(), 0, 0);
            levels_stay_positive(a, Map::empty(), 0, 0);
        }
    }

    /// Changes the size at one price in the book of `ticker`.
    pub fn apply_delta(&mut self, ticker: &str, side: Side, price_cents: i64, delta: i64, now: u64)
        requires
            old(self).wf(),
            size_at(old(self)@.book(ticker@, now).side(side), price_cents) + delta <= i64::MAX,
        ensures
            final(self).wf(),
            final(self)@ == old(self)@.with_delta(ticker@, side, price_cents, delta, now),
    {
        let ghost before = self@;
        let ghost start = before.book(ticker@, now);
        let mut book: Orderbook = self.take_or_new(ticker, now);
        book.apply_delta(side, price_cents, delta, now);
        put_book(&mut self.books, ticker.to_owned(), book);
        proof {
            assert(self@.books =~= before.books.insert(
                ticker@,
                start.with_change(side, price_cents, delta, now),
            ));
            levels_stay_positive(Seq::empty(), start.side(side), price_cents, delta as int);
        }
    }

    /// The size at a price in cents.
    pub fn level_size(&self, ticker: &str, side: Side, price_cents: i64) -> (r: i64)
        ensures
            r == self@.depth(ticker@, side, price_cents),
    {
        match book_of(&self.books, ticker) {
            Some(book) => match book.levels(side).get(&price_cents) {
                Some(n) => *n,
                None => 0,
            },
            None => 0,
        }
    }

    fn bid_cents(&self, ticker: &str) -> (r: Option<(i64, i64)>)
        ensures
            r == self@.bid(ticker@),
    {
        match book_of(&self.books, ticker) {
            Some(book) => {
                let levels: Vec<(i64, i64)> = listed(&book.bids);
                if levels.len() > 0 { Some(levels[levels.len() - 1]) } else { None }
            },
            None => None,
        }
    }

    fn ask_cents(&self, ticker: &str) -> (r: Option<(i64, i64)>)
        ensures
            r == self@.ask(ticker@),
    {
        match book_of(&self.books, ticker) {
            Some(book) => {
                let levels: Vec<(i64, i64)> = listed(&book.asks);
                if levels.len() > 0 { Some(levels[0]) } else { None }
            },
            None => None,
        }
    }

    /// The highest bid and its size.
    pub fn best_bid(&self, ticker: &str) -> (r: Option<(Price, i64)>)
        ensures
            r == priced_level(self@.bid(ticker@)),
    {
        match self.bid_cents(ticker) {
            Some(l) => Some((cents_to_decimal(l.0), l.1)),
            None => None,
        }
    }

    /// The lowest ask and its size.
    pub fn best_ask(&self, ticker: &str) -> (r: Option<(Price, i64)>)
        ensures
            r == priced_level(self@.ask(ticker@)),
    {
        match self.ask_cents(ticker) {
            Some(l) => Some((cents_to_decimal(l.0), l.1)),
            None => None,
        }
    }

    /// The middle between the best bid and the best ask.
    pub fn mid_price(&self, ticker: &str) -> (r: Option<Price>)
        ensures
            r == self@.mid(ticker@),
    {
        match (self.bid_cents(ticker), self.ask_cents(ticker)) {
            (Some(b), Some(a)) => Some(half_of_cents(b.0 as i128 + a.0 as i128)),
            _ => None,
        }
    }

    /// The best ask less the best bid.
    pub fn spread(&self, ticker: &str) -> (r: Option<Price>)
        ensures
            r == self@.gap(ticker@),
    {
        match (self.bid_cents(ticker), self.ask_cents(ticker)) {
            (Some(b), Some(a)) => Some(wide_cents_to_decimal(a.0 as i128 - b.0 as i128)),
            _ => None,
        }
    }

    /// The size at a price; zero where the price is not one of whole cents.
    pub fn depth_at_price(&self, ticker: &str, side: Side, price: Price) -> (r: i64)
        requires
            price.wf(),
        ensures
            forall|c: i64| #[trigger] price.is_cents(c as int) ==> r == self@.depth(ticker@, side, c),
            (forall|c: i64| !price.is_cents(c as int)) ==> r == 0,
    {
        match whole_cents(price) {
            Some(cents) => {
                proof {
                    assert forall|c: i64| #[trigger] price.is_cents(c as int) implies c == cents by {
                        let t = crate::kalshi::price::ten_to(price.scale as int);
                        vstd::arithmetic::power::lemma_pow_positive(10, price.scale as nat);
                        let x = c as int;
                        let y = cents as int;
                        assert(x == y) by (nonlinear_arith)
                            requires
                                x * t == y * t,
                                t > 0,
                        ;
                    }
                }
                self.level_size(ticker, side, cents)
            },
            None => 0,
        }
    }

    /// What an order of `size` would cost in cents, walking the book; `None` where the book is
    /// unknown or too thin.
    pub fn fill_cost(&self, ticker: &str, side: Side, size: i64) -> (r: Option<i128>)
        requires
            self.wf(),
        ensures
            match r {
                Some(c) => self@.cost(ticker@, side, size) == Some(c as int),
                None => self@.cost(ticker@, side, size) is None,
            },
    {
        let book: Orderbook = match book_of(&self.books, ticker) {
            Some(b) => b,
            None => {
                return None;
            },
        };
        let levels: Vec<(i64, i64)> = match side {
            Side::Bid => listed(&book.asks),
            Side::Ask => listed(&book.bids),
        };
        proof {
            match side {
                Side::Bid => listed_levels_are_positive(levels@, book@.asks),
                Side::Ask => listed_levels_are_positive(levels@, book@.bids),
            }
        }
        let walked: (i128, i64) = walk_levels(&levels, side == Side::Ask, size);
        if walked.1 > 0 { None } else { Some(walked.0) }
    }

    /// The average price of an order of `size`, walking the book; `None` where the book is
    /// unknown or too thin. Where the size divides a hundred the average is exact.
    pub fn estimated_fill_price(&self, ticker: &str, side: Side, size: i64) -> (r: Option<Price>)
        requires
            self.wf(),
            self@.cost(ticker@, side, size) matches Some(c) ==> size != 0 && -MANTISSA_LIMIT < c < MANTISSA_LIMIT,
        ensures
            r == (match self@.cost(ticker@, side, size) {
                Some(c) => Some(decimal_quotient(c, 2, size as int)),
                None => None,
            }),
            match self@.cost(ticker@, side, size) {
                Some(c) => shares_exactly(c, size as int) ==> r == Some(shortest(c * (100int / size as int), 4)),
                None => true,
            },
    {
        match self.fill_cost(ticker, side, size) {
            Some(c) => Some(average_of_cents(c, size)),
            None => None,
        }
    }

    /// The volumes of bids and of asks; `None` where there is no book or nothing in it. The
    /// share of the former in both is the imbalance.
    pub fn order_imbalance(&self, ticker: &str) -> (r: Option<(i128, i128)>)
        requires
            self.wf(),
        ensures
            match r {
                Some(v) => {
                    &&& self@.books.contains_key(ticker@)
                    &&& v.0 == volume(ladder(self@.books[ticker@].bids))
                    &&& v.1 == volume(ladder(self@.books[ticker@].asks))
                    &&& 0 <= v.0 && 0 <= v.1 && v.0 + v.1 > 0
                },
                None => self@.books.contains_key(ticker@) ==> volume(ladder(self@.books[ticker@].bids)) + volume(
                    ladder(self@.books[ticker@].asks),
                ) == 0,
            },
    {
        let book: Orderbook = match book_of(&self.books, ticker) {
            Some(b) => b,
            None => {
                return None;
            },
        };
        let bids: Vec<(i64, i64)> = listed(&book.bids);
        let asks: Vec<(i64, i64)> = listed(&book.asks);
        proof {
            assert(self@.books.contains_key(ticker@));
            listed_levels_are_positive(bids@, book@.bids);
            listed_levels_are_positive(asks@, book@.asks);
            volumes_are_not_negative(bids@);
            volumes_are_not_negative(asks@);
        }
        let bid: i128 = total_size(&bids);
        let ask: i128 = total_size(&asks);
        if bid == 0 && ask == 0 { None } else { Some((bid, ask)) }
    }

    /// The ticker channel has told a bid, an ask or both; what it did not tell stays.
    pub fn update_ticker_tob(&mut self, ticker: &str, yes_bid: Option<i64>, yes_ask: Option<i64>, now: u64)
        requires
            old(self).wf(),
        ensures
            final(self).wf(),
            final(self)@ == old(self)@.with_top(ticker@, yes_bid, yes_ask, now),
    {
        let mut tob: TickerTopOfBook = match top_of(&self.ticker_tob, ticker) {
            Some(t) => t,
            None => TickerTopOfBook::default(),
        };
        if yes_bid.is_some() {
            tob.yes_bid = yes_bid;
        }
        if yes_ask.is_some() {
            tob.yes_ask = yes_ask;
        }
        tob.last_update = Some(now);
        put_top(&mut self.ticker_tob, ticker.to_owned(), tob);
        assert(self@ == old(self)@.with_top(ticker@, yes_bid, yes_ask, now));
    }

    /// What the ticker channel told of `ticker`.
    pub fn ticker_tob(&self, ticker: &str) -> (r: Option<TickerTopOfBook>)
        ensures
            r == (if self@.tops.contains_key(ticker@) { Some(self@.tops[ticker@]) } else { None }),
    {
        top_of(&self.ticker_tob, ticker)
    }

    /// The middle price from the best source there is.
    pub fn mid_price_with_fallback(&self, ticker: &str) -> (r: Option<(Price, MidPriceSource)>)
        ensures
            r == (match middle(
                price_of(self@.bid(ticker@)),
                price_of(self@.ask(ticker@)),
                self@.told(ticker@).yes_bid,
                self@.told(ticker@).yes_ask,
            ) {
                Some(m) => Some((half_cents_price(m.0), m.1)),
                None => None,
            }),
    {
        let bid: Option<(i64, i64)> = self.bid_cents(ticker);
        let ask: Option<(i64, i64)> = self.ask_cents(ticker);
        if let (Some(b), Some(a)) = (bid, ask) {
            return Some((half_of_cents(b.0 as i128 + a.0 as i128), MidPriceSource::Orderbook));
        }
        let tob: TickerTopOfBook = match top_of(&self.ticker_tob, ticker) {
            Some(t) => t,
            None => TickerTopOfBook::default(),
        };
        if let (Some(b), Some(a)) = (bid, tob.yes_ask) {
            return Some((half_of_cents(b.0 as i128 + a as i128), MidPriceSource::OrderbookPlusTicker));
        }
        if let (Some(a), Some(b)) = (ask, tob.yes_bid) {
            return Some((half_of_cents(b as i128 + a.0 as i128), MidPriceSource::OrderbookPlusTicker));
        }
        if let Some(b) = bid {
            return Some((half_of_cents(2 * (b.0 as i128)), MidPriceSource::OneSided));
        }
        if let Some(a) = ask {
            return Some((half_of_cents(2 * (a.0 as i128)), MidPriceSource::OneSided));
        }
        match (tob.yes_bid, tob.yes_ask) {
            (Some(b), Some(a)) => Some((half_of_cents(b as i128 + a as i128), MidPriceSource::TickerOnly)),
            (Some(b), None) => Some((half_of_cents(2 * (b as i128)), MidPriceSource::TickerOnly)),
            (None, Some(a)) => Some((half_of_cents(2 * (a as i128)), MidPriceSource::TickerOnly)),
            (None, None) => None,
        }
    }

    /// What is known about the book of `ticker`.
    pub fn book_status(&self, ticker: &str) -> (r: BookStatus)
        ensures
            r == self@.status(ticker@),
    {
        let has_tob: bool = match top_of(&self.ticker_tob, ticker) {
            Some(t) => t.yes_bid.is_some() || t.yes_ask.is_some(),
            None => false,
        };
        match book_of(&self.books, ticker) {
            Some(b) => BookStatus {
                has_entry: true,
                has_bids: !b.bids.is_empty(),
                has_asks: !b.asks.is_empty(),
                has_tob,
            },
            None => BookStatus { has_entry: false, has_bids: false, has_asks: false, has_tob },
        }
    }

    /// Whether the book of `ticker` is missing, or older than `max_age` nanoseconds.
    pub fn is_stale(&self, ticker: &str, max_age: u64, now: u64) -> (r: bool)
        ensures
            r == self@.stale(ticker@, max_age, now),
    {
        match book_of(&self.books, ticker) {
            Some(b) => elapsed(now, b.last_update) > max_age,
            None => true,
        }
    }

    /// Forgets the book of `ticker`.
    pub fn remove(&mut self, ticker: &str)
        requires
            old(self).wf(),
        ensures
            final(self).wf(),
            final(self)@ == old(self)@.without_book(ticker@),
    {
        take_book(&mut self.books, ticker);
    }
}

impl Default for OrderbookManager {
    fn default() -> (r: Self)
        ensures
            r.wf(),
            r@.books == Map::<Seq<char>, BookView>::empty(),
            r@.tops == Map::<Seq<char>, TickerTopOfBook>::empty(),
    {
        OrderbookManager::new()
    }
}

proof fn volumes_are_not_negative(s: Seq<(i64, i64)>)
    requires
        forall|i: int| 0 <= i < s.len() ==> (#[trigger] s[i]).1 > 0,
    ensures
        volume(s) >= 0,
    decreases s.len(),
{
    if s.len() > 0 {
        assert forall|i: int| 0 <= i < s.drop_last().len() implies (#[trigger] s.drop_last()[i]).1 > 0 by {
            assert(s[i].1 > 0);
        }
        volumes_are_not_negative(s.drop_last());
    }
}

/// Of finitely many levels one has the highest price.
proof fn some_price_is_highest(m: Levels) -> (top: i64)
    requires
        m.dom().finite(),
        !m.is_empty(),
    ensures
        m.contains_key(top),
        forall|p: i64| #[trigger] m.contains_key(p) ==> p <= top,
    decreases m.dom().len(),
{
    let p = m.dom().choose();
    assert(m.contains_key(p));
    let rest = m.remove(p);
    if rest.dom().is_empty() {
        assert forall|q: i64| #[trigger] m.contains_key(q) implies q <= p by {
            if q != p {
                assert(rest.contains_key(q));
            }
        }
        p
    } else {
        let t = some_price_is_highest(rest);
        let top = if t < p { p } else { t };
        assert forall|q: i64| #[trigger] m.contains_key(q) implies q <= top by {
            if q != p {
                assert(rest.contains_key(q));
            }
        }
        top
    }
}

/// Finitely many levels can be listed, so that their ladder lists them.
pub proof fn ladder_lists(m: Levels)
    requires
        m.dom().finite(),
    ensures
        lists(ladder(m), m),
    decreases m.dom().len(),
{
    if m.is_empty() {
        let s = Seq::<(i64, i64)>::empty();
        assert(lists(s, m));
    } else {
        let top = some_price_is_highest(m);
        let rest = m.remove(top);
        ladder_lists(rest);
        let s = ladder(rest);
        let t = s.push((top, m[top]));
        assert forall|i: int, j: int| 0 <= i < j < t.len() implies (#[trigger] t[i]).0 < (#[trigger] t[j]).0 by {
            if j == s.len() {
                assert(t[i] == s[i]);
                assert(rest.contains_key(s[i].0));
                assert(m.contains_key(s[i].0));
            }
        }
        assert forall|i: int| 0 <= i < t.len() implies m.contains_key((#[trigger] t[i]).0) && m[t[i].0] == t[i].1 by {
            if i < s.len() {
                assert(rest.contains_key(s[i].0));
            }
        }
        assert forall|p: i64| #[trigger] m.contains_key(p) implies exists|i: int|
            0 <= i < t.len() && (#[trigger] t[i]).0 == p by {
            if p == top {
                assert(t[s.len() as int].0 == p);
            } else {
                assert(rest.contains_key(p));
                let i = choose|i: int| 0 <= i < s.len() && (#[trigger] s[i]).0 == p;
                assert(t[i].0 == p);
            }
        }
        assert(lists(t, m));
    }
}

/// The best bid is the highest of all bids, the best ask the lowest of all asks.
pub proof fn best_prices_are_extreme(shelf: Shelf, ticker: Seq<char>, p: i64)
    requires
        shelf.wf(),
        shelf.books.contains_key(ticker),
    ensures
        shelf.books[ticker].bids.contains_key(p) ==> shelf.bid(ticker) is Some && p <= (shelf.bid(ticker)->0).0,
        shelf.books[ticker].asks.contains_key(p) ==> shelf.ask(ticker) is Some && (shelf.ask(ticker)->0).0 <= p,
        shelf.bid(ticker) matches Some(l) ==> shelf.books[ticker].bids.contains_key(l.0)
            && shelf.books[ticker].bids[l.0] == l.1,
        shelf.ask(ticker) matches Some(l) ==> shelf.books[ticker].asks.contains_key(l.0)
            && shelf.books[ticker].asks[l.0] == l.1,
{
    let b = shelf.books[ticker];
    ladder_lists(b.bids);
    ladder_lists(b.asks);
    ladder_ends(ladder(b.bids), b.bids);
    ladder_ends(ladder(b.asks), b.asks);
    let s = ladder(b.bids);
    let t = ladder(b.asks);
    if s.len() > 0 {
        assert(b.bids.contains_key(s[s.len() - 1].0));
    }
    if t.len() > 0 {
        assert(b.asks.contains_key(t[0].0));
    }
}

/// Taking a change back restores the levels, as long as the level was not used up in between.
pub proof fn opposite_changes_cancel(m: Levels, price: i64, delta: int)
    requires
        positive(m),
        0 < size_at(m, price) + delta <= i64::MAX,
    ensures
        changed(changed(m, price, delta), price, -delta) == m,
{
    assert(changed(changed(m, price, delta), price, -delta) =~= m);
}

/// A snapshot forgets everything that the book held before.
pub proof fn snapshots_forget(
    a: BookView,
    b: BookView,
    bids: Seq<(i64, i64)>,
    asks: Seq<(i64, i64)>,
    now: u64,
)
    requires
        a.ticker == b.ticker,
    ensures
        a.replaced(bids, asks, now) == b.replaced(bids, asks, now),
{
}

/// An order that the best level can fill costs that level's price for each contract.
pub proof fn small_orders_pay_the_best_price(levels: Seq<(i64, i64)>, size: int)
    requires
        levels.len() > 0,
        0 < size <= levels[0].1,
    ensures
        walk(levels, size) == (levels[0].0 * size, 0int),
{
}

/// An order is filled exactly when the levels hold at least its size.
pub proof fn orders_fill_up_to_depth(levels: Seq<(i64, i64)>, size: int)
    requires
        forall|i: int| 0 <= i < levels.len() ==> (#[trigger] levels[i]).1 > 0,
        size > 0,
    ensures
        walk(levels, size).1 <= 0 <==> size <= volume(levels),
    decreases levels.len(),
{
    if levels.len() > 0 {
        let rest = levels.drop_first();
        volume_of_tail(levels);
        assert forall|i: int| 0 <= i < rest.len() implies (#[trigger] rest[i]).1 > 0 by {
            assert(levels[i + 1].1 > 0);
        }
        volumes_are_not_negative(rest);
        if size > levels[0].1 {
            orders_fill_up_to_depth(rest, size - levels[0].1);
        }
    }
}

proof fn volume_of_tail(s: Seq<(i64, i64)>)
    requires
        s.len() > 0,
    ensures
        volume(s) == s[0].1 + volume(s.drop_first()),
    decreases s.len(),
{
    if s.len() == 1 {
        assert(s.drop_last() =~= Seq::<(i64, i64)>::empty());
        assert(s.drop_first() =~= Seq::<(i64, i64)>::empty());
    } else {
        volume_of_tail(s.drop_last());
        assert(s.drop_last().drop_first() =~= s.drop_first().drop_last());
    }
}

/// A snapshot keeps the last level told at each price that has something in it, and no other.
pub proof fn snapshots_keep_the_last_level(list: Seq<(i64, i64)>, price: i64, size: i64, other: i64)
    requires
        other != price,
    ensures
        kept(Seq::empty()) == Levels::empty(),
        size > 0 ==> size_at(kept(list.push((price, size))), price) == size,
        size <= 0 ==> kept(list.push((price, size))) == kept(list),
        size_at(kept(list.push((price, size))), other) == size_at(kept(list), other),
        kept(list.push((price, size))).contains_key(other) == kept(list).contains_key(other),
{
    assert(list.push((price, size)).drop_last() =~= list);
}

/// A change moves the size at its price by just that much, but never below zero, and a level
/// without anything in it is gone; the sizes at other prices stay.
pub proof fn changes_move_one_level(m: Levels, price: i64, delta: int, other: i64)
    requires
        other != price,
        size_at(m, price) + delta <= i64::MAX,
    ensures
        size_at(changed(m, price, delta), price) == (if size_at(m, price) + delta > 0 {
            size_at(m, price) + delta
        } else {
            0
        }),
        changed(m, price, delta).contains_key(price) <==> size_at(m, price) + delta > 0,
        changed(m, price, delta).contains_key(other) == m.contains_key(other),
        size_at(changed(m, price, delta), other) == size_at(m, other),
        !m.contains_key(price) ==> size_at(m, price) == 0,
        m.contains_key(price) ==> size_at(m, price) == m[price],
{
}

/// A snapshot or a change touches the book of its ticker alone, on its own side, and makes it new;
/// forgetting a book leaves what the ticker channel told.
pub proof fn updates_touch_one_book(
    s: Shelf,
    ticker: Seq<char>,
    other: Seq<char>,
    bids: Seq<(i64, i64)>,
    asks: Seq<(i64, i64)>,
    price: i64,
    delta: i64,
    p: i64,
    now: u64,
)
    requires
        other != ticker,
    ensures
        ({
            let t = s.with_snapshot(ticker, bids, asks, now);
            &&& t.books.contains_key(ticker) && t.books[ticker].last_update == now
            &&& t.depth(ticker, Side::Bid, p) == size_at(kept(bids), p)
            &&& t.depth(ticker, Side::Ask, p) == size_at(kept(asks), p)
            &&& t.depth(other, Side::Bid, p) == s.depth(other, Side::Bid, p)
            &&& t.depth(other, Side::Ask, p) == s.depth(other, Side::Ask, p)
            &&& t.tops == s.tops
        }),
        ({
            let t = s.with_delta(ticker, Side::Bid, price, delta, now);
            &&& t.books.contains_key(ticker) && t.books[ticker].last_update == now
            &&& t.depth(ticker, Side::Ask, p) == s.depth(ticker, Side::Ask, p)
            &&& p != price ==> t.depth(ticker, Side::Bid, p) == s.depth(ticker, Side::Bid, p)
            &&& 0 < s.depth(ticker, Side::Bid, price) + delta <= i64::MAX ==> t.depth(ticker, Side::Bid, price)
                == s.depth(ticker, Side::Bid, price) + delta
            &&& s.depth(ticker, Side::Bid, price) + delta <= 0 ==> t.depth(ticker, Side::Bid, price) == 0
            &&& t.depth(other, Side::Bid, p) == s.depth(other, Side::Bid, p)
            &&& t.tops == s.tops
        }),
        ({
            let t = s.with_delta(ticker, Side::Ask, price, delta, now);
            &&& t.depth(ticker, Side::Bid, p) == s.depth(ticker, Side::Bid, p)
            &&& p != price ==> t.depth(ticker, Side::Ask, p) == s.depth(ticker, Side::Ask, p)
            &&& 0 < s.depth(ticker, Side::Ask, price) + delta <= i64::MAX ==> t.depth(ticker, Side::Ask, price)
                == s.depth(ticker, Side::Ask, price) + delta
            &&& s.depth(ticker, Side::Ask, price) + delta <= 0 ==> t.depth(ticker, Side::Ask, price) == 0
        }),
        ({
            let t = s.without_book(ticker);
            &&& !t.books.contains_key(ticker) && t.depth(ticker, Side::Bid, p) == 0 && t.tops == s.tops
            &&& t.bid(ticker) is None && t.ask(ticker) is None
            &&& t.depth(other, Side::Ask, p) == s.depth(other, Side::Ask, p)
        }),
{
}

/// What the ticker channel tells stands until it tells something else, each side by itself.
pub proof fn told_sides_stay(s: Shelf, ticker: Seq<char>, other: Seq<char>, bid: Option<i64>, ask: Option<i64>, now: u64)
    requires
        other != ticker,
    ensures
        ({
            let t = s.with_top(ticker, bid, ask, now);
            &&& bid is Some ==> t.told(ticker).yes_bid == bid
            &&& bid is None ==> t.told(ticker).yes_bid == s.told(ticker).yes_bid
            &&& ask is Some ==> t.told(ticker).yes_ask == ask
            &&& ask is None ==> t.told(ticker).yes_ask == s.told(ticker).yes_ask
            &&& t.told(ticker).last_update == Some(now)
            &&& t.told(other) == s.told(other) && t.books == s.books
        }),
        !s.tops.contains_key(ticker) ==> s.told(ticker).yes_bid is None && s.told(ticker).yes_ask is None,
{
}

/// The middle is halfway between the two prices it is taken from, in half cents: the book's own
/// where it has both, one of the book's and the told one for the missing side, else the one side
/// alone, else what was told. It says where it comes from, and is missing only where nothing is
/// known.
pub proof fn middles_lie_halfway(bid: Option<i64>, ask: Option<i64>, told_bid: Option<i64>, told_ask: Option<i64>)
    ensures
        ({
            let m = middle(bid, ask, told_bid, told_ask);
            let b = if bid is Some { bid } else { told_bid };
            let a = if ask is Some { ask } else { told_ask };
            &&& m is None <==> b is None && a is None
            &&& b is Some && a is Some ==> (m->0).0 == b->0 + a->0
            &&& b is Some && a is None ==> (m->0).0 == b->0 + b->0
            &&& b is None && a is Some ==> (m->0).0 == a->0 + a->0
            &&& bid is Some && ask is Some <==> m is Some && (m->0).1 is Orderbook
            &&& m is Some && (m->0).1 is TickerOnly <==> m is Some && bid is None && ask is None
            &&& m is Some && (m->0).1 is OneSided <==> m is Some && (bid is Some || ask is Some) && (b is None || a
                is None)
            &&& m is Some && (m->0).1 is OrderbookPlusTicker <==> b is Some && a is Some && (bid is Some) != (ask
                is Some)
        }),
{
}

/// The middle of a book and its spread need both sides; twice the middle is the sum of the best
/// prices and the spread their difference, in cents.
pub proof fn mids_and_spreads_need_both_sides(s: Shelf, ticker: Seq<char>)
    ensures
        s.mid(ticker) is Some <==> s.bid(ticker) is Some && s.ask(ticker) is Some,
        s.gap(ticker) is Some <==> s.mid(ticker) is Some,
        s.mid(ticker) is Some ==> (s.mid(ticker)->0).mantissa * 200 == ((s.bid(ticker)->0).0 + (s.ask(ticker)->0).0)
            * ten_to((s.mid(ticker)->0).scale as int),
        s.gap(ticker) is Some ==> (s.gap(ticker)->0).is_cents((s.ask(ticker)->0).0 - (s.bid(ticker)->0).0),
        s.bid(ticker) is Some ==> (priced_level(s.bid(ticker)) matches Some(l) && l.0.is_cents(
            (s.bid(ticker)->0).0 as int,
        ) && l.1 == (s.bid(ticker)->0).1),
        priced_level(None) is None,
{
    if s.mid(ticker) is Some {
        half_cents_are_half_cents((s.bid(ticker)->0).0 + (s.ask(ticker)->0).0);
        cents_are_cents((s.ask(ticker)->0).0 - (s.bid(ticker)->0).0);
    }
    if s.bid(ticker) is Some {
        cents_are_cents((s.bid(ticker)->0).0 as int);
    }
}

/// An order takes levels from the first on: what a level cannot fill goes on to the next, and what
/// the last cannot fill is left over.
pub proof fn orders_walk_level_by_level(price: i64, size: i64, rest: Seq<(i64, i64)>, wanted: int)
    requires
        size > 0,
        wanted > 0,
    ensures
        walk(Seq::empty(), wanted) == (0int, wanted),
        wanted <= size ==> walk(seq![(price, size)] + rest, wanted) == (price * wanted, 0int),
        wanted > size ==> walk(seq![(price, size)] + rest, wanted) == (
            price * size + walk(rest, wanted - size).0,
            walk(rest, wanted - size).1,
        ),
{
    assert((seq![(price, size)] + rest).drop_first() =~= rest);
}

/// What an order costs lies between its size times the lowest price and its size times the highest,
/// and what is left over is what the levels lack.
pub proof fn costs_lie_between_the_prices(levels: Seq<(i64, i64)>, wanted: int, low: int, high: int)
    requires
        forall|i: int| 0 <= i < levels.len() ==> (#[trigger] levels[i]).1 > 0 && low <= levels[i].0 <= high,
        wanted > 0,
    ensures
        ({
            let (cost, left) = walk(levels, wanted);
            &&& 0 <= left <= wanted
            &&& low * (wanted - left) <= cost <= high * (wanted - left)
            &&& left == (if wanted > volume(levels) { wanted - volume(levels) } else { 0 })
        }),
    decreases levels.len(),
{
    if levels.len() == 0 {
        assert(low * 0 == 0 && high * 0 == 0);
    } else {
        let rest = levels.drop_first();
        volume_of_tail(levels);
        assert forall|i: int| 0 <= i < rest.len() implies (#[trigger] rest[i]).1 > 0 && low <= rest[i].0 <= high by {
            assert(rest[i] == levels[i + 1]);
        }
        volumes_are_not_negative(rest);
        let p = levels[0].0 as int;
        let s = levels[0].1 as int;
        assert(levels[0].1 > 0);
        if wanted <= s {
            assert(low * wanted <= p * wanted <= high * wanted) by (nonlinear_arith)
                requires
                    low <= p <= high,
                    wanted > 0,
            ;
        } else {
            costs_lie_between_the_prices(rest, wanted - s, low, high);
            let (cost, left) = walk(rest, wanted - s);
            assert(low * (wanted - left) <= p * s + cost <= high * (wanted - left)) by (nonlinear_arith)
                requires
                    low <= p <= high,
                    s > 0,
                    low * (wanted - s - left) <= cost <= high * (wanted - s - left),
            ;
        }
    }
}

/// The volume is the sum of the sizes.
pub proof fn volumes_add_up(levels: Seq<(i64, i64)>, price: i64, size: i64)
    ensures
        volume(Seq::empty()) == 0,
        volume(levels.push((price, size))) == volume(levels) + size,
{
    assert(levels.push((price, size)).drop_last() =~= levels);
}

/// A buyer walks the asks from the lowest price up, a seller the bids from the highest down; every
/// level of the side is on the way, and no other.
pub proof fn orders_walk_the_other_side(s: Shelf, ticker: Seq<char>, i: int, j: int, p: i64)
    requires
        s.wf(),
        s.books.contains_key(ticker),
        0 <= i < j,
    ensures
        ({
            let up = s.path(ticker, Side::Bid);
            let down = s.path(ticker, Side::Ask);
            &&& j < up.len() ==> up[i].0 < up[j].0
            &&& j < down.len() ==> down[i].0 > down[j].0
            &&& i < up.len() ==> s.depth(ticker, Side::Ask, up[i].0) == up[i].1
            &&& i < down.len() ==> s.depth(ticker, Side::Bid, down[i].0) == down[i].1
            &&& s.books[ticker].asks.contains_key(p) ==> exists|k: int| 0 <= k < up.len() && (#[trigger] up[k]).0 == p
            &&& s.books[ticker].bids.contains_key(p) ==> exists|k: int|
                0 <= k < down.len() && (#[trigger] down[k]).0 == p
        }),
{
    let b = s.books[ticker];
    ladder_lists(b.bids);
    ladder_lists(b.asks);
    let l = ladder(b.bids);
    let down = s.path(ticker, Side::Ask);
    if j < down.len() {
        assert(down[i] == l[l.len() - 1 - i] && down[j] == l[l.len() - 1 - j]);
        assert(l[l.len() - 1 - j].0 < l[l.len() - 1 - i].0);
    }
    if i < down.len() {
        assert(down[i] == l[l.len() - 1 - i]);
        assert(b.bids.contains_key(l[l.len() - 1 - i].0));
    }
    let up = s.path(ticker, Side::Bid);
    if i < up.len() {
        assert(b.asks.contains_key(up[i].0));
    }
    if b.bids.contains_key(p) {
        let k = choose|k: int| 0 <= k < l.len() && (#[trigger] l[k]).0 == p;
        assert(down[l.len() - 1 - k].0 == p);
    }
}

/// An order has a cost exactly if the book is known and holds its size on the side that it takes.
pub proof fn costs_need_depth(s: Shelf, ticker: Seq<char>, side: Side, size: i64)
    requires
        s.wf(),
        size > 0,
        s.books.contains_key(ticker),
    ensures
        s.cost(ticker, side, size) is Some <==> size <= volume(s.path(ticker, side)),
        s.without_book(ticker).cost(ticker, side, size) is None,
{
    let b = s.books[ticker];
    ladder_lists(b.bids);
    ladder_lists(b.asks);
    listed_levels_are_positive(ladder(b.bids), b.bids);
    listed_levels_are_positive(ladder(b.asks), b.asks);
    let path = s.path(ticker, side);
    assert forall|i: int| 0 <= i < path.len() implies (#[trigger] path[i]).1 > 0 by {
        let l = ladder(b.bids);
        if side is Ask {
            assert(path[i] == l[l.len() - 1 - i]);
        }
    }
    orders_fill_up_to_depth(path, size as int);
}

/// A book has sides exactly where it has levels, and a book that is missing or too old is stale.
pub proof fn books_tell_their_state(s: Shelf, ticker: Seq<char>, max_age: u64, now: u64)
    ensures
        s.status(ticker).has_entry <==> s.books.contains_key(ticker),
        s.status(ticker).has_bids <==> s.books.contains_key(ticker) && exists|p: i64|
            #[trigger] s.books[ticker].bids.contains_key(p),
        s.status(ticker).has_asks <==> s.books.contains_key(ticker) && exists|p: i64|
            #[trigger] s.books[ticker].asks.contains_key(p),
        s.status(ticker).has_tob <==> s.told(ticker).yes_bid is Some || s.told(ticker).yes_ask is Some,
        !s.books.contains_key(ticker) ==> s.stale(ticker, max_age, now),
        s.books.contains_key(ticker) ==> (s.stale(ticker, max_age, now) <==> now - s.books[ticker].last_update
            > max_age),
{
    if s.books.contains_key(ticker) {
        let b = s.books[ticker];
        if !b.bids.is_empty() {
            let p = b.bids.dom().choose();
            assert(b.bids.contains_key(p));
        }
        if !b.asks.is_empty() {
            let p = b.asks.dom().choose();
            assert(b.asks.contains_key(p));
        }
    }
}

} // verus!
