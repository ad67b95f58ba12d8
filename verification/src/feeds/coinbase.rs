//! Coinbase: quotes, trades and prices of several products.
use std::collections::VecDeque;
use vstd::prelude::*;
use vstd::string::*;

use crate::crypto_asset::CryptoAsset;
use crate::float::Float;
use crate::json::{
    as_list, field, get, json_of, list_in, owned, parse_json, said, text_field, text_in, views, Json, JsonView,
};
use crate::order_manager::order::text_of;
use crate::text::same_text;
use crate::time::secs;

verus! {

/// Seconds over which trades are summed up.
pub const VOLUME_WINDOW_SECS: u64 = 300;

/// The side that a quote is on.
#[derive(Clone, Copy, Debug, PartialEq, Eq, Structural)]
pub enum QuoteSide {
    Bid,
    Offer,
    Other,
}

/// A quote, its price as text.
#[derive(Debug)]
pub struct QuoteText {
    pub side: QuoteSide,
    pub price: Option<String>,
}

/// A trade, its size as text.
#[derive(Debug)]
pub struct TradeText {
    pub asset: CryptoAsset,
    pub size: Option<String>,
}

/// What a message brings.
#[allow(inconsistent_fields)]
#[derive(Debug)]
pub enum CoinbaseMessage {
    /// Quotes of one product, which may be one that is not followed.
    Quotes { asset: Option<CryptoAsset>, quotes: Vec<QuoteText> },
    /// Trades in products that are followed.
    Trades(Vec<TradeText>),
    /// The price of a product that is followed.
    Price { asset: CryptoAsset, price: Option<String> },
    Nothing,
}

/// The same as mathematics.
#[allow(inconsistent_fields)]
pub enum CoinbaseNews {
    Quotes { asset: Option<CryptoAsset>, quotes: Seq<(QuoteSide, Option<Seq<char>>)> },
    Trades(Seq<(CryptoAsset, Option<Seq<char>>)>),
    Price { asset: CryptoAsset, price: Option<Seq<char>> },
    Nothing,
}

pub open spec fn quote_texts(v: Seq<QuoteText>) -> Seq<(QuoteSide, Option<Seq<char>>)> {
    v.map_values(|q: QuoteText| (q.side, text_of(q.price)))
}

pub open spec fn trade_texts(v: Seq<TradeText>) -> Seq<(CryptoAsset, Option<Seq<char>>)> {
    v.map_values(|t: TradeText| (t.asset, text_of(t.size)))
}

impl View for CoinbaseMessage {
    type V = CoinbaseNews;

    open spec fn view(&self) -> CoinbaseNews {
        match *self {
            CoinbaseMessage::Quotes { asset, quotes } => CoinbaseNews::Quotes { asset, quotes: quote_texts(quotes@) },
            CoinbaseMessage::Trades(trades) => CoinbaseNews::Trades(trade_texts(trades@)),
            CoinbaseMessage::Price { asset, price } => CoinbaseNews::Price { asset, price: text_of(price) },
            CoinbaseMessage::Nothing => CoinbaseNews::Nothing,
        }
    }
}

/// The first of the followed assets with this product name.
pub open spec fn product_asset(followed: Seq<CryptoAsset>, product: Option<Seq<char>>) -> Option<CryptoAsset>
    decreases followed.len(),
{
    match product {
        None => None,
        Some(name) => if followed.len() == 0 {
            None
        } else if followed[0].coinbase_product_id_text() == name {
            Some(followed[0])
        } else {
            product_asset(followed.drop_first(), product)
        },
    }
}

pub open spec fn quote_side(side: Option<Seq<char>>) -> QuoteSide {
    if side == Some("bid"@) {
        QuoteSide::Bid
    } else if side == Some("offer"@) {
        QuoteSide::Offer
    } else {
        QuoteSide::Other
    }
}

pub open spec fn quote_in(update: JsonView) -> (QuoteSide, Option<Seq<char>>) {
    (quote_side(text_in(field(update, "side"@))), text_in(field(update, "price_level"@)))
}

/// The items under a key, none where there is no list.
pub open spec fn items(j: JsonView, key: Seq<char>) -> Seq<JsonView> {
    match list_in(field(j, key)) {
        Some(l) => l,
        None => Seq::empty(),
    }
}

/// All items under a key of several values, in their order.
pub open spec fn all_items(list: Seq<JsonView>, key: Seq<char>) -> Seq<JsonView>
    decreases list.len(),
{
    if list.len() == 0 { Seq::empty() } else { all_items(list.drop_last(), key) + items(list.last(), key) }
}

/// The trades in followed products.
pub open spec fn trades_in(list: Seq<JsonView>, followed: Seq<CryptoAsset>) -> Seq<(CryptoAsset, Option<Seq<char>>)>
    decreases list.len(),
{
    if list.len() == 0 {
        Seq::empty()
    } else {
        let rest = trades_in(list.drop_last(), followed);
        match product_asset(followed, text_in(field(list.last(), "product_id"@))) {
            Some(a) => rest.push((a, text_in(field(list.last(), "size"@)))),
            None => rest,
        }
    }
}

/// The first price of a followed product.
pub open spec fn price_in(list: Seq<JsonView>, followed: Seq<CryptoAsset>) -> CoinbaseNews
    decreases list.len(),
{
    if list.len() == 0 {
        CoinbaseNews::Nothing
    } else {
        match product_asset(followed, text_in(field(list[0], "product_id"@))) {
            Some(asset) => CoinbaseNews::Price { asset, price: text_in(field(list[0], "price"@)) },
            None => price_in(list.drop_first(), followed),
        }
    }
}

/// What a message brings. The product of a quote message is that of its first event.
pub open spec fn news_in(j: JsonView, followed: Seq<CryptoAsset>) -> CoinbaseNews {
    match list_in(field(j, "events"@)) {
        None => CoinbaseNews::Nothing,
        Some(events) => {
            let channel = text_in(field(j, "channel"@));
            if channel == Some("l2_data"@) {
                CoinbaseNews::Quotes {
                    asset: if events.len() > 0 {
                        product_asset(followed, text_in(field(events[0], "product_id"@)))
                    } else {
                        None
                    },
                    quotes: all_items(events, "updates"@).map_values(|u: JsonView| quote_in(u)),
                }
            } else if channel == Some("market_trades"@) {
                CoinbaseNews::Trades(trades_in(all_items(events, "trades"@), followed))
            } else if channel == Some("ticker"@) || channel == Some("ticker_batch"@) {
                price_in(all_items(events, "tickers"@), followed)
            } else {
                CoinbaseNews::Nothing
            }
        },
    }
}

fn followed_product(followed: &Vec<CryptoAsset>, product: Option<&str>) -> (r: Option<CryptoAsset>)
    ensures
        r == product_asset(followed@, said(product)),
{
    let name: &str = match product {
        Some(n) => n,
        None => {
            return None;
        },
    };
    let mut i: usize = 0;
    assert(followed@.skip(0) =~= followed@);
    while i < followed.len()
        invariant
            i <= followed@.len(),
            product == Some(name),
            product_asset(followed@, said(product)) == product_asset(followed@.skip(i as int), said(product)),
        decreases followed@.len() - i,
    {
        proof {
            assert(followed@.skip(i as int)[0] == followed@[i as int]);
            assert(followed@.skip(i as int).drop_first() =~= followed@.skip(i + 1));
        }
        if same_text(followed[i].coinbase_product_id(), name) {
            return Some(followed[i]);
        }
        i = i + 1;
    }
    assert(followed@.skip(followed@.len() as int) =~= Seq::<CryptoAsset>::empty());
    None
}

/// References to all items under a key of several values.
fn collect_items<'a>(list: &'a Vec<Json>, key: &str) -> (r: Vec<&'a Json>)
    ensures
        r@.map_values(|j: &Json| j@) == all_items(views(list@), key@),
{
    let mut out: Vec<&'a Json> = Vec::new();
    let mut i: usize = 0;
    assert(views(list@).take(0) =~= Seq::<JsonView>::empty());
    assert(out@.map_values(|j: &Json| j@) =~= Seq::<JsonView>::empty());
    while i < list.len()
        invariant
            i <= list@.len(),
            out@.map_values(|j: &Json| j@) == all_items(views(list@).take(i as int), key@),
        decreases list@.len() - i,
    {
        let ghost before = all_items(views(list@).take(i as int), key@);
        proof {
            assert(views(list@).take(i + 1).drop_last() =~= views(list@).take(i as int));
            assert(views(list@).take(i + 1).last() == list@[i as int]@);
        }
        if let Some(inner) = as_list(get(&list[i], key)) {
            let mut k: usize = 0;
            assert(before + views(inner@).take(0) =~= before);
            while k < inner.len()
                invariant
                    k <= inner@.len(),
                    out@.map_values(|j: &Json| j@) == before + views(inner@).take(k as int),
                decreases inner@.len() - k,
            {
                let ghost had = out@;
                out.push(&inner[k]);
                proof {
                    assert(out@.map_values(|j: &Json| j@) =~= had.map_values(|j: &Json| j@).push(inner@[k as int]@));
                    assert(before + views(inner@).take(k + 1) =~= (before + views(inner@).take(k as int)).push(inner@[k as int]@));
                }
                k = k + 1;
            }
            assert(views(inner@).take(inner@.len() as int) =~= views(inner@));
        } else {
            assert(before + Seq::<JsonView>::empty() =~= before);
        }
        i = i + 1;
    }
    assert(views(list@).take(list@.len() as int) =~= views(list@));
    out
}

fn read_quotes(events: &Vec<Json>) -> (r: Vec<QuoteText>)
    ensures
        quote_texts(r@) == all_items(views(events@), "updates"@).map_values(|u: JsonView| quote_in(u)),
{
    let updates: Vec<&Json> = collect_items(events, "updates");
    let ghost list = all_items(views(events@), "updates"@);
    let mut out: Vec<QuoteText> = Vec::new();
    let mut i: usize = 0;
    while i < updates.len()
        invariant
            i <= updates@.len(),
            list == updates@.map_values(|j: &Json| j@),
            out@.len() == i,
            forall|k: int| 0 <= k < i ==> ((#[trigger] out@[k]).side, text_of(out@[k].price)) == quote_in(list[k]),
        decreases updates@.len() - i,
    {
        let update: &Json = updates[i];
        assert(list[i as int] == update@);
        let side: QuoteSide = match text_field(update, "side") {
            Some(s) => if same_text(s, "bid") {
                QuoteSide::Bid
            } else if same_text(s, "offer") {
                QuoteSide::Offer
            } else {
                QuoteSide::Other
            },
            None => QuoteSide::Other,
        };
        let price: Option<String> = owned(text_field(update, "price_level"));
        out.push(QuoteText { side, price });
        i = i + 1;
    }
    assert(quote_texts(out@) =~= list.map_values(|u: JsonView| quote_in(u)));
    out
}

fn read_trades(events: &Vec<Json>, followed: &Vec<CryptoAsset>) -> (r: Vec<TradeText>)
    ensures
        trade_texts(r@) == trades_in(all_items(views(events@), "trades"@), followed@),
{
    let trades: Vec<&Json> = collect_items(events, "trades");
    let ghost list = all_items(views(events@), "trades"@);
    let mut out: Vec<TradeText> = Vec::new();
    let mut i: usize = 0;
    assert(list.take(0) =~= Seq::<JsonView>::empty());
    assert(trade_texts(out@) =~= Seq::<(CryptoAsset, Option<Seq<char>>)>::empty());
    while i < trades.len()
        invariant
            i <= trades@.len(),
            list == trades@.map_values(|j: &Json| j@),
            trade_texts(out@) == trades_in(list.take(i as int), followed@),
        decreases trades@.len() - i,
    {
        let trade: &Json = trades[i];
        proof {
            assert(list[i as int] == trade@);
            assert(list.take(i + 1).drop_last() =~= list.take(i as int));
            assert(list.take(i + 1).last() == trade@);
        }
        let ghost had = out@;
        if let Some(asset) = followed_product(followed, text_field(trade, "product_id")) {
            let size: Option<String> = owned(text_field(trade, "size"));
            out.push(TradeText { asset, size });
            assert(trade_texts(out@) =~= trade_texts(had).push((asset, text_of(size))));
        }
        i = i + 1;
    }
    assert(list.take(list.len() as int) =~= list);
    out
}

fn read_price(events: &Vec<Json>, followed: &Vec<CryptoAsset>) -> (r: CoinbaseMessage)
    ensures
        r@ == price_in(all_items(views(events@), "tickers"@), followed@),
{
    let tickers: Vec<&Json> = collect_items(events, "tickers");
    let ghost list = all_items(views(events@), "tickers"@);
    let mut i: usize = 0;
    assert(list.skip(0) =~= list);
    while i < tickers.len()
        invariant
            i <= tickers@.len(),
            list == all_items(views(events@), "tickers"@),
            list == tickers@.map_values(|j: &Json| j@),
            price_in(list, followed@) == price_in(list.skip(i as int), followed@),
        decreases tickers@.len() - i,
    {
        let ticker: &Json = tickers[i];
        proof {
            assert(list.skip(i as int)[0] == ticker@);
            assert(list.skip(i as int).drop_first() =~= list.skip(i + 1));
        }
        if let Some(asset) = followed_product(followed, text_field(ticker, "product_id")) {
            let price: Option<String> = owned(text_field(ticker, "price"));
            return CoinbaseMessage::Price { asset, price };
        }
        i = i + 1;
    }
    assert(list.skip(list.len() as int) =~= Seq::<JsonView>::empty());
    CoinbaseMessage::Nothing
}

/// What a message brings to those who follow some assets.
pub fn read_coinbase(j: &Json, followed: &Vec<CryptoAsset>) -> (r: CoinbaseMessage)
    ensures
        r@ == news_in(j@, followed@),
{
    let events: &Vec<Json> = match as_list(get(j, "events")) {
        Some(l) => l,
        None => {
            return CoinbaseMessage::Nothing;
        },
    };
    let channel: &str = match text_field(j, "channel") {
        Some(c) => c,
        None => {
            return CoinbaseMessage::Nothing;
        },
    };
    if same_text(channel, "l2_data") {
        let asset: Option<CryptoAsset> = if events.len() > 0 {
            followed_product(followed, text_field(&events[0], "product_id"))
        } else {
            None
        };
        CoinbaseMessage::Quotes { asset, quotes: read_quotes(events) }
    } else if same_text(channel, "market_trades") {
        CoinbaseMessage::Trades(read_trades(events, followed))
    } else if same_text(channel, "ticker") || same_text(channel, "ticker_batch") {
        read_price(events, followed)
    } else {
        CoinbaseMessage::Nothing
    }
}

/// What a text from the socket brings; nothing where it is not JSON.
pub fn parse_coinbase_message_multi(text: &str, followed: &Vec<CryptoAsset>) -> (r: CoinbaseMessage)
    ensures
        r@ == (match json_of(text@) {
            Some(j) => news_in(j, followed@),
            None => CoinbaseNews::Nothing,
        }),
{
    match parse_json(text) {
        Some(j) => read_coinbase(&j, followed),
        None => CoinbaseMessage::Nothing,
    }
}

/// The asset that a message counts as an update of.
pub open spec fn updated_asset(news: CoinbaseNews) -> Option<CryptoAsset> {
    match news {
        CoinbaseNews::Quotes { asset, .. } => asset,
        CoinbaseNews::Trades(trades) => if trades.len() > 0 { Some(trades.last().0) } else { None },
        CoinbaseNews::Price { asset, .. } => Some(asset),
        CoinbaseNews::Nothing => None,
    }
}

impl CoinbaseMessage {
    /// The asset that the message counts as an update of.
    pub fn updated(&self) -> (r: Option<CryptoAsset>)
        ensures
            r == updated_asset(self@),
    {
        match self {
            CoinbaseMessage::Quotes { asset, quotes: _ } => *asset,
            CoinbaseMessage::Trades(trades) => if trades.len() > 0 {
                assert(trade_texts(trades@).last() == (trades@.last().asset, text_of(trades@.last().size)));
                Some(trades[trades.len() - 1].asset)
            } else {
                None
            },
            CoinbaseMessage::Price { asset, price: _ } => Some(*asset),
            CoinbaseMessage::Nothing => None,
        }
    }
}

/// What is known of one asset.
pub struct CoinbaseAssetState {
    pub spot: Float,
    pub best_bid: Float,
    pub best_ask: Float,
    pub trade_volumes: VecDeque<(u64, Float)>,
    pub trade_volume_5m: Float,
}

/// Equal to zero.
pub open spec fn is_zero(x: Float) -> bool {
    x.rank() == 0
}

/// Best bid and best offer after a quote: a higher bid or a lower offer than before, or the
/// first offer; only positive prices count.
pub open spec fn quoted(best: (Float, Float), quote: (QuoteSide, Float)) -> (Float, Float) {
    let (side, price) = quote;
    if !(Float { bits: 0 }).lt(price) {
        best
    } else {
        match side {
            QuoteSide::Bid => if best.0.lt(price) { (price, best.1) } else { best },
            QuoteSide::Offer => if is_zero(best.1) || price.lt(best.1) { (best.0, price) } else { best },
            QuoteSide::Other => best,
        }
    }
}

/// Best bid and best offer after several quotes.
pub open spec fn quoted_all(best: (Float, Float), quotes: Seq<(QuoteSide, Float)>) -> (Float, Float)
    decreases quotes.len(),
{
    if quotes.len() == 0 { best } else { quoted(quoted_all(best, quotes.drop_last()), quotes.last()) }
}

/// Both best prices are known, so that their middle is the price.
pub open spec fn both_known(best: (Float, Float)) -> bool {
    (Float { bits: 0 }).lt(best.0) && (Float { bits: 0 }).lt(best.1)
}

/// The sizes without those at the front that are too old.
pub open spec fn recent_sizes(s: Seq<(u64, Float)>, now: u64) -> Seq<(u64, Float)>
    decreases s.len(),
{
    if s.len() > 0 && s[0].0 + secs(VOLUME_WINDOW_SECS as int) < now { recent_sizes(s.drop_first(), now) } else { s }
}

/// The price after another is told or computed; only a positive one counts.
pub open spec fn priced(spot: Float, price: Float) -> Float {
    if (Float { bits: 0 }).lt(price) { price } else { spot }
}

/// The sizes after a trade; only a positive one counts.
pub open spec fn with_trade(s: Seq<(u64, Float)>, size: Float, now: u64) -> Seq<(u64, Float)> {
    if (Float { bits: 0 }).lt(size) { s.push((now, size)) } else { s }
}

impl Default for CoinbaseAssetState {
    fn default() -> (r: Self)
        ensures
            r.spot.bits == 0,
            r.best_bid.bits == 0,
            r.best_ask.bits == 0,
            r.trade_volumes@ == Seq::<(u64, Float)>::empty(),
            r.trade_volume_5m.bits == 0,
    {
        CoinbaseAssetState {
            spot: Float::from_bits(0),
            best_bid: Float::from_bits(0),
            best_ask: Float::from_bits(0),
            trade_volumes: VecDeque::new(),
            trade_volume_5m: Float::from_bits(0),
        }
    }
}

impl CoinbaseAssetState {
    /// Takes quotes in, and says whether both best prices are known, so that their middle is
    /// the price.
    pub fn apply_quotes(&mut self, quotes: &Vec<(QuoteSide, Float)>) -> (r: bool)
        ensures
            (final(self).best_bid, final(self).best_ask) == quoted_all(
                (old(self).best_bid, old(self).best_ask),
                quotes@,
            ),
            *final(self) == (CoinbaseAssetState {
                best_bid: final(self).best_bid,
                best_ask: final(self).best_ask,
                ..*old(self)
            }),
            r == both_known((final(self).best_bid, final(self).best_ask)),
    {
        let ghost start = (self.best_bid, self.best_ask);
        let ghost before = *self;
        let mut i: usize = 0;
        assert(quotes@.take(0) =~= Seq::<(QuoteSide, Float)>::empty());
        while i < quotes.len()
            invariant
                i <= quotes@.len(),
                (self.best_bid, self.best_ask) == quoted_all(start, quotes@.take(i as int)),
                *self == (CoinbaseAssetState { best_bid: self.best_bid, best_ask: self.best_ask, ..before }),
            decreases quotes@.len() - i,
        {
            let quote: (QuoteSide, Float) = quotes[i];
            proof {
                assert(quotes@.take(i + 1).drop_last() =~= quotes@.take(i as int));
                assert(quotes@.take(i + 1).last() == quote);
            }
            if quote.1.positive() {
                match quote.0 {
                    QuoteSide::Bid => {
                        if self.best_bid.less(quote.1) {
                            self.best_bid = quote.1;
                        }
                    },
                    QuoteSide::Offer => {
                        if self.best_ask.is_zero() || quote.1.less(self.best_ask) {
                            self.best_ask = quote.1;
                        }
                    },
                    QuoteSide::Other => {},
                }
            }
            i = i + 1;
        }
        assert(quotes@.take(quotes@.len() as int) =~= quotes@);
        self.best_bid.positive() && self.best_ask.positive()
    }

    /// A price is told or computed; only a positive one counts.
    pub fn set_price(&mut self, price: Float)
        ensures
            *final(self) == (CoinbaseAssetState { spot: priced(old(self).spot, price), ..*old(self) }),
    {
        if price.positive() {
            self.spot = price;
        }
    }

    /// A trade is told; only a positive size counts.
    pub fn record_trade(&mut self, size: Float, now: u64)
        ensures
            final(self).trade_volumes@ == with_trade(old(self).trade_volumes@, size, now),
            *final(self) == (CoinbaseAssetState { trade_volumes: final(self).trade_volumes, ..*old(self) }),
    {
        if size.positive() {
            self.trade_volumes.push_back((now, size));
        }
    }

    /// Drops trades that are too old, and hands out the sizes of the others.
    pub fn window_sizes(&mut self, now: u64) -> (r: Vec<Float>)
        ensures
            final(self).trade_volumes@ == recent_sizes(old(self).trade_volumes@, now),
            *final(self) == (CoinbaseAssetState { trade_volumes: final(self).trade_volumes, ..*old(self) }),
            r@ == final(self).trade_volumes@.map_values(|p: (u64, Float)| p.1),
    {
        let ghost before = *self;
        while self.trade_volumes.len() > 0 && self.trade_volumes[0].0 as u128 + (VOLUME_WINDOW_SECS as u128)
            * 1_000_000_000u128 < now as u128
            invariant
                recent_sizes(self.trade_volumes@, now) == recent_sizes(before.trade_volumes@, now),
                *self == (CoinbaseAssetState { trade_volumes: self.trade_volumes, ..before }),
            decreases self.trade_volumes@.len(),
        {
            let ghost sizes = self.trade_volumes@;
            self.trade_volumes.pop_front();
            assert(self.trade_volumes@ =~= sizes.drop_first());
        }
        let mut out: Vec<Float> = Vec::new();
        let mut i: usize = 0;
        while i < self.trade_volumes.len()
            invariant
                i <= self.trade_volumes@.len(),
                out@.len() == i,
                forall|k: int| 0 <= k < i ==> #[trigger] out@[k] == self.trade_volumes@[k].1,
            decreases self.trade_volumes@.len() - i,
        {
            out.push(self.trade_volumes[i].1);
            i = i + 1;
        }
        assert(out@ =~= self.trade_volumes@.map_values(|p: (u64, Float)| p.1));
        out
    }
}

/// Quotes never lower the best bid, and never raise a best offer that is known.
pub proof fn best_prices_only_improve(best: (Float, Float), quotes: Seq<(QuoteSide, Float)>)
    requires
        !best.0.not_a_number(),
        !best.1.not_a_number(),
    ensures
        best.0.le(quoted_all(best, quotes).0),
        !is_zero(best.1) ==> !is_zero(quoted_all(best, quotes).1) && quoted_all(best, quotes).1.le(best.1),
        !quoted_all(best, quotes).0.not_a_number(),
        !quoted_all(best, quotes).1.not_a_number(),
    decreases quotes.len(),
{
    if quotes.len() > 0 {
        best_prices_only_improve(best, quotes.drop_last());
    }
}

/// After any quotes the best bid is at least every bid above zero among them, and is the old one
/// or one of them; the best offer is at most every offer above zero, and is the old one or one of
/// them. Once an offer is known, the best offer is above zero.
pub proof fn best_prices_are_extreme(best: (Float, Float), quotes: Seq<(QuoteSide, Float)>)
    requires
        !best.0.not_a_number() && !best.1.not_a_number(),
        best.1.rank() >= 0,
    ensures
        ({
            let (bid, ask) = quoted_all(best, quotes);
            &&& forall|i: int| #![trigger quotes[i]]
                0 <= i < quotes.len() && quotes[i].0 is Bid && !quotes[i].1.not_a_number() && quotes[i].1.rank() > 0
                    ==> quotes[i].1.rank() <= bid.rank()
            &&& forall|i: int| #![trigger quotes[i]]
                0 <= i < quotes.len() && quotes[i].0 is Offer && !quotes[i].1.not_a_number() && quotes[i].1.rank() > 0
                    ==> 0 < ask.rank() <= quotes[i].1.rank()
            &&& bid == best.0 || exists|i: int|
                0 <= i < quotes.len() && #[trigger] quotes[i] == (QuoteSide::Bid, bid) && bid.rank() > 0
            &&& ask == best.1 || exists|i: int|
                0 <= i < quotes.len() && #[trigger] quotes[i] == (QuoteSide::Offer, ask) && ask.rank() > 0
            &&& !bid.not_a_number() && !ask.not_a_number()
            &&& ask.rank() >= 0
            &&& best.1.rank() > 0 ==> ask.rank() <= best.1.rank()
            &&& best.0.rank() <= bid.rank()
        }),
    decreases quotes.len(),
{
    if quotes.len() > 0 {
        let rest = quotes.drop_last();
        best_prices_are_extreme(best, rest);
        let (b, a) = quoted_all(best, rest);
        let (bid, ask) = quoted_all(best, quotes);
        let last = quotes.len() - 1;
        assert forall|i: int| #![trigger quotes[i]]
            0 <= i < quotes.len() && quotes[i].0 is Bid && !quotes[i].1.not_a_number() && quotes[i].1.rank() > 0 implies quotes[i].1.rank()
            <= bid.rank() by {
            if i < last {
                assert(rest[i] == quotes[i]);
            }
        }
        assert forall|i: int| #![trigger quotes[i]]
            0 <= i < quotes.len() && quotes[i].0 is Offer && !quotes[i].1.not_a_number() && quotes[i].1.rank() > 0 implies 0
            < ask.rank() <= quotes[i].1.rank() by {
            if i < last {
                assert(rest[i] == quotes[i]);
            }
        }
        if bid == b && b != best.0 {
            let i = choose|i: int| 0 <= i < rest.len() && #[trigger] rest[i] == (QuoteSide::Bid, b) && b.rank() > 0;
            assert(quotes[i] == (QuoteSide::Bid, bid));
        } else if bid != b {
            assert(quotes[last] == (QuoteSide::Bid, bid));
        }
        if ask == a && a != best.1 {
            let i = choose|i: int| 0 <= i < rest.len() && #[trigger] rest[i] == (QuoteSide::Offer, a) && a.rank() > 0;
            assert(quotes[i] == (QuoteSide::Offer, ask));
        } else if ask != a {
            assert(quotes[last] == (QuoteSide::Offer, ask));
        }
    }
}

/// Quotes taken in at once are quotes taken in one after the other.
pub proof fn quotes_may_come_in_parts(best: (Float, Float), first: Seq<(QuoteSide, Float)>, second: Seq<(QuoteSide, Float)>)
    ensures
        quoted_all(best, first + second) == quoted_all(quoted_all(best, first), second),
    decreases second.len(),
{
    if second.len() == 0 {
        assert(first + second =~= first);
    } else {
        quotes_may_come_in_parts(best, first, second.drop_last());
        assert((first + second).drop_last() =~= first + second.drop_last());
    }
}

/// What is dropped from the front is older than five minutes, and what then stands at the front
/// is not; the rest keeps its order.
pub proof fn sizes_last_five_minutes(s: Seq<(u64, Float)>, now: u64) -> (k: int)
    ensures
        0 <= k <= s.len(),
        recent_sizes(s, now) == s.skip(k),
        forall|i: int| 0 <= i < k ==> now - (#[trigger] s[i]).0 > 300_000_000_000,
        k < s.len() ==> now - s[k].0 <= 300_000_000_000,
    decreases s.len(),
{
    if s.len() > 0 && now - s[0].0 > 300_000_000_000 {
        let t = s.drop_first();
        let k = sizes_last_five_minutes(t, now);
        assert(t.skip(k) =~= s.skip(k + 1));
        assert forall|i: int| 0 <= i < k + 1 implies now - (#[trigger] s[i]).0 > 300_000_000_000 by {
            if i > 0 {
                assert(t[i - 1] == s[i]);
            }
        }
        k + 1
    } else {
        assert(s.skip(0) =~= s);
        0
    }
}

/// Prices and sizes count exactly if they are above zero: such a price takes the place of the one
/// before, and such a size stands last with its moment.
pub proof fn only_what_is_above_zero_counts(spot: Float, price: Float, s: Seq<(u64, Float)>, now: u64)
    requires
        !price.not_a_number(),
    ensures
        priced(spot, price) == (if price.rank() > 0 { price } else { spot }),
        price.rank() > 0 ==> with_trade(s, price, now).last() == (now, price) && with_trade(s, price, now).drop_last()
            == s,
        price.rank() <= 0 ==> with_trade(s, price, now) == s,
{
    assert(s.push((now, price)).drop_last() =~= s);
}

/// A product is that of the first asset followed under its name, and none where no asset that is
/// followed has the name.
pub proof fn products_are_followed(followed: Seq<CryptoAsset>, name: Seq<char>)
    ensures
        match product_asset(followed, Some(name)) {
            Some(a) => a.coinbase_product_id_text() == name && exists|i: int|
                0 <= i < followed.len() && #[trigger] followed[i] == a && forall|j: int|
                    0 <= j < i ==> (#[trigger] followed[j]).coinbase_product_id_text() != name,
            None => forall|j: int|
                0 <= j < followed.len() ==> (#[trigger] followed[j]).coinbase_product_id_text() != name,
        },
        product_asset(followed, None) is None,
    decreases followed.len(),
{
    if followed.len() > 0 && followed[0].coinbase_product_id_text() != name {
        let t = followed.drop_first();
        products_are_followed(t, name);
        match product_asset(t, Some(name)) {
            Some(a) => {
                let i = choose|i: int|
                    0 <= i < t.len() && #[trigger] t[i] == a && forall|j: int|
                        0 <= j < i ==> (#[trigger] t[j]).coinbase_product_id_text() != name;
                assert(followed[i + 1] == a);
                assert forall|j: int| 0 <= j < i + 1 implies (#[trigger] followed[j]).coinbase_product_id_text() != name by {
                    if j > 0 {
                        assert(t[j - 1] == followed[j]);
                    }
                }
            },
            None => {
                assert forall|j: int| 0 <= j < followed.len() implies (#[trigger] followed[j]).coinbase_product_id_text()
                    != name by {
                    if j > 0 {
                        assert(t[j - 1] == followed[j]);
                    }
                }
            },
        }
    } else if followed.len() > 0 {
        assert(followed[0].coinbase_product_id_text() == name);
    }
}

/// A quote is on the side that its text names, and carries the price level that it states.
pub proof fn quotes_name_their_side(update: JsonView)
    ensures
        quote_in(update).0 is Bid <==> field(update, "side"@) == Some(JsonView::Text("bid"@)),
        quote_in(update).0 is Offer <==> field(update, "side"@) == Some(JsonView::Text("offer"@)),
        quote_in(update).1 == (match field(update, "price_level"@) {
            Some(JsonView::Text(p)) => Some(p),
            _ => None,
        }),
{
    reveal_strlit("bid");
    reveal_strlit("offer");
    assert("bid"@.len() != "offer"@.len());
}

/// Items of several events are the items of the one and then those of the other; one event has
/// the items of its own list.
pub proof fn events_are_read_in_order(a: Seq<JsonView>, b: Seq<JsonView>, e: JsonView, key: Seq<char>)
    ensures
        all_items(a + b, key) == all_items(a, key) + all_items(b, key),
        all_items(seq![e], key) == (match field(e, key) {
            Some(JsonView::List(l)) => l,
            _ => Seq::empty(),
        }),
    decreases b.len(),
{
    let one = seq![e];
    assert(one.drop_last() =~= Seq::<JsonView>::empty());
    reveal_with_fuel(all_items, 2);
    assert(all_items(one, key) =~= items(e, key));
    if b.len() == 0 {
        assert(a + b =~= a);
        assert(all_items(a, key) + all_items(b, key) =~= all_items(a, key));
    } else {
        events_are_read_in_order(a, b.drop_last(), e, key);
        assert((a + b).drop_last() =~= a + b.drop_last());
        assert(all_items(a + b, key) =~= all_items(a, key) + all_items(b, key));
    }
}

/// Trades are read one by one: each in a product that is followed comes with its asset and the
/// size it states, any other is left out.
pub proof fn trades_are_read_one_by_one(list: Seq<JsonView>, t: JsonView, followed: Seq<CryptoAsset>)
    ensures
        trades_in(Seq::empty(), followed).len() == 0,
        trades_in(list.push(t), followed) == (match field(t, "product_id"@) {
            Some(JsonView::Text(name)) => match product_asset(followed, Some(name)) {
                Some(a) => trades_in(list, followed).push(
                    (
                        a,
                        match field(t, "size"@) {
                            Some(JsonView::Text(x)) => Some(x),
                            _ => None,
                        },
                    ),
                ),
                None => trades_in(list, followed),
            },
            _ => trades_in(list, followed),
        }),
{
    assert(list.push(t).drop_last() =~= list);
}

/// The first ticker of a followed product tells the price; the tickers before it do not matter.
pub proof fn the_first_followed_ticker_tells(t: JsonView, rest: Seq<JsonView>, followed: Seq<CryptoAsset>)
    ensures
        price_in(Seq::empty(), followed) is Nothing,
        price_in(seq![t] + rest, followed) == (match field(t, "product_id"@) {
            Some(JsonView::Text(name)) => match product_asset(followed, Some(name)) {
                Some(asset) => CoinbaseNews::Price {
                    asset,
                    price: match field(t, "price"@) {
                        Some(JsonView::Text(x)) => Some(x),
                        _ => None,
                    },
                },
                None => price_in(rest, followed),
            },
            _ => price_in(rest, followed),
        }),
{
    assert((seq![t] + rest).drop_first() =~= rest);
}

/// The channel decides what a message brings: the book its quotes, under the product of the first
/// event; the trades, each on its own product; a ticker a price; any other channel, or a message
/// without events, nothing.
pub proof fn channels_decide_what_comes(j: JsonView, followed: Seq<CryptoAsset>)
    ensures
        ({
            let channel = field(j, "channel"@);
            let news = news_in(j, followed);
            match field(j, "events"@) {
                Some(JsonView::List(events)) => {
                    &&& channel == Some(JsonView::Text("l2_data"@)) ==> (news matches CoinbaseNews::Quotes {
                        asset,
                        quotes,
                    } && quotes.len() == all_items(events, "updates"@).len() && (forall|i: int|
                        0 <= i < quotes.len() ==> #[trigger] quotes[i] == quote_in(
                            all_items(events, "updates"@)[i],
                        )) && (events.len() == 0 ==> asset is None) && (events.len() > 0 ==> asset == product_asset(
                        followed,
                        text_in(field(events[0], "product_id"@)),
                    )))
                    &&& channel == Some(JsonView::Text("market_trades"@)) ==> news == CoinbaseNews::Trades(
                        trades_in(all_items(events, "trades"@), followed),
                    )
                    &&& channel == Some(JsonView::Text("ticker"@)) || channel == Some(
                        JsonView::Text("ticker_batch"@),
                    ) ==> news == price_in(all_items(events, "tickers"@), followed)
                    &&& news is Nothing || channel == Some(JsonView::Text("l2_data"@)) || channel == Some(
                        JsonView::Text("market_trades"@),
                    ) || channel == Some(JsonView::Text("ticker"@)) || channel == Some(JsonView::Text("ticker_batch"@))
                },
                _ => news is Nothing,
            }
        }),
{
    reveal_strlit("l2_data");
    reveal_strlit("market_trades");
    reveal_strlit("ticker");
    reveal_strlit("ticker_batch");
    assert("l2_data"@.len() == 7 && "market_trades"@.len() == 13 && "ticker"@.len() == 6 && "ticker_batch"@.len()
        == 12);
}

/// A message counts as an update of the asset that it brings something on: of several trades, of
/// the last.
pub proof fn updates_count_for_their_asset(news: CoinbaseNews, a: CryptoAsset)
    ensures
        news is Nothing ==> updated_asset(news) is None,
        news matches CoinbaseNews::Price { asset, .. } && asset == a ==> updated_asset(news) == Some(a),
        news matches CoinbaseNews::Trades(t) ==> (t.len() == 0 <==> updated_asset(news) is None),
        news matches CoinbaseNews::Trades(t) && t.len() > 0 && t[t.len() - 1].0 == a ==> updated_asset(news) == Some(a),
        news matches CoinbaseNews::Quotes { asset, .. } ==> updated_asset(news) == asset,
{
}

/// There is a middle exactly if both best prices are above zero; from nothing, that takes a bid and
/// an offer above zero among the quotes.
pub proof fn middles_need_both_sides(quotes: Seq<(QuoteSide, Float)>, i: int, j: int)
    requires
        0 <= i < quotes.len() && quotes[i].0 is Bid && !quotes[i].1.not_a_number() && quotes[i].1.rank() > 0,
        0 <= j < quotes.len() && quotes[j].0 is Offer && !quotes[j].1.not_a_number() && quotes[j].1.rank() > 0,
    ensures
        both_known(quoted_all((Float { bits: 0 }, Float { bits: 0 }), quotes)),
        !both_known((Float { bits: 0 }, quotes[j].1)) && !both_known((quotes[i].1, Float { bits: 0 })),
{
    best_prices_are_extreme((Float { bits: 0 }, Float { bits: 0 }), quotes);
}

} // verus!
