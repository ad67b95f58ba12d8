//! Binance futures: last price, mark price, funding and the top of the book.
use vstd::prelude::*;
use vstd::string::*;

use crate::feeds::binance_spot::content;
use crate::float::Float;
use crate::json::{
    as_list, as_text, field, get, held, json_of, list_in, owned, parse_json, text_field, text_in, Json,
    JsonView,
};
use crate::order_manager::order::text_of;
use crate::text::{joined, same_text};

verus! {

/// What a message tells, numbers as text.
#[derive(Debug)]
pub enum FuturesMessage {
    Trade { price: Option<String> },
    /// Price and quantity of the best bid and of the best ask.
    Depth { bid: Option<(String, String)>, ask: Option<(String, String)> },
    Mark { mark: Option<String>, rate: Option<String> },
    Nothing,
}

/// The same as mathematics.
pub enum FuturesNews {
    Trade { price: Option<Seq<char>> },
    Depth { bid: Option<(Seq<char>, Seq<char>)>, ask: Option<(Seq<char>, Seq<char>)> },
    Mark { mark: Option<Seq<char>>, rate: Option<Seq<char>> },
    Nothing,
}

pub open spec fn pair_of(p: Option<(String, String)>) -> Option<(Seq<char>, Seq<char>)> {
    match p {
        Some(q) => Some((q.0@, q.1@)),
        None => None,
    }
}

impl View for FuturesMessage {
    type V = FuturesNews;

    open spec fn view(&self) -> FuturesNews {
        match *self {
            FuturesMessage::Trade { price } => FuturesNews::Trade { price: text_of(price) },
            FuturesMessage::Depth { bid, ask } => FuturesNews::Depth { bid: pair_of(bid), ask: pair_of(ask) },
            FuturesMessage::Mark { mark, rate } => FuturesNews::Mark { mark: text_of(mark), rate: text_of(rate) },
            FuturesMessage::Nothing => FuturesNews::Nothing,
        }
    }
}

/// The first level of a list: a list that starts with two texts.
pub open spec fn top_level(j: Option<JsonView>) -> Option<(Seq<char>, Seq<char>)> {
    match list_in(j) {
        Some(levels) => if levels.len() == 0 {
            None
        } else {
            match list_in(Some(levels[0])) {
                Some(pair) => if pair.len() < 2 {
                    None
                } else {
                    match (text_in(Some(pair[0])), text_in(Some(pair[1]))) {
                        (Some(p), Some(q)) => Some((p, q)),
                        _ => None,
                    }
                },
                None => None,
            }
        },
        None => None,
    }
}

/// What a message tells.
pub open spec fn futures_news(j: JsonView) -> FuturesNews {
    let d = content(j);
    let event = text_in(field(d, "e"@));
    if event == Some("aggTrade"@) {
        FuturesNews::Trade { price: text_in(field(d, "p"@)) }
    } else if event == Some("depthUpdate"@) {
        FuturesNews::Depth { bid: top_level(field(d, "b"@)), ask: top_level(field(d, "a"@)) }
    } else if event == Some("markPriceUpdate"@) {
        FuturesNews::Mark { mark: text_in(field(d, "p"@)), rate: text_in(field(d, "r"@)) }
    } else {
        FuturesNews::Nothing
    }
}

fn read_top(j: Option<&Json>) -> (r: Option<(String, String)>)
    ensures
        pair_of(r) == top_level(held(j)),
{
    let levels: &Vec<Json> = match as_list(j) {
        Some(l) => l,
        None => {
            return None;
        },
    };
    if levels.len() == 0 {
        return None;
    }
    let pair: &Vec<Json> = match as_list(Some(&levels[0])) {
        Some(l) => l,
        None => {
            return None;
        },
    };
    if pair.len() < 2 {
        return None;
    }
    match (as_text(Some(&pair[0])), as_text(Some(&pair[1]))) {
        (Some(p), Some(q)) => Some((p.to_owned(), q.to_owned())),
        _ => None,
    }
}

/// What a message tells.
pub fn read_futures(j: &Json) -> (r: FuturesMessage)
    ensures
        r@ == futures_news(j@),
{
    let data: &Json = match get(j, "data") {
        Some(d) => d,
        None => j,
    };
    let event: &str = match text_field(data, "e") {
        Some(e) => e,
        None => {
            return FuturesMessage::Nothing;
        },
    };
    if same_text(event, "aggTrade") {
        let price: Option<String> = owned(text_field(data, "p"));
        FuturesMessage::Trade { price }
    } else if same_text(event, "depthUpdate") {
        let bid: Option<(String, String)> = read_top(get(data, "b"));
        let ask: Option<(String, String)> = read_top(get(data, "a"));
        FuturesMessage::Depth { bid, ask }
    } else if same_text(event, "markPriceUpdate") {
        let mark: Option<String> = owned(text_field(data, "p"));
        let rate: Option<String> = owned(text_field(data, "r"));
        FuturesMessage::Mark { mark, rate }
    } else {
        FuturesMessage::Nothing
    }
}

/// What a text from the socket tells; nothing where it is not JSON.
pub fn parse_binance_futures_message(text: &str) -> (r: FuturesMessage)
    ensures
        r@ == (match json_of(text@) {
            Some(j) => futures_news(j),
            None => FuturesNews::Nothing,
        }),
{
    match parse_json(text) {
        Some(j) => read_futures(&j),
        None => FuturesMessage::Nothing,
    }
}

/// The address of the combined stream at a host.
pub fn futures_stream_url(ws_url: &str) -> (r: String)
    ensures
        r@ == ws_url@ + "/stream?streams=btcusdt@aggTrade/btcusdt@depth@100ms/btcusdt@markPrice@1s"@,
{
    joined(ws_url, "/stream?streams=btcusdt@aggTrade/btcusdt@depth@100ms/btcusdt@markPrice@1s")
}

/// What is known of the perpetual contract.
#[derive(Clone, Copy, Debug, PartialEq, Eq, Structural)]
pub struct BinanceFuturesState {
    pub perp_price: Float,
    pub mark_price: Float,
    pub funding_rate: Float,
    pub best_bid: Float,
    pub best_ask: Float,
    pub bid_qty: Float,
    pub ask_qty: Float,
}

impl Default for BinanceFuturesState {
    fn default() -> (r: Self)
        ensures
            r.perp_price.bits == 0 && r.mark_price.bits == 0 && r.funding_rate.bits == 0,
            r.best_bid.bits == 0 && r.best_ask.bits == 0 && r.bid_qty.bits == 0 && r.ask_qty.bits == 0,
    {
        let zero: Float = Float::from_bits(0);
        BinanceFuturesState {
            perp_price: zero,
            mark_price: zero,
            funding_rate: zero,
            best_bid: zero,
            best_ask: zero,
            bid_qty: zero,
            ask_qty: zero,
        }
    }
}

/// The numbers of a message, as far as they could be read.
#[derive(Clone, Copy, Debug)]
pub enum FuturesUpdate {
    Trade { price: Option<Float> },
    Depth { bid: Option<(Float, Float)>, ask: Option<(Float, Float)> },
    Mark { mark: Option<Float>, rate: Option<Float> },
    Nothing,
}

/// The first where it is there, else the second.
pub open spec fn given(x: Option<Float>, old: Float) -> Float {
    match x {
        Some(v) => v,
        None => old,
    }
}

/// The share of bids in a total, one half where the total is not positive.
pub open spec fn imbalance(total: Float, share: Float) -> Float {
    if total.le(Float { bits: 0 }) { Float { bits: 0x3fe0_0000_0000_0000 } } else { share }
}

/// The difference of last and mark price, zero where no mark price is known.
pub open spec fn basis_over(mark_price: Float, difference: Float) -> Float {
    if mark_price.le(Float { bits: 0 }) { Float { bits: 0 } } else { difference }
}

impl BinanceFuturesState {
    /// The state after an update; what it does not give stays.
    pub open spec fn updated(self, u: FuturesUpdate) -> BinanceFuturesState {
        match u {
            FuturesUpdate::Trade { price } => BinanceFuturesState { perp_price: given(price, self.perp_price), ..self },
            FuturesUpdate::Depth { bid, ask } => BinanceFuturesState {
                best_bid: match bid {
                    Some(l) => l.0,
                    None => self.best_bid,
                },
                bid_qty: match bid {
                    Some(l) => l.1,
                    None => self.bid_qty,
                },
                best_ask: match ask {
                    Some(l) => l.0,
                    None => self.best_ask,
                },
                ask_qty: match ask {
                    Some(l) => l.1,
                    None => self.ask_qty,
                },
                ..self
            },
            FuturesUpdate::Mark { mark, rate } => BinanceFuturesState {
                mark_price: given(mark, self.mark_price),
                funding_rate: given(rate, self.funding_rate),
                ..self
            },
            FuturesUpdate::Nothing => self,
        }
    }

    /// Takes an update in.
    pub fn apply(&mut self, update: FuturesUpdate)
        ensures
            *final(self) == old(self).updated(update),
    {
        match update {
            FuturesUpdate::Trade { price } => {
                if let Some(p) = price {
                    self.perp_price = p;
                }
            },
            FuturesUpdate::Depth { bid, ask } => {
                if let Some(l) = bid {
                    self.best_bid = l.0;
                    self.bid_qty = l.1;
                }
                if let Some(l) = ask {
                    self.best_ask = l.0;
                    self.ask_qty = l.1;
                }
            },
            FuturesUpdate::Mark { mark, rate } => {
                if let Some(m) = mark {
                    self.mark_price = m;
                }
                if let Some(x) = rate {
                    self.funding_rate = x;
                }
            },
            FuturesUpdate::Nothing => {},
        }
    }

    /// The imbalance of the book: `share` of bids in `total`, one half where the total is not
    /// positive.
    pub fn obi(total: Float, share: Float) -> (r: Float)
        ensures
            r == imbalance(total, share),
    {
        if total.less_eq(Float::from_bits(0)) { Float::from_bits(0x3fe0_0000_0000_0000) } else { share }
    }

    /// The basis: `difference` of last and mark price, zero where no mark price is known.
    pub fn basis(&self, difference: Float) -> (r: Float)
        ensures
            r == basis_over(self.mark_price, difference),
    {
        if self.mark_price.less_eq(Float::from_bits(0)) { Float::from_bits(0) } else { difference }
    }
}

/// Each event tells its own numbers: a trade the price, the depth both tops, the mark its price
/// and the rate; any other event nothing. What wraps a message does not matter.
pub proof fn events_tell_their_numbers(j: JsonView)
    ensures
        ({
            let d = match field(j, "data"@) {
                Some(inner) => inner,
                None => j,
            };
            let e = field(d, "e"@);
            let told = |key: Seq<char>| match field(d, key) {
                Some(JsonView::Text(x)) => Some(x),
                _ => None,
            };
            &&& e == Some(JsonView::Text("aggTrade"@)) ==> futures_news(j) == (FuturesNews::Trade { price: told("p"@) })
            &&& e == Some(JsonView::Text("markPriceUpdate"@)) ==> futures_news(j) == (FuturesNews::Mark {
                mark: told("p"@),
                rate: told("r"@),
            })
            &&& e == Some(JsonView::Text("depthUpdate"@)) ==> futures_news(j) == (FuturesNews::Depth {
                bid: top_level(field(d, "b"@)),
                ask: top_level(field(d, "a"@)),
            })
            &&& futures_news(j) is Nothing || e == Some(JsonView::Text("aggTrade"@)) || e == Some(
                JsonView::Text("markPriceUpdate"@),
            ) || e == Some(JsonView::Text("depthUpdate"@))
        }),
{
    reveal_strlit("aggTrade");
    reveal_strlit("markPriceUpdate");
    reveal_strlit("depthUpdate");
    assert("aggTrade"@.len() == 8 && "markPriceUpdate"@.len() == 15 && "depthUpdate"@.len() == 11);
}

/// The top of a list is its first level, price and quantity in this order; the levels after it do
/// not matter.
pub proof fn tops_are_first_levels(levels: Seq<JsonView>, pair: Seq<JsonView>, price: Seq<char>, qty: Seq<char>)
    requires
        levels.len() > 0,
        levels[0] == JsonView::List(pair),
        pair.len() >= 2,
        pair[0] == JsonView::Text(price),
        pair[1] == JsonView::Text(qty),
    ensures
        top_level(Some(JsonView::List(levels))) == Some((price, qty)),
        top_level(Some(JsonView::List(Seq::empty()))) is None,
        top_level(None) is None,
{
}

/// An update sets what it gives and leaves everything else: a trade the last price, the depth the
/// sides that it gives, price and quantity together, and the mark its price and the rate.
pub proof fn updates_set_what_they_give(s: BinanceFuturesState, a: Float, b: Float, x: Option<Float>, l: Option<(Float, Float)>)
    ensures
        ({
            let t = s.updated(FuturesUpdate::Trade { price: Some(a) });
            t.perp_price == a && t == (BinanceFuturesState { perp_price: a, ..s })
        }),
        s.updated(FuturesUpdate::Trade { price: None }) == s,
        s.updated(FuturesUpdate::Nothing) == s,
        ({
            let t = s.updated(FuturesUpdate::Depth { bid: Some((a, b)), ask: l });
            &&& t.best_bid == a && t.bid_qty == b
            &&& l is None ==> t.best_ask == s.best_ask && t.ask_qty == s.ask_qty
            &&& l is Some ==> t.best_ask == (l->0).0 && t.ask_qty == (l->0).1
            &&& t.perp_price == s.perp_price && t.mark_price == s.mark_price && t.funding_rate == s.funding_rate
        }),
        ({
            let t = s.updated(FuturesUpdate::Depth { bid: l, ask: Some((a, b)) });
            &&& t.best_ask == a && t.ask_qty == b
            &&& l is None ==> t.best_bid == s.best_bid && t.bid_qty == s.bid_qty
        }),
        ({
            let t = s.updated(FuturesUpdate::Mark { mark: Some(a), rate: x });
            &&& t.mark_price == a && t.perp_price == s.perp_price
            &&& x is None ==> t.funding_rate == s.funding_rate
            &&& x is Some ==> t.funding_rate == x->0
        }),
        ({
            let t = s.updated(FuturesUpdate::Mark { mark: None, rate: Some(b) });
            t.mark_price == s.mark_price && t.funding_rate == b && t.best_bid == s.best_bid
        }),
{
}

/// A book without contracts is balanced, any other as its share says; without a mark price there
/// is no basis.
pub proof fn empty_books_are_balanced(total: Float, share: Float)
    requires
        !total.not_a_number(),
    ensures
        total.rank() > 0 ==> imbalance(total, share) == share && basis_over(total, share) == share,
        total.rank() <= 0 ==> imbalance(total, share).bits == 0x3fe0_0000_0000_0000 && basis_over(total, share).bits
            == 0,
{
}

} // verus!
