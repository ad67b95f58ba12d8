//! The exchange's socket: what its messages say, which tickers to ask for, and when to give a
//! connection up.
use vstd::prelude::*;
use vstd::string::*;

use crate::json::{
    as_int, as_list, field, get, held, int_field, int_in, json_of, list_in, owned, parse_json,
    text_field, text_in, text_or, views, Json, JsonView,
};
use crate::order_manager::order::text_of;
use crate::text::same_text;

verus! {

/// What the feed tells those who listen.
#[derive(Clone, Debug)]
pub enum WsFeedMessage {
    /// All levels of a book, price in cents and size.
    OrderbookSnapshot { ticker: String, yes_bids: Vec<(i64, i64)>, yes_asks: Vec<(i64, i64)> },
    /// A change at one price; the side is `yes` or `no`.
    OrderbookDelta { ticker: String, side: String, price_cents: i64, delta: i64 },
    Trade { ticker: String, price_cents: i64, count: i64, taker_side: String },
    /// Best prices, volumes and the state of a market, as far as they are told.
    TickerUpdate {
        ticker: String,
        yes_bid: Option<i64>,
        yes_ask: Option<i64>,
        yes_bid_size: Option<i64>,
        yes_ask_size: Option<i64>,
        last_price: Option<i64>,
        last_trade_count: Option<i64>,
        volume: Option<i64>,
        open_interest: Option<i64>,
        market_status: Option<String>,
    },
    Disconnected,
    Reconnected,
}

/// A message from the socket, loosely typed: its type, its channel, the text of its content as
/// JSON, and the number of the subscription, each as far as it is told. A content of null is none.
#[derive(Clone, Debug)]
pub struct WsRawMessage {
    pub msg_type: Option<String>,
    pub channel: Option<String>,
    pub msg: Option<String>,
    pub sid: Option<u64>,
}

/// A message as mathematics.
pub enum FeedNews {
    Snapshot { ticker: Seq<char>, yes_bids: Seq<(i64, i64)>, yes_asks: Seq<(i64, i64)> },
    Delta { ticker: Seq<char>, side: Seq<char>, price_cents: i64, delta: i64 },
    Trade { ticker: Seq<char>, price_cents: i64, count: i64, taker_side: Seq<char> },
    Ticker {
        ticker: Seq<char>,
        yes_bid: Option<i64>,
        yes_ask: Option<i64>,
        yes_bid_size: Option<i64>,
        yes_ask_size: Option<i64>,
        last_price: Option<i64>,
        last_trade_count: Option<i64>,
        volume: Option<i64>,
        open_interest: Option<i64>,
        market_status: Option<Seq<char>>,
    },
    Disconnected,
    Reconnected,
}

impl View for WsFeedMessage {
    type V = FeedNews;

    open spec fn view(&self) -> FeedNews {
        match *self {
            WsFeedMessage::OrderbookSnapshot { ticker, yes_bids, yes_asks } => FeedNews::Snapshot {
                ticker: ticker@,
                yes_bids: yes_bids@,
                yes_asks: yes_asks@,
            },
            WsFeedMessage::OrderbookDelta { ticker, side, price_cents, delta } => FeedNews::Delta {
                ticker: ticker@,
                side: side@,
                price_cents,
                delta,
            },
            WsFeedMessage::Trade { ticker, price_cents, count, taker_side } => FeedNews::Trade {
                ticker: ticker@,
                price_cents,
                count,
                taker_side: taker_side@,
            },
            WsFeedMessage::TickerUpdate {
                ticker,
                yes_bid,
                yes_ask,
                yes_bid_size,
                yes_ask_size,
                last_price,
                last_trade_count,
                volume,
                open_interest,
                market_status,
            } => FeedNews::Ticker {
                ticker: ticker@,
                yes_bid,
                yes_ask,
                yes_bid_size,
                yes_ask_size,
                last_price,
                last_trade_count,
                volume,
                open_interest,
                market_status: text_of(market_status),
            },
            WsFeedMessage::Disconnected => FeedNews::Disconnected,
            WsFeedMessage::Reconnected => FeedNews::Reconnected,
        }
    }
}

/// The messages as mathematics.
pub open spec fn news(v: Seq<WsFeedMessage>) -> Seq<FeedNews> {
    v.map_values(|m: WsFeedMessage| m@)
}

/// A level: a list that starts with two integers, price and size.
pub open spec fn level_in(j: JsonView) -> Option<(i64, i64)> {
    match list_in(Some(j)) {
        Some(pair) => if pair.len() >= 2 {
            match (int_in(Some(pair[0])), int_in(Some(pair[1]))) {
                (Some(p), Some(s)) => Some((p, s)),
                _ => None,
            }
        } else {
            None
        },
        None => None,
    }
}

/// The levels among the values, in their order.
pub open spec fn levels_among(list: Seq<JsonView>) -> Seq<(i64, i64)>
    decreases list.len(),
{
    if list.len() == 0 {
        Seq::empty()
    } else {
        let rest = levels_among(list.drop_last());
        match level_in(list.last()) {
            Some(l) => rest.push(l),
            None => rest,
        }
    }
}

/// The levels that a value lists; none where it is no list.
pub open spec fn levels_in(j: Option<JsonView>) -> Seq<(i64, i64)> {
    match list_in(j) {
        Some(list) => levels_among(list),
        None => Seq::empty(),
    }
}

/// The levels that a value lists.
pub fn parse_price_levels(value: Option<&Json>) -> (r: Vec<(i64, i64)>)
    ensures
        r@ == levels_in(held(value)),
{
    let mut out: Vec<(i64, i64)> = Vec::new();
    let list: &Vec<Json> = match as_list(value) {
        Some(l) => l,
        None => {
            return out;
        },
    };
    let mut i: usize = 0;
    assert(views(list@).take(0) =~= Seq::<JsonView>::empty());
    while i < list.len()
        invariant
            i <= list@.len(),
            out@ == levels_among(views(list@).take(i as int)),
        decreases list@.len() - i,
    {
        proof {
            assert(views(list@).take(i + 1).drop_last() =~= views(list@).take(i as int));
            assert(views(list@).take(i + 1).last() == list@[i as int]@);
        }
        if let Some(pair) = as_list(Some(&list[i])) {
            if pair.len() >= 2 {
                if let (Some(p), Some(s)) = (as_int(Some(&pair[0])), as_int(Some(&pair[1]))) {
                    out.push((p, s));
                }
            }
        }
        i = i + 1;
    }
    assert(views(list@).take(list@.len() as int) =~= views(list@));
    out
}

/// What the content of a book message tells: first a snapshot, if it lists any level, then a
/// change, if it states a price and a difference.
pub open spec fn book_news(msg: JsonView) -> Seq<FeedNews> {
    match text_in(field(msg, "market_ticker"@)) {
        None => Seq::empty(),
        Some(ticker) => {
            let snapshot = match field(msg, "yes"@) {
                Some(yes) => {
                    let bids = levels_in(field(yes, "bids"@));
                    let asks = levels_in(field(yes, "asks"@));
                    if bids.len() > 0 || asks.len() > 0 {
                        seq![FeedNews::Snapshot { ticker, yes_bids: bids, yes_asks: asks }]
                    } else {
                        Seq::empty()
                    }
                },
                None => Seq::empty(),
            };
            match (int_in(field(msg, "price"@)), int_in(field(msg, "delta"@))) {
                (Some(price_cents), Some(delta)) => snapshot.push(
                    FeedNews::Delta {
                        ticker,
                        side: match text_in(field(msg, "side"@)) {
                            Some(s) => s,
                            None => "yes"@,
                        },
                        price_cents,
                        delta,
                    },
                ),
                _ => snapshot,
            }
        },
    }
}

/// What the content of a trade message tells.
pub open spec fn trade_news(msg: JsonView) -> Seq<FeedNews> {
    match (
        text_in(field(msg, "market_ticker"@)),
        int_in(field(msg, "yes_price"@)),
        int_in(field(msg, "count"@)),
    ) {
        (Some(ticker), Some(price_cents), Some(count)) => seq![
            FeedNews::Trade {
                ticker,
                price_cents,
                count,
                taker_side: match text_in(field(msg, "taker_side"@)) {
                    Some(s) => s,
                    None => "unknown"@,
                },
            },
        ],
        _ => Seq::empty(),
    }
}

/// What the content of a ticker message tells.
pub open spec fn ticker_news(msg: JsonView) -> Seq<FeedNews> {
    match text_in(field(msg, "market_ticker"@)) {
        Some(ticker) => seq![
            FeedNews::Ticker {
                ticker,
                yes_bid: int_in(field(msg, "yes_bid"@)),
                yes_ask: int_in(field(msg, "yes_ask"@)),
                yes_bid_size: int_in(field(msg, "yes_bid_size"@)),
                yes_ask_size: int_in(field(msg, "yes_ask_size"@)),
                last_price: int_in(field(msg, "last_price"@)),
                last_trade_count: int_in(field(msg, "last_trade_count"@)),
                volume: int_in(field(msg, "volume"@)),
                open_interest: int_in(field(msg, "open_interest"@)),
                market_status: text_in(field(msg, "market_status"@)),
            },
        ],
        None => Seq::empty(),
    }
}

/// What a message tells; nothing where it has no channel, no content, or a channel that is not
/// listened to.
pub open spec fn told_by(channel: Option<Seq<char>>, msg: Option<JsonView>) -> Seq<FeedNews> {
    match (channel, msg) {
        (Some(channel), Some(msg)) => if channel == "orderbook_delta"@ {
            book_news(msg)
        } else if channel == "trade"@ {
            trade_news(msg)
        } else if channel == "ticker"@ {
            ticker_news(msg)
        } else {
            Seq::empty()
        },
        _ => Seq::empty(),
    }
}

fn read_book(msg: &Json) -> (r: Vec<WsFeedMessage>)
    ensures
        news(r@) == book_news(msg@),
{
    let mut out: Vec<WsFeedMessage> = Vec::new();
    assert(news(out@) =~= Seq::<FeedNews>::empty());
    let ticker: &str = match text_field(msg, "market_ticker") {
        Some(t) => t,
        None => {
            return out;
        },
    };
    if let Some(yes) = get(msg, "yes") {
        let bids: Vec<(i64, i64)> = parse_price_levels(get(yes, "bids"));
        let asks: Vec<(i64, i64)> = parse_price_levels(get(yes, "asks"));
        if bids.len() > 0 || asks.len() > 0 {
            out.push(
                WsFeedMessage::OrderbookSnapshot { ticker: ticker.to_owned(), yes_bids: bids, yes_asks: asks },
            );
            assert(news(out@) =~= seq![out@[0]@]);
        }
    }
    let ghost before = out@;
    if let (Some(price_cents), Some(delta)) = (int_field(msg, "price"), int_field(msg, "delta")) {
        let side: &str = text_or(text_field(msg, "side"), "yes");
        out.push(
            WsFeedMessage::OrderbookDelta { ticker: ticker.to_owned(), side: side.to_owned(), price_cents, delta },
        );
        assert(news(out@) =~= news(before).push(out@.last()@));
    }
    out
}

fn read_trade(msg: &Json) -> (r: Vec<WsFeedMessage>)
    ensures
        news(r@) == trade_news(msg@),
{
    let mut out: Vec<WsFeedMessage> = Vec::new();
    if let (Some(ticker), Some(price_cents), Some(count)) = (
        text_field(msg, "market_ticker"),
        int_field(msg, "yes_price"),
        int_field(msg, "count"),
    ) {
        let taker_side: &str = text_or(text_field(msg, "taker_side"), "unknown");
        out.push(
            WsFeedMessage::Trade {
                ticker: ticker.to_owned(),
                price_cents,
                count,
                taker_side: taker_side.to_owned(),
            },
        );
    }
    assert(news(out@) =~= trade_news(msg@));
    out
}

fn read_ticker(msg: &Json) -> (r: Vec<WsFeedMessage>)
    ensures
        news(r@) == ticker_news(msg@),
{
    let mut out: Vec<WsFeedMessage> = Vec::new();
    if let Some(ticker) = text_field(msg, "market_ticker") {
        out.push(
            WsFeedMessage::TickerUpdate {
                ticker: ticker.to_owned(),
                yes_bid: int_field(msg, "yes_bid"),
                yes_ask: int_field(msg, "yes_ask"),
                yes_bid_size: int_field(msg, "yes_bid_size"),
                yes_ask_size: int_field(msg, "yes_ask_size"),
                last_price: int_field(msg, "last_price"),
                last_trade_count: int_field(msg, "last_trade_count"),
                volume: int_field(msg, "volume"),
                open_interest: int_field(msg, "open_interest"),
                market_status: owned(text_field(msg, "market_status")),
            },
        );
    }
    assert(news(out@) =~= ticker_news(msg@));
    out
}

/// What a message with this channel and this content tells.
pub fn read_message(channel: Option<&str>, msg: Option<&Json>) -> (r: Vec<WsFeedMessage>)
    ensures
        news(r@) == told_by(
            match channel {
                Some(c) => Some(c@),
                None => None,
            },
            held(msg),
        ),
{
    let none: Vec<WsFeedMessage> = Vec::new();
    assert(news(none@) =~= Seq::<FeedNews>::empty());
    match (channel, msg) {
        (Some(channel), Some(msg)) => if same_text(channel, "orderbook_delta") {
            read_book(msg)
        } else if same_text(channel, "trade") {
            read_trade(msg)
        } else if same_text(channel, "ticker") {
            read_ticker(msg)
        } else {
            none
        },
        _ => none,
    }
}

impl WsRawMessage {
    /// What the content says as JSON, where there is any.
    pub open spec fn content(self) -> Option<JsonView> {
        match self.msg {
            Some(m) => json_of(m@),
            None => None,
        }
    }

    /// The content is missing, or it is JSON.
    pub open spec fn readable(self) -> bool {
        self.msg matches Some(m) ==> json_of(m@) is Some
    }

    /// What the message tells.
    pub open spec fn tells(self) -> Seq<FeedNews> {
        told_by(text_of(self.channel), self.content())
    }
}

/// What a message from the socket tells; `None` where its content is not JSON.
pub fn handle_text_message(raw: &WsRawMessage) -> (r: Option<Vec<WsFeedMessage>>)
    ensures
        match r {
            Some(v) => raw.readable() && news(v@) == raw.tells(),
            None => !raw.readable(),
        },
{
    let channel: Option<&str> = match &raw.channel {
        Some(c) => Some(c.as_str()),
        None => None,
    };
    match &raw.msg {
        Some(text) => match parse_json(text.as_str()) {
            Some(j) => Some(read_message(channel, Some(&j))),
            None => None,
        },
        None => Some(read_message(channel, None)),
    }
}

/// A level is a list that starts with two integers, of which the first is the price and the second
/// the size.
pub proof fn levels_are_price_and_size(pair: Seq<JsonView>, p: i64, s: i64)
    ensures
        level_in(JsonView::List(pair)) == Some((p, s)) <==> pair.len() >= 2 && (pair[0] matches JsonView::Number(a)
            && a.int == Some(p)) && (pair[1] matches JsonView::Number(b) && b.int == Some(s)),
        level_in(JsonView::Null) is None,
{
}

/// Levels are read one by one, in their order; what is no level is left out.
pub proof fn levels_are_read_in_order(list: Seq<JsonView>, j: JsonView)
    ensures
        levels_in(None).len() == 0,
        levels_in(Some(JsonView::List(Seq::empty()))).len() == 0,
        levels_in(Some(JsonView::List(list.push(j)))) == (match level_in(j) {
            Some(l) => levels_in(Some(JsonView::List(list))).push(l),
            None => levels_in(Some(JsonView::List(list))),
        }),
{
    assert(list.push(j).drop_last() =~= list);
}

/// A book message without a ticker tells nothing. With one it tells a snapshot exactly if it lists a
/// level of yes, with the bids as bids and the asks as asks, and after that a change exactly if it
/// states a price and a difference, on the side that it names or else on yes.
pub proof fn book_messages_tell_levels_and_changes(msg: JsonView, ticker: Seq<char>)
    requires
        field(msg, "market_ticker"@) == Some(JsonView::Text(ticker)),
    ensures
        ({
            let told = book_news(msg);
            let bids = match field(msg, "yes"@) {
                Some(yes) => levels_in(field(yes, "bids"@)),
                None => Seq::empty(),
            };
            let asks = match field(msg, "yes"@) {
                Some(yes) => levels_in(field(yes, "asks"@)),
                None => Seq::empty(),
            };
            let lists = bids.len() > 0 || asks.len() > 0;
            let changes = (field(msg, "price"@) matches Some(JsonView::Number(p)) && p.int is Some) && (field(
                msg,
                "delta"@,
            ) matches Some(JsonView::Number(d)) && d.int is Some);
            &&& told.len() == (if lists { 1int } else { 0 }) + (if changes { 1int } else { 0 })
            &&& lists ==> told[0] == (FeedNews::Snapshot { ticker, yes_bids: bids, yes_asks: asks })
            &&& changes ==> (told.last() matches FeedNews::Delta { ticker: t, side, price_cents, delta } && t == ticker
                && int_in(field(msg, "price"@)) == Some(price_cents) && int_in(field(msg, "delta"@)) == Some(delta)
                && side == (match field(msg, "side"@) {
                Some(JsonView::Text(x)) => x,
                _ => "yes"@,
            }))
        }),
{
}

/// A trade message tells a trade exactly if it states ticker, price of yes and count; the taker is
/// unknown where it is not stated.
pub proof fn trade_messages_tell_a_trade(msg: JsonView, ticker: Seq<char>, price: i64, count: i64)
    requires
        text_in(field(msg, "market_ticker"@)) == Some(ticker),
        int_in(field(msg, "yes_price"@)) == Some(price),
        int_in(field(msg, "count"@)) == Some(count),
    ensures
        trade_news(msg).len() == 1,
        trade_news(msg)[0] == (FeedNews::Trade {
            ticker,
            price_cents: price,
            count,
            taker_side: match field(msg, "taker_side"@) {
                Some(JsonView::Text(x)) => x,
                _ => "unknown"@,
            },
        }),
{
}

/// Without any of these there is no trade, and without a ticker nothing at all.
pub proof fn messages_without_their_parts_tell_nothing(msg: JsonView)
    ensures
        field(msg, "market_ticker"@) is None ==> book_news(msg).len() == 0 && trade_news(msg).len() == 0 && ticker_news(
            msg,
        ).len() == 0,
        field(msg, "yes_price"@) is None || field(msg, "count"@) is None ==> trade_news(msg).len() == 0,
{
}

/// A ticker message tells, of its ticker, whatever it states of each number under that number's
/// name.
pub proof fn ticker_messages_tell_what_they_state(msg: JsonView, name: Seq<char>)
    requires
        field(msg, "market_ticker"@) == Some(JsonView::Text(name)),
    ensures
        ticker_news(msg).len() == 1,
        ticker_news(msg)[0] matches FeedNews::Ticker {
            ticker,
            yes_bid,
            yes_ask,
            yes_bid_size,
            yes_ask_size,
            last_price,
            last_trade_count,
            volume,
            open_interest,
            market_status,
        } && {
            let number = |key: Seq<char>| match field(msg, key) {
                Some(JsonView::Number(n)) => n.int,
                _ => None,
            };
            &&& ticker == name
            &&& yes_bid == number("yes_bid"@) && yes_ask == number("yes_ask"@)
            &&& yes_bid_size == number("yes_bid_size"@) && yes_ask_size == number("yes_ask_size"@)
            &&& last_price == number("last_price"@) && last_trade_count == number("last_trade_count"@)
            &&& volume == number("volume"@) && open_interest == number("open_interest"@)
            &&& market_status == (match field(msg, "market_status"@) {
                Some(JsonView::Text(x)) => Some(x),
                _ => None,
            })
        },
{
}

/// The channel decides how a content is read; without a channel, without a content and on any other
/// channel nothing is told.
pub proof fn channels_decide_how_to_read(channel: Seq<char>, msg: JsonView)
    ensures
        told_by(Some("orderbook_delta"@), Some(msg)) == book_news(msg),
        told_by(Some("trade"@), Some(msg)) == trade_news(msg),
        told_by(Some("ticker"@), Some(msg)) == ticker_news(msg),
        channel != "orderbook_delta"@ && channel != "trade"@ && channel != "ticker"@ ==> told_by(
            Some(channel),
            Some(msg),
        ).len() == 0,
        told_by(None, Some(msg)).len() == 0 && told_by(Some(channel), None).len() == 0,
{
    reveal_strlit("orderbook_delta");
    reveal_strlit("trade");
    reveal_strlit("ticker");
    assert("orderbook_delta"@.len() == 15 && "trade"@.len() == 5 && "ticker"@.len() == 6);
}

/// A message is readable exactly if its content is missing or is JSON, and then tells what its
/// channel makes of that content; a message without content tells nothing.
pub proof fn messages_tell_their_content(raw: WsRawMessage, j: JsonView)
    ensures
        raw.msg is None ==> raw.readable() && raw.tells().len() == 0,
        raw.msg is Some && json_of((raw.msg->0)@) is None ==> !raw.readable(),
        raw.msg is Some && json_of((raw.msg->0)@) == Some(j) ==> raw.readable() && raw.content() == Some(j),
        raw.msg is Some && json_of((raw.msg->0)@) == Some(j) && raw.channel is Some ==> raw.tells() == told_by(
            Some((raw.channel->0)@),
            Some(j),
        ),
        raw.channel is None ==> raw.tells().len() == 0,
{
}

} // verus!
