//! The connection to a venue: what each event on it calls for, and under which names its news
//! are kept.
use vstd::prelude::*;
use vstd::string::*;

use crate::crypto_asset::CryptoAsset;
use crate::text::{joined, texts};

verus! {

/// A venue of market data.
#[derive(Clone, Copy, Debug, PartialEq, Eq, Structural)]
pub enum Venue {
    Coinbase,
    BinanceSpot,
    BinanceFutures,
    Deribit,
}

impl Venue {
    pub open spec fn label(self) -> Seq<char> {
        match self {
            Venue::Coinbase => "coinbase"@,
            Venue::BinanceSpot => "binance spot"@,
            Venue::BinanceFutures => "binance futures"@,
            Venue::Deribit => "deribit"@,
        }
    }

    pub open spec fn feed(self) -> Seq<char> {
        match self {
            Venue::Coinbase => "coinbase"@,
            Venue::BinanceSpot => "binance_spot"@,
            Venue::BinanceFutures => "binance_futures"@,
            Venue::Deribit => "deribit"@,
        }
    }

    /// The venue's name in messages.
    pub fn label_text(self) -> (r: &'static str)
        ensures
            r@ == self.label(),
    {
        match self {
            Venue::Coinbase => "coinbase",
            Venue::BinanceSpot => "binance spot",
            Venue::BinanceFutures => "binance futures",
            Venue::Deribit => "deribit",
        }
    }

    /// The venue's name as a feed.
    pub fn feed_text(self) -> (r: &'static str)
        ensures
            r@ == self.feed(),
    {
        match self {
            Venue::Coinbase => "coinbase",
            Venue::BinanceSpot => "binance_spot",
            Venue::BinanceFutures => "binance_futures",
            Venue::Deribit => "deribit",
        }
    }
}

/// What happens on a connection.
pub enum StreamEvent<'a> {
    Cancelled,
    Text(&'a str),
    CloseFrame,
    Failed(String),
    Ended,
    OtherFrame,
    /// What was gathered is due to be passed on.
    FlushDue,
}

/// What follows.
pub enum StreamStep<'a> {
    Continue,
    /// Send a close frame and stop in order.
    CloseAndStop,
    /// Read a message.
    Read(&'a str),
    /// Stop in order.
    Stop,
    /// Give the connection up.
    Fail(String),
    /// Pass on what was gathered.
    Flush,
}

/// The step is what an event on the connection to a venue calls for.
pub open spec fn answers(r: StreamStep<'_>, venue: Venue, event: StreamEvent<'_>) -> bool {
    match event {
        StreamEvent::Cancelled => r is CloseAndStop,
        StreamEvent::Text(text) => r matches StreamStep::Read(t) && t@ == text@,
        StreamEvent::CloseFrame => r is Stop,
        StreamEvent::Failed(e) => r matches StreamStep::Fail(f) && f@ == e@,
        StreamEvent::Ended => r matches StreamStep::Fail(f) && f@ == venue.label() + " ws stream ended"@,
        StreamEvent::OtherFrame => r is Continue,
        StreamEvent::FlushDue => r is Flush,
    }
}

/// What an event on the connection to a venue calls for.
pub fn stream_step<'a>(venue: Venue, event: StreamEvent<'a>) -> (r: StreamStep<'a>)
    ensures
        answers(r, venue, event),
{
    match event {
        StreamEvent::Cancelled => StreamStep::CloseAndStop,
        StreamEvent::Text(text) => StreamStep::Read(text),
        StreamEvent::CloseFrame => StreamStep::Stop,
        StreamEvent::Failed(e) => StreamStep::Fail(e),
        StreamEvent::Ended => StreamStep::Fail(joined(venue.label_text(), " ws stream ended")),
        StreamEvent::OtherFrame => StreamStep::Continue,
        StreamEvent::FlushDue => StreamStep::Flush,
    }
}

/// A name for one asset, and for the first asset the name without it too.
pub open spec fn with_plain(of_asset: Seq<char>, plain: Seq<char>, asset: CryptoAsset) -> Seq<Seq<char>> {
    if asset == CryptoAsset::BTC { seq![of_asset, plain] } else { seq![of_asset] }
}

/// The feeds that are fresh after news on an asset: that of the asset, and for Bitcoin that of
/// the venue as a whole.
pub fn fresh_feeds(venue: Venue, asset: CryptoAsset) -> (r: Vec<String>)
    ensures
        texts(r@) == with_plain(venue.feed() + "_"@ + asset.short_name_text(), venue.feed(), asset),
{
    let mut name: String = joined(venue.feed_text(), "_");
    name.append(asset.short_name());
    let mut out: Vec<String> = Vec::new();
    out.push(name);
    if asset == CryptoAsset::BTC {
        out.push(venue.feed_text().to_owned());
    }
    assert(texts(out@) =~= with_plain(venue.feed() + "_"@ + asset.short_name_text(), venue.feed(), asset));
    out
}

/// The keys under which the state of an asset is published: one of its own, and for Bitcoin that
/// of the venue as a whole.
pub fn state_keys(venue: Venue, asset: CryptoAsset) -> (r: Vec<String>)
    ensures
        texts(r@) == with_plain(
            "crypto:"@ + venue.feed() + ":"@ + asset.short_name_text(),
            "crypto:"@ + venue.feed(),
            asset,
        ),
{
    let plain: String = joined("crypto:", venue.feed_text());
    let mut name: String = joined(plain.as_str(), ":");
    name.append(asset.short_name());
    let mut out: Vec<String> = Vec::new();
    out.push(name);
    if asset == CryptoAsset::BTC {
        out.push(plain);
    }
    assert(texts(out@) =~= with_plain(
        "crypto:"@ + venue.feed() + ":"@ + asset.short_name_text(),
        "crypto:"@ + venue.feed(),
        asset,
    ));
    out
}

/// A connection is stopped in order when it is cancelled or closed, given up when it fails or
/// ends, and goes on in every other case.
pub proof fn connections_end_for_a_reason(r: StreamStep<'_>, venue: Venue, event: StreamEvent<'_>)
    requires
        answers(r, venue, event),
    ensures
        r is Stop || r is CloseAndStop <==> event is Cancelled || event is CloseFrame,
        r is CloseAndStop <==> event is Cancelled,
        r is Fail <==> event is Failed || event is Ended,
        r is Read <==> event is Text,
        r is Flush <==> event is FlushDue,
        r matches StreamStep::Read(t) ==> (event matches StreamEvent::Text(text) && t@ == text@),
        event matches StreamEvent::Failed(e) ==> (r matches StreamStep::Fail(f) && f@ == e@),
{
}

/// The name of an asset always comes first; for Bitcoin, and no other, the plain name follows.
pub proof fn bitcoin_stands_for_its_venue(of_asset: Seq<char>, plain: Seq<char>, asset: CryptoAsset)
    ensures
        with_plain(of_asset, plain, asset)[0] == of_asset,
        asset is BTC ==> with_plain(of_asset, plain, asset).len() == 2 && with_plain(of_asset, plain, asset)[1] == plain,
        !(asset is BTC) ==> with_plain(of_asset, plain, asset).len() == 1,
{
}

/// Venues differ by their feeds.
pub proof fn venues_have_feeds_of_their_own(a: Venue, b: Venue)
    requires
        a != b,
    ensures
        a.feed() != b.feed(),
        a.label() != b.label(),
{
    reveal_strlit("coinbase");
    reveal_strlit("binance_spot");
    reveal_strlit("binance_futures");
    reveal_strlit("binance spot");
    reveal_strlit("binance futures");
    reveal_strlit("deribit");
    assert("coinbase"@.len() == 8 && "binance_spot"@.len() == 12 && "binance_futures"@.len() == 15 && "deribit"@.len()
        == 7 && "binance spot"@.len() == 12 && "binance futures"@.len() == 15);
}

} // verus!
