//! Feed health: how stale each market-data feed is, and which strategies may trade on it.
use dashmap::DashMap;
use vstd::prelude::*;
use vstd::string::*;

use crate::crypto_asset::{names_tell_assets_apart, CryptoAsset};
use crate::dash::{no_stamps, put_stamp, stamp_of, stamps};
use crate::float::{Float, ONE_BITS, QUARTER_BITS, THREE_QUARTERS_BITS};
use crate::text::{joined, same_text, texts};
use crate::time::{elapsed, secs, since, younger_than_secs};

verus! {

/// After how many seconds without an update a feed counts as stale; `None` for a feed that is
/// not watched.
pub open spec fn stale_after(feed: Seq<char>) -> Option<u64> {
    if feed == "kalshi_ws"@ {
        Some(5)
    } else if feed == "coinbase"@ {
        Some(5)
    } else if feed == "binance_spot"@ {
        Some(10)
    } else if feed == "binance_futures"@ {
        Some(5)
    } else if feed == "deribit"@ {
        Some(10)
    } else {
        None
    }
}

/// The usual delay of a watched feed, in seconds.
pub open spec fn usual_delay(feed: Seq<char>) -> u64 {
    if feed == "kalshi_ws"@ {
        2
    } else if feed == "deribit"@ {
        5
    } else {
        1
    }
}

/// The watched feeds.
pub open spec fn watched() -> Seq<Seq<char>> {
    seq!["kalshi_ws"@, "coinbase"@, "binance_spot"@, "binance_futures"@, "deribit"@]
}

/// A feed is fresh if it is not watched, or was updated less than its limit ago.
pub open spec fn fresh(last: Map<Seq<char>, u64>, feed: Seq<char>, now: u64) -> bool {
    match stale_after(feed) {
        None => true,
        Some(limit) => last.contains_key(feed) && since(now, last[feed]) < secs(limit as int),
    }
}

/// The score of a feed: 1 within its usual delay, 0.75 while fresh, 0.25 within twice its
/// limit, 0 beyond that or without any update.
pub open spec fn score(last: Map<Seq<char>, u64>, feed: Seq<char>, now: u64) -> Float {
    match stale_after(feed) {
        None => Float { bits: ONE_BITS },
        Some(limit) => if !last.contains_key(feed) {
            Float { bits: 0 }
        } else if since(now, last[feed]) < secs(usual_delay(feed) as int) {
            Float { bits: ONE_BITS }
        } else if since(now, last[feed]) < secs(limit as int) {
            Float { bits: THREE_QUARTERS_BITS }
        } else if since(now, last[feed]) < secs(2 * limit as int) {
            Float { bits: QUARTER_BITS }
        } else {
            Float { bits: 0 }
        },
    }
}

/// The score of a strategy: crypto has that of its better spot venue, weather that of the
/// exchange feed, any other the full one.
pub open spec fn strategy_score(last: Map<Seq<char>, u64>, signal_type: Seq<char>, now: u64) -> Float {
    if signal_type == "crypto"@ {
        score(last, "binance_spot"@, now).max_of(score(last, "coinbase"@, now))
    } else if signal_type == "weather"@ {
        score(last, "kalshi_ws"@, now)
    } else {
        Float { bits: ONE_BITS }
    }
}

/// The lower of the two strategies' scores.
pub open spec fn system_score(last: Map<Seq<char>, u64>, now: u64) -> Float {
    strategy_score(last, "crypto"@, now).min_of(strategy_score(last, "weather"@, now))
}

/// The feeds whose staleness forbids trading on a signal type; none where trading may go on.
/// Crypto needs one fresh spot venue, weather needs the exchange feed.
pub open spec fn blocking_feeds(last: Map<Seq<char>, u64>, signal_type: Seq<char>, now: u64) -> Seq<
    Seq<char>,
> {
    if signal_type == "crypto"@ {
        if fresh(last, "binance_spot"@, now) || fresh(last, "coinbase"@, now) {
            seq![]
        } else {
            seq!["binance_spot"@, "coinbase"@]
        }
    } else if signal_type == "weather"@ && !fresh(last, "kalshi_ws"@, now) {
        seq!["kalshi_ws"@]
    } else {
        seq![]
    }
}

/// The feed of one asset at a venue.
pub open spec fn feed_of(venue: Seq<char>, asset: CryptoAsset) -> Seq<char> {
    venue + "_"@ + asset.short_name_text()
}

/// The feed of one asset was updated less than the limit of its venue ago.
pub open spec fn asset_fresh(last: Map<Seq<char>, u64>, venue: Seq<char>, asset: CryptoAsset, now: u64) -> bool {
    &&& last.contains_key(feed_of(venue, asset))
    &&& stale_after(venue) matches Some(limit) && since(now, last[feed_of(venue, asset)]) < secs(limit as int)
}

/// The feeds whose staleness forbids trading on an asset; none where one of its spot venues is
/// fresh.
pub open spec fn blocking_feeds_of(last: Map<Seq<char>, u64>, asset: CryptoAsset, now: u64) -> Seq<Seq<char>> {
    if asset_fresh(last, "binance_spot"@, asset, now) || asset_fresh(last, "coinbase"@, asset, now) {
        seq![]
    } else {
        seq![feed_of("binance_spot"@, asset), feed_of("coinbase"@, asset)]
    }
}

/// Health of one feed.
#[derive(Clone, Debug)]
pub struct FeedHealthDetail {
    pub feed: String,
    pub score: Float,
    pub age_ms: Option<u64>,
    pub healthy: bool,
}

impl FeedHealthDetail {
    /// The detail describes `feed` at `now`.
    pub open spec fn describes(&self, last: Map<Seq<char>, u64>, feed: Seq<char>, now: u64) -> bool {
        &&& self.feed@ == feed
        &&& self.score == score(last, feed, now)
        &&& self.healthy == fresh(last, feed, now)
        &&& self.age_ms == (if last.contains_key(feed) {
            Some((since(now, last[feed]) / 1_000_000) as u64)
        } else {
            None
        })
    }
}

/// When each feed last brought data.
pub struct FeedHealth {
    last_update: DashMap<String, u64>,
}

impl View for FeedHealth {
    type V = Map<Seq<char>, u64>;

    closed spec fn view(&self) -> Map<Seq<char>, u64> {
        stamps(self.last_update)
    }
}

fn limit_of(feed: &str) -> (r: Option<u64>)
    ensures
        r == stale_after(feed@),
{
    if same_text(feed, "kalshi_ws") {
        Some(5)
    } else if same_text(feed, "coinbase") {
        Some(5)
    } else if same_text(feed, "binance_spot") {
        Some(10)
    } else if same_text(feed, "binance_futures") {
        Some(5)
    } else if same_text(feed, "deribit") {
        Some(10)
    } else {
        None
    }
}

fn usual_delay_of(feed: &str) -> (r: u64)
    ensures
        r == usual_delay(feed@),
{
    if same_text(feed, "kalshi_ws") {
        2
    } else if same_text(feed, "deribit") {
        5
    } else {
        1
    }
}

impl FeedHealth {
    pub fn new() -> (r: Self)
        ensures
            r@ == Map::<Seq<char>, u64>::empty(),
    {
        let r = FeedHealth { last_update: no_stamps() };
        assert(r@ =~= Map::<Seq<char>, u64>::empty());
        r
    }

    /// Notes that `feed_name` brought data at `now`.
    pub fn record_update(&mut self, feed_name: &str, now: u64)
        ensures
            final(self)@ == old(self)@.insert(feed_name@, now),
    {
        put_stamp(&mut self.last_update, feed_name.to_owned(), now);
    }

    /// Whether `feed_name` is fresh at `now`.
    pub fn is_healthy(&self, feed_name: &str, now: u64) -> (r: bool)
        ensures
            r == fresh(self@, feed_name@, now),
    {
        match limit_of(feed_name) {
            None => true,
            Some(limit) => match stamp_of(&self.last_update, feed_name) {
                Some(last) => younger_than_secs(now, last, limit),
                None => false,
            },
        }
    }

    /// The score of `feed_name` at `now`.
    pub fn health_score(&self, feed_name: &str, now: u64) -> (r: Float)
        ensures
            r == score(self@, feed_name@, now),
    {
        let limit: u64 = match limit_of(feed_name) {
            None => {
                return Float::from_bits(ONE_BITS);
            },
            Some(limit) => limit,
        };
        match stamp_of(&self.last_update, feed_name) {
            Some(last) => if younger_than_secs(now, last, usual_delay_of(feed_name)) {
                Float::from_bits(ONE_BITS)
            } else if younger_than_secs(now, last, limit) {
                Float::from_bits(THREE_QUARTERS_BITS)
            } else if younger_than_secs(now, last, 2 * limit) {
                Float::from_bits(QUARTER_BITS)
            } else {
                Float::from_bits(0)
            },
            None => Float::from_bits(0),
        }
    }

    /// The score of a strategy at `now`.
    pub fn strategy_health(&self, signal_type: &str, now: u64) -> (r: Float)
        ensures
            r == strategy_score(self@, signal_type@, now),
    {
        if same_text(signal_type, "crypto") {
            self.health_score("binance_spot", now).larger(self.health_score("coinbase", now))
        } else if same_text(signal_type, "weather") {
            self.health_score("kalshi_ws", now)
        } else {
            Float::from_bits(ONE_BITS)
        }
    }

    /// The lower of the two strategies' scores.
    pub fn system_health(&self, now: u64) -> (r: Float)
        ensures
            r == system_score(self@, now),
    {
        self.strategy_health("crypto", now).smaller(self.strategy_health("weather", now))
    }

    fn detail(&self, feed: &str, now: u64) -> (r: FeedHealthDetail)
        ensures
            r.describes(self@, feed@, now),
    {
        let age_ms: Option<u64> = match stamp_of(&self.last_update, feed) {
            Some(last) => Some(elapsed(now, last) / 1_000_000),
            None => None,
        };
        FeedHealthDetail {
            feed: feed.to_owned(),
            score: self.health_score(feed, now),
            age_ms,
            healthy: self.is_healthy(feed, now),
        }
    }

    /// The health of every watched feed, in their order.
    pub fn health_detail(&self, now: u64) -> (r: Vec<FeedHealthDetail>)
        ensures
            r@.len() == watched().len(),
            forall|i: int| 0 <= i < r@.len() ==> (#[trigger] r@[i]).describes(self@, watched()[i], now),
    {
        let mut out: Vec<FeedHealthDetail> = Vec::new();
        out.push(self.detail("kalshi_ws", now));
        out.push(self.detail("coinbase", now));
        out.push(self.detail("binance_spot", now));
        out.push(self.detail("binance_futures", now));
        out.push(self.detail("deribit", now));
        out
    }

    /// Whether trading on `signal_type` may go on at `now`; otherwise the feeds that forbid it.
    pub fn required_feeds_healthy(&self, signal_type: &str, now: u64) -> (r: Result<(), Vec<String>>)
        ensures
            match r {
                Ok(_) => blocking_feeds(self@, signal_type@, now).len() == 0,
                Err(stale) => stale@.len() > 0 && texts(stale@) == blocking_feeds(self@, signal_type@, now),
            },
    {
        if same_text(signal_type, "crypto") {
            if self.is_healthy("binance_spot", now) || self.is_healthy("coinbase", now) {
                Ok(())
            } else {
                let mut stale: Vec<String> = Vec::new();
                stale.push("binance_spot".to_owned());
                stale.push("coinbase".to_owned());
                assert(texts(stale@) =~= seq!["binance_spot"@, "coinbase"@]);
                Err(stale)
            }
        } else if same_text(signal_type, "weather") {
            if self.is_healthy("kalshi_ws", now) {
                Ok(())
            } else {
                let mut stale: Vec<String> = Vec::new();
                stale.push("kalshi_ws".to_owned());
                assert(texts(stale@) =~= seq!["kalshi_ws"@]);
                Err(stale)
            }
        } else {
            Ok(())
        }
    }

    fn asset_is_fresh(&self, venue: &str, asset: CryptoAsset, now: u64) -> (r: bool)
        ensures
            r == asset_fresh(self@, venue@, asset, now),
    {
        let mut name: String = joined(venue, "_");
        name.append(asset.short_name());
        match (limit_of(venue), stamp_of(&self.last_update, name.as_str())) {
            (Some(limit), Some(last)) => younger_than_secs(now, last, limit),
            _ => false,
        }
    }

    /// Whether trading on `asset` may go on at `now`; otherwise the feeds that forbid it.
    pub fn required_feeds_healthy_for_asset(&self, asset: CryptoAsset, now: u64) -> (r: Result<(), Vec<String>>)
        ensures
            match r {
                Ok(_) => blocking_feeds_of(self@, asset, now).len() == 0,
                Err(stale) => stale@.len() > 0 && texts(stale@) == blocking_feeds_of(self@, asset, now),
            },
    {
        if self.asset_is_fresh("binance_spot", asset, now) || self.asset_is_fresh("coinbase", asset, now) {
            return Ok(());
        }
        let mut binance: String = "binance_spot_".to_owned();
        let mut coinbase: String = "coinbase_".to_owned();
        binance.append(asset.short_name());
        coinbase.append(asset.short_name());
        let mut stale: Vec<String> = Vec::new();
        stale.push(binance);
        stale.push(coinbase);
        proof {
            reveal_strlit("binance_spot_");
            reveal_strlit("coinbase_");
            reveal_strlit("binance_spot");
            reveal_strlit("coinbase");
            reveal_strlit("_");
            assert(stale@[0]@ =~= feed_of("binance_spot"@, asset));
            assert(stale@[1]@ =~= feed_of("coinbase"@, asset));
            assert(texts(stale@) =~= blocking_feeds_of(self@, asset, now));
        }
        Err(stale)
    }
}

/// News on an asset from a spot venue lets trading on that asset go on, and changes nothing for
/// any other.
pub proof fn assets_have_feeds_of_their_own(
    last: Map<Seq<char>, u64>,
    a: CryptoAsset,
    b: CryptoAsset,
    binance: bool,
    at: u64,
    now: u64,
)
    ensures
        ({
            let venue = if binance { "binance_spot"@ } else { "coinbase"@ };
            let next = last.insert(feed_of(venue, a), at);
            &&& since(now, at) < secs(stale_after(venue)->0 as int) ==> blocking_feeds_of(next, a, now).len() == 0
            &&& a != b ==> blocking_feeds_of(next, b, now) == blocking_feeds_of(last, b, now)
        }),
{
    reveal_strlit("binance_spot");
    reveal_strlit("coinbase");
    reveal_strlit("kalshi_ws");
    assert("binance_spot"@.len() != "coinbase"@.len());
    assert("binance_spot"@.len() != "kalshi_ws"@.len() && "coinbase"@.len() != "kalshi_ws"@.len());
    if a != b {
        names_tell_assets_apart(a, b);
        assert forall|v: Seq<char>| #[trigger] feed_of(v, a) != feed_of(v, b) by {
            let n = v.len() + "_"@.len();
            assert(feed_of(v, a).skip(n as int) =~= a.short_name_text());
            assert(feed_of(v, b).skip(n as int) =~= b.short_name_text());
        }
        assert(feed_of("binance_spot"@, a)[0] == 'b' && feed_of("coinbase"@, b)[0] == 'c');
        assert(feed_of("coinbase"@, a)[0] == 'c' && feed_of("binance_spot"@, b)[0] == 'b');
    }
}

/// A feed is fresh from an update on, until its limit has passed, and no longer.
pub proof fn update_keeps_feed_fresh(last: Map<Seq<char>, u64>, feed: Seq<char>, at: u64, now: u64)
    requires
        stale_after(feed) is Some,
    ensures
        fresh(last.insert(feed, at), feed, now) <==> since(now, at) < secs(stale_after(feed)->0 as int),
{
}

/// An update of one feed leaves every other feed as it was.
pub proof fn update_leaves_other_feeds(
    last: Map<Seq<char>, u64>,
    feed: Seq<char>,
    other: Seq<char>,
    at: u64,
    now: u64,
)
    requires
        feed != other,
    ensures
        fresh(last.insert(feed, at), other, now) == fresh(last, other, now),
        score(last.insert(feed, at), other, now) == score(last, other, now),
{
}

/// A feed is fresh exactly when it scores at least 0.75.
pub proof fn fresh_feeds_score_high(last: Map<Seq<char>, u64>, feed: Seq<char>, now: u64)
    ensures
        fresh(last, feed, now) <==> (Float { bits: THREE_QUARTERS_BITS }).le(score(last, feed, now)),
{
}

/// A strategy may trade exactly when it scores at least 0.75.
pub proof fn tradable_strategies_score_high(last: Map<Seq<char>, u64>, signal_type: Seq<char>, now: u64)
    ensures
        blocking_feeds(last, signal_type, now).len() == 0 <==> (Float { bits: THREE_QUARTERS_BITS }).le(
            strategy_score(last, signal_type, now),
        ),
{
    fresh_feeds_score_high(last, "binance_spot"@, now);
    fresh_feeds_score_high(last, "coinbase"@, now);
    fresh_feeds_score_high(last, "kalshi_ws"@, now);
}

/// Time alone never raises a score.
pub proof fn score_falls_with_age(last: Map<Seq<char>, u64>, feed: Seq<char>, now: u64, later: u64)
    requires
        now <= later,
    ensures
        score(last, feed, later).le(score(last, feed, now)),
{
}

/// A watched feed is fresh exactly while less has passed since its last update than it is allowed:
/// five seconds on the exchange, on Coinbase and on futures, ten on Binance spot and on Deribit. A
/// feed that was never updated is stale, and one that is not watched is always fresh.
pub proof fn feeds_are_fresh_for_their_seconds(last: Map<Seq<char>, u64>, feed: Seq<char>, now: u64)
    ensures
        ({
            let told = last.contains_key(feed);
            let age = now - last[feed];
            &&& feed == "kalshi_ws"@ ==> (fresh(last, feed, now) <==> told && age < 5_000_000_000)
            &&& feed == "coinbase"@ ==> (fresh(last, feed, now) <==> told && age < 5_000_000_000)
            &&& feed == "binance_futures"@ ==> (fresh(last, feed, now) <==> told && age < 5_000_000_000)
            &&& feed == "binance_spot"@ ==> (fresh(last, feed, now) <==> told && age < 10_000_000_000)
            &&& feed == "deribit"@ ==> (fresh(last, feed, now) <==> told && age < 10_000_000_000)
            &&& !watched().contains(feed) ==> fresh(last, feed, now)
        }),
{
    reveal_strlit("kalshi_ws");
    reveal_strlit("coinbase");
    reveal_strlit("binance_spot");
    reveal_strlit("binance_futures");
    reveal_strlit("deribit");
    assert("kalshi_ws"@.len() == 9 && "coinbase"@.len() == 8 && "binance_spot"@.len() == 12
        && "binance_futures"@.len() == 15 && "deribit"@.len() == 7);
    let w = watched();
    assert(w[0] == "kalshi_ws"@ && w[1] == "coinbase"@ && w[2] == "binance_spot"@ && w[3] == "binance_futures"@ && w[4]
        == "deribit"@);
}

/// A feed scores one within its usual delay, three quarters while it is fresh, a quarter until
/// twice its allowance has passed, and nothing after that or without any update.
pub proof fn feeds_score_by_their_age(last: Map<Seq<char>, u64>, feed: Seq<char>, now: u64)
    requires
        last.contains_key(feed),
    ensures
        ({
            let age = now - last[feed];
            let bits = score(last, feed, now).bits;
            let graded = |usual: int, limit: int|
                {
                    &&& age < usual ==> bits == 0x3ff0_0000_0000_0000
                    &&& usual <= age < limit ==> bits == 0x3fe8_0000_0000_0000
                    &&& limit <= age < 2 * limit ==> bits == 0x3fd0_0000_0000_0000
                    &&& 2 * limit <= age ==> bits == 0
                };
            &&& feed == "kalshi_ws"@ ==> graded(2_000_000_000, 5_000_000_000)
            &&& feed == "coinbase"@ ==> graded(1_000_000_000, 5_000_000_000)
            &&& feed == "binance_spot"@ ==> graded(1_000_000_000, 10_000_000_000)
            &&& feed == "binance_futures"@ ==> graded(1_000_000_000, 5_000_000_000)
            &&& feed == "deribit"@ ==> graded(5_000_000_000, 10_000_000_000)
            &&& !watched().contains(feed) ==> bits == 0x3ff0_0000_0000_0000
        }),
        watched().contains(feed) ==> score(last.remove(feed), feed, now).bits == 0,
{
    reveal_strlit("kalshi_ws");
    reveal_strlit("coinbase");
    reveal_strlit("binance_spot");
    reveal_strlit("binance_futures");
    reveal_strlit("deribit");
    assert("kalshi_ws"@.len() == 9 && "coinbase"@.len() == 8 && "binance_spot"@.len() == 12
        && "binance_futures"@.len() == 15 && "deribit"@.len() == 7);
    let w = watched();
    assert(w[0] == "kalshi_ws"@ && w[1] == "coinbase"@ && w[2] == "binance_spot"@ && w[3] == "binance_futures"@ && w[4]
        == "deribit"@);
}

/// Crypto scores as the better of its two spot venues, weather as the exchange, any other strategy
/// in full, and the whole as the worse of crypto and weather.
pub proof fn strategies_score_by_their_feeds(last: Map<Seq<char>, u64>, other: Seq<char>, now: u64)
    requires
        other != "crypto"@ && other != "weather"@,
    ensures
        ({
            let binance = score(last, "binance_spot"@, now);
            let coinbase = score(last, "coinbase"@, now);
            let exchange = score(last, "kalshi_ws"@, now);
            let crypto = strategy_score(last, "crypto"@, now);
            let whole = system_score(last, now);
            &&& binance.le(crypto) && coinbase.le(crypto) && (crypto == binance || crypto == coinbase)
            &&& strategy_score(last, "weather"@, now) == exchange
            &&& strategy_score(last, other, now).bits == 0x3ff0_0000_0000_0000
            &&& whole.le(crypto) && whole.le(exchange) && (whole == crypto || whole == exchange)
        }),
{
    reveal_strlit("crypto");
    reveal_strlit("weather");
    assert("crypto"@.len() != "weather"@.len());
}

/// Crypto is held up exactly while both spot venues are stale, and weather while the exchange is;
/// what is named are these feeds. Any other type is never held up.
pub proof fn stale_feeds_hold_up_their_strategy(last: Map<Seq<char>, u64>, other: Seq<char>, now: u64)
    requires
        other != "crypto"@ && other != "weather"@,
    ensures
        blocking_feeds(last, "crypto"@, now) == (if fresh(last, "binance_spot"@, now) || fresh(last, "coinbase"@, now) {
            Seq::<Seq<char>>::empty()
        } else {
            seq!["binance_spot"@, "coinbase"@]
        }),
        blocking_feeds(last, "weather"@, now) == (if fresh(last, "kalshi_ws"@, now) {
            Seq::<Seq<char>>::empty()
        } else {
            seq!["kalshi_ws"@]
        }),
        blocking_feeds(last, other, now).len() == 0,
{
    reveal_strlit("crypto");
    reveal_strlit("weather");
    assert("crypto"@.len() != "weather"@.len());
}

/// An asset is held up exactly while neither Binance has told it for ten seconds nor Coinbase for
/// five; what is named are the asset's own feeds.
pub proof fn stale_feeds_hold_up_their_asset(last: Map<Seq<char>, u64>, asset: CryptoAsset, now: u64)
    ensures
        ({
            let b = "binance_spot"@ + "_"@ + asset.short_name_text();
            let c = "coinbase"@ + "_"@ + asset.short_name_text();
            let binance = last.contains_key(b) && now - last[b] < 10_000_000_000;
            let coinbase = last.contains_key(c) && now - last[c] < 5_000_000_000;
            blocking_feeds_of(last, asset, now) == (if binance || coinbase {
                Seq::<Seq<char>>::empty()
            } else {
                seq![b, c]
            })
        }),
{
    reveal_strlit("kalshi_ws");
    reveal_strlit("coinbase");
    reveal_strlit("binance_spot");
    assert("kalshi_ws"@.len() == 9 && "coinbase"@.len() == 8 && "binance_spot"@.len() == 12);
}

/// The detail on a feed tells its age in whole milliseconds where it was ever updated, whether it
/// is fresh, and its score.
pub proof fn details_tell_age_and_score(d: FeedHealthDetail, last: Map<Seq<char>, u64>, feed: Seq<char>, now: u64)
    requires
        d.describes(last, feed, now),
    ensures
        d.feed@ == feed && d.score == score(last, feed, now) && d.healthy == fresh(last, feed, now),
        d.age_ms is Some <==> last.contains_key(feed),
        last.contains_key(feed) && last[feed] <= now ==> d.age_ms->0 * 1_000_000 <= now - last[feed] < d.age_ms->0
            * 1_000_000 + 1_000_000,
{
}

} // verus!
