//! Binance spot: trades of several symbols, gathered in bars of one minute.
use std::collections::VecDeque;
use vstd::prelude::*;
use vstd::string::*;

use crate::crypto_asset::CryptoAsset;
use crate::float::{Float, INFINITY_BITS};
use crate::json::{field, get, int_field, int_in, json_of, parse_json, text_field, text_in, Json, JsonView};
use crate::text::{before_first, cut_at, first_place, same_text, stands_at, trim_end, without_trailing};

verus! {

/// Bars that are kept at most.
pub const MAX_BARS: usize = 60;

/// Bars from which an average variance is first taken.
pub const EWMA_INIT_BARS: usize = 10;

/// Bars from which realized volatility is computed.
pub const REALIZED_VOL_BARS: usize = 31;

/// One minute of trading.
#[derive(Clone, Copy, Debug, PartialEq, Eq, Structural)]
pub struct OhlcBar {
    pub open: Float,
    pub high: Float,
    pub low: Float,
    pub close: Float,
    pub volume: Float,
}

/// A trade as a message tells it, price and quantity as text.
#[derive(Debug)]
pub struct SpotTrade {
    pub asset: CryptoAsset,
    pub price: String,
    pub qty: String,
    pub time_ms: i64,
}

/// The first of the followed assets with this symbol.
pub open spec fn symbol_asset(followed: Seq<CryptoAsset>, symbol: Seq<char>) -> Option<CryptoAsset>
    decreases followed.len(),
{
    if followed.len() == 0 {
        None
    } else if followed[0].binance_symbol_upper_text() == symbol {
        Some(followed[0])
    } else {
        symbol_asset(followed.drop_first(), symbol)
    }
}

/// The content of a message: what it wraps, or the message itself.
pub open spec fn content(j: JsonView) -> JsonView {
    match field(j, "data"@) {
        Some(d) => d,
        None => j,
    }
}

/// The trade that a message tells is `t`.
pub open spec fn tells_trade(j: JsonView, followed: Seq<CryptoAsset>, t: SpotTrade) -> bool {
    let d = content(j);
    &&& text_in(field(d, "e"@)) == Some("trade"@)
    &&& text_in(field(d, "s"@)) matches Some(s) && symbol_asset(followed, s) == Some(t.asset)
    &&& text_in(field(d, "p"@)) == Some(t.price@)
    &&& text_in(field(d, "q"@)) == Some(t.qty@)
    &&& int_in(field(d, "T"@)) == Some(t.time_ms)
}

/// A message tells a trade in a followed symbol.
pub open spec fn has_trade(j: JsonView, followed: Seq<CryptoAsset>) -> bool {
    let d = content(j);
    &&& text_in(field(d, "e"@)) == Some("trade"@)
    &&& text_in(field(d, "s"@)) matches Some(s) && symbol_asset(followed, s) is Some
    &&& text_in(field(d, "p"@)) is Some
    &&& text_in(field(d, "q"@)) is Some
    &&& int_in(field(d, "T"@)) is Some
}

fn followed_symbol(followed: &Vec<CryptoAsset>, symbol: &str) -> (r: Option<CryptoAsset>)
    ensures
        r == symbol_asset(followed@, symbol@),
{
    let mut i: usize = 0;
    assert(followed@.skip(0) =~= followed@);
    while i < followed.len()
        invariant
            i <= followed@.len(),
            symbol_asset(followed@, symbol@) == symbol_asset(followed@.skip(i as int), symbol@),
        decreases followed@.len() - i,
    {
        proof {
            assert(followed@.skip(i as int)[0] == followed@[i as int]);
            assert(followed@.skip(i as int).drop_first() =~= followed@.skip(i + 1));
        }
        if same_text(followed[i].binance_symbol_upper(), symbol) {
            return Some(followed[i]);
        }
        i = i + 1;
    }
    assert(followed@.skip(followed@.len() as int) =~= Seq::<CryptoAsset>::empty());
    None
}

/// The trade that a message tells, if it is one in a followed symbol.
pub fn read_spot_trade(j: &Json, followed: &Vec<CryptoAsset>) -> (r: Option<SpotTrade>)
    ensures
        match r {
            Some(t) => tells_trade(j@, followed@, t),
            None => !has_trade(j@, followed@),
        },
{
    let data: &Json = match get(j, "data") {
        Some(d) => d,
        None => j,
    };
    match text_field(data, "e") {
        Some(e) => {
            if !same_text(e, "trade") {
                return None;
            }
        },
        None => {
            return None;
        },
    }
    let asset: CryptoAsset = match text_field(data, "s") {
        Some(s) => match followed_symbol(followed, s) {
            Some(a) => a,
            None => {
                return None;
            },
        },
        None => {
            return None;
        },
    };
    match (text_field(data, "p"), text_field(data, "q"), int_field(data, "T")) {
        (Some(p), Some(q), Some(time_ms)) => Some(
            SpotTrade { asset, price: p.to_owned(), qty: q.to_owned(), time_ms },
        ),
        _ => None,
    }
}

/// The trade that a text from the socket tells.
pub fn parse_binance_spot_message_multi(text: &str, followed: &Vec<CryptoAsset>) -> (r: Option<SpotTrade>)
    ensures
        match json_of(text@) {
            Some(j) => match r {
                Some(t) => tells_trade(j, followed@, t),
                None => !has_trade(j, followed@),
            },
            None => r is None,
        },
{
    match parse_json(text) {
        Some(j) => read_spot_trade(&j, followed),
        None => None,
    }
}

/// The streams of some assets, with slashes between them.
pub open spec fn streams(assets: Seq<CryptoAsset>) -> Seq<char>
    decreases assets.len(),
{
    if assets.len() == 0 {
        Seq::empty()
    } else if assets.len() == 1 {
        assets[0].binance_symbol_text() + "@trade"@
    } else {
        streams(assets.drop_last()) + "/"@ + (assets.last().binance_symbol_text() + "@trade"@)
    }
}

/// The address of the combined stream of some assets at a host, of which the path of a single
/// stream is cut off.
pub open spec fn stream_url(base: Seq<char>, assets: Seq<CryptoAsset>) -> Seq<char> {
    without_trailing(before_first(base, "/ws/"@), '/') + "/stream?streams="@ + streams(assets)
}

/// The address of the combined stream of some assets at a host.
pub fn build_stream_url(base_ws_url: &str, assets: &Vec<CryptoAsset>) -> (r: String)
    ensures
        r@ == stream_url(base_ws_url@, assets@),
{
    let mut list: String = String::new();
    let mut i: usize = 0;
    while i < assets.len()
        invariant
            i <= assets@.len(),
            list@ == streams(assets@.take(i as int)),
        decreases assets@.len() - i,
    {
        let ghost before = list@;
        let ghost after = assets@.take(i + 1);
        proof {
            assert(after.drop_last() =~= assets@.take(i as int));
            assert(after.last() == assets@[i as int]);
        }
        let mut one: String = assets[i].binance_symbol().to_owned();
        one.append("@trade");
        if i > 0 {
            list.append("/");
        }
        list.append(one.as_str());
        proof {
            if i == 0 {
                assert(before + one@ =~= one@);
            }
        }
        i = i + 1;
    }
    assert(assets@.take(assets@.len() as int) =~= assets@);
    let mut out: String = trim_end(cut_at(base_ws_url, "/ws/"), '/').to_owned();
    out.append("/stream?streams=");
    out.append(list.as_str());
    out
}

/// What is known of one asset.
pub struct BinanceSpotAssetState {
    pub spot_price: Float,
    pub current_bar_minute: i64,
    pub current: OhlcBar,
    pub bars_1m: VecDeque<OhlcBar>,
    pub realized_vol_30m: Option<Float>,
    pub ewma_vol_30m: Option<Float>,
    pub ewma_variance: Float,
}

/// The minute that a moment in milliseconds lies in; before the epoch, counted towards it.
pub open spec fn minute_of(time_ms: i64) -> int {
    if time_ms >= 0 { time_ms / 60_000 } else { -((-(time_ms as int)) / 60_000) }
}

/// The bars with another one at the end, of which the oldest makes room.
pub open spec fn with_bar(bars: Seq<OhlcBar>, bar: OhlcBar) -> Seq<OhlcBar> {
    if bars.len() >= MAX_BARS { bars.drop_first().push(bar) } else { bars.push(bar) }
}

/// A bar that a single trade opens.
pub open spec fn opened(price: Float, qty: Float) -> OhlcBar {
    OhlcBar { open: price, high: price, low: price, close: price, volume: qty }
}

/// A bar after one more trade.
pub open spec fn extended(bar: OhlcBar, price: Float, volume: Float) -> OhlcBar {
    OhlcBar {
        high: if bar.high.lt(price) { price } else { bar.high },
        low: if price.lt(bar.low) { price } else { bar.low },
        close: price,
        volume,
        ..bar
    }
}

impl Default for BinanceSpotAssetState {
    fn default() -> (r: Self)
        ensures
            r.spot_price.bits == 0,
            r.current_bar_minute == -1,
            r.current.low.bits == INFINITY_BITS,
            r.bars_1m@ == Seq::<OhlcBar>::empty(),
            r.realized_vol_30m is None,
            r.ewma_vol_30m is None,
            r.ewma_variance.bits == 0,
            r.current.open.bits == 0 && r.current.high.bits == 0 && r.current.close.bits == 0,
            r.current.volume.bits == 0,
    {
        let zero: Float = Float::from_bits(0);
        BinanceSpotAssetState {
            spot_price: zero,
            current_bar_minute: -1,
            current: OhlcBar {
                open: zero,
                high: zero,
                low: Float::from_bits(INFINITY_BITS),
                close: zero,
                volume: zero,
            },
            bars_1m: VecDeque::new(),
            realized_vol_30m: None,
            ewma_vol_30m: None,
            ewma_variance: zero,
        }
    }
}

fn minute(time_ms: i64) -> (r: i64)
    ensures
        r == minute_of(time_ms),
{
    if time_ms >= 0 {
        ((time_ms as u64) / 60_000) as i64
    } else {
        let m: u64 = ((-(time_ms as i128)) as u64) / 60_000;
        -(m as i64)
    }
}

/// Consecutive closes of which the first is positive.
pub open spec fn return_pairs(closes: Seq<Float>) -> Seq<(Float, Float)>
    decreases closes.len(),
{
    if closes.len() < 2 {
        Seq::empty()
    } else {
        let rest = return_pairs(closes.drop_last());
        let a = closes[closes.len() - 2];
        if (Float { bits: 0 }).lt(a) { rest.push((a, closes.last())) } else { rest }
    }
}

/// The closes of the last `n` bars, or of all where there are fewer.
pub open spec fn last_closes(bars: Seq<OhlcBar>, n: int) -> Seq<Float> {
    let start = if bars.len() > n { bars.len() - n } else { 0 };
    bars.skip(start).map_values(|b: OhlcBar| b.close)
}

/// The pairs that realized volatility is computed from; `None` where there are too few.
pub open spec fn realized_pairs(bars: Seq<OhlcBar>) -> Option<Seq<(Float, Float)>> {
    let pairs = return_pairs(last_closes(bars, REALIZED_VOL_BARS as int));
    if bars.len() < REALIZED_VOL_BARS || pairs.len() < 2 { None } else { Some(pairs) }
}

/// What the average variance is brought up to date with.
#[derive(Debug)]
pub struct EwmaInput {
    pub prev_close: Float,
    pub close: Float,
    /// The pairs that a first average is taken from, where there is none yet.
    pub seed: Option<Vec<(Float, Float)>>,
}

/// The average variance is brought up to date once there are two bars, of which the first has a
/// close above zero.
pub open spec fn ewma_due(bars: Seq<OhlcBar>) -> bool {
    bars.len() >= 2 && !bars[bars.len() - 2].close.le(Float { bits: 0 })
}

/// The pairs that a first average is taken from: it is due once there are enough bars and while
/// the variance is zero.
pub open spec fn ewma_seed(bars: Seq<OhlcBar>, variance: Float) -> Option<Seq<(Float, Float)>> {
    let pairs = return_pairs(last_closes(bars, EWMA_INIT_BARS + 1));
    if variance.rank() == 0 && bars.len() >= EWMA_INIT_BARS && pairs.len() > 0 { Some(pairs) } else { None }
}

/// What becomes of the state with a trade: a trade in another minute than the current one opens a
/// new bar, and closes the current one where there is any; `closed` says whether it did.
pub open spec fn took_trade(
    before: BinanceSpotAssetState,
    after: BinanceSpotAssetState,
    closed: bool,
    price: Float,
    qty: Float,
    volume: Float,
    trade_time_ms: i64,
) -> bool {
    let new_minute = minute_of(trade_time_ms) != before.current_bar_minute;
    &&& closed == (new_minute && before.current_bar_minute >= 0)
    &&& after.current == (if new_minute { opened(price, qty) } else { extended(before.current, price, volume) })
    &&& after.bars_1m@ == (if closed { with_bar(before.bars_1m@, before.current) } else { before.bars_1m@ })
    &&& after == (BinanceSpotAssetState {
        spot_price: price,
        current_bar_minute: minute_of(trade_time_ms) as i64,
        current: after.current,
        bars_1m: after.bars_1m,
        ..before
    })
}

/// A trade at a positive price is taken in; one at any other price changes nothing.
pub open spec fn takes(
    before: BinanceSpotAssetState,
    after: BinanceSpotAssetState,
    closed: bool,
    price: Float,
    qty: Float,
    volume: Float,
    trade_time_ms: i64,
) -> bool {
    &&& !(Float { bits: 0 }).lt(price) ==> !closed && after == before
    &&& (Float { bits: 0 }).lt(price) ==> took_trade(before, after, closed, price, qty, volume, trade_time_ms)
}

/// The volumes of the last five bars, newest first, and then of the current one.
pub open spec fn lists_volumes(r: Seq<Float>, bars: Seq<OhlcBar>, current: OhlcBar) -> bool {
    let n = bars.len();
    let k = if n < 5 { n as int } else { 5 };
    &&& r.len() == k + 1
    &&& forall|i: int| 0 <= i < k ==> #[trigger] r[i] == bars[n - 1 - i].volume
    &&& r[k] == current.volume
}

impl BinanceSpotAssetState {
    /// No more bars than are kept.
    pub open spec fn wf(&self) -> bool {
        self.bars_1m@.len() <= MAX_BARS
    }

    /// Takes a trade in. `volume` is the volume of the current bar with the trade's quantity
    /// added. Says whether a bar was closed, so that volatility is to be computed anew.
    pub fn handle_trade(&mut self, price: Float, qty: Float, volume: Float, trade_time_ms: i64) -> (r: bool)
        requires
            old(self).wf(),
        ensures
            final(self).wf(),
            took_trade(*old(self), *final(self), r, price, qty, volume, trade_time_ms),
    {
        let ghost bars = self.bars_1m@;
        self.spot_price = price;
        let current_minute: i64 = minute(trade_time_ms);
        if current_minute != self.current_bar_minute {
            let closes: bool = self.current_bar_minute >= 0;
            if closes {
                if self.bars_1m.len() >= MAX_BARS {
                    self.bars_1m.pop_front();
                    assert(self.bars_1m@ =~= bars.drop_first());
                }
                self.bars_1m.push_back(self.current);
            }
            self.current_bar_minute = current_minute;
            self.current = OhlcBar { open: price, high: price, low: price, close: price, volume: qty };
            closes
        } else {
            let bar: OhlcBar = self.current;
            self.current = OhlcBar {
                open: bar.open,
                high: if bar.high.less(price) { price } else { bar.high },
                low: if price.less(bar.low) { price } else { bar.low },
                close: price,
                volume,
            };
            false
        }
    }

    /// Takes a trade in if its price is positive; one at any other price changes nothing.
    pub fn take_trade(&mut self, price: Float, qty: Float, volume: Float, trade_time_ms: i64) -> (r: bool)
        requires
            old(self).wf(),
        ensures
            final(self).wf(),
            takes(*old(self), *final(self), r, price, qty, volume, trade_time_ms),
    {
        if price.positive() { self.handle_trade(price, qty, volume, trade_time_ms) } else { false }
    }

    /// The volumes of the last five minutes: of the last five bars, newest first, and of the
    /// current one.
    pub fn volume_parts(&self) -> (r: Vec<Float>)
        ensures
            lists_volumes(r@, self.bars_1m@, self.current),
    {
        let n: usize = self.bars_1m.len();
        let k: usize = if n < 5 { n } else { 5 };
        let mut out: Vec<Float> = Vec::new();
        let mut i: usize = 0;
        while i < k
            invariant
                i <= k <= n,
                n == self.bars_1m@.len(),
                out@.len() == i,
                forall|j: int| 0 <= j < i ==> #[trigger] out@[j] == self.bars_1m@[n - 1 - j].volume,
            decreases k - i,
        {
            out.push(self.bars_1m[n - 1 - i].volume);
            i = i + 1;
        }
        out.push(self.current.volume);
        out
    }

    fn pairs_of_last(&self, n: usize) -> (r: Vec<(Float, Float)>)
        ensures
            r@ == return_pairs(last_closes(self.bars_1m@, n as int)),
    {
        let len: usize = self.bars_1m.len();
        let start: usize = if len > n { len - n } else { 0 };
        let ghost closes = last_closes(self.bars_1m@, n as int);
        let mut out: Vec<(Float, Float)> = Vec::new();
        let mut i: usize = start;
        while i < len
            invariant
                start <= i <= len,
                len == self.bars_1m@.len(),
                closes.len() == len - start,
                forall|k: int| 0 <= k < closes.len() ==> #[trigger] closes[k] == self.bars_1m@[start + k].close,
                out@ == return_pairs(closes.take(i - start)),
            decreases len - i,
        {
            let ghost now = closes.take(i + 1 - start);
            proof {
                assert(now.drop_last() =~= closes.take(i - start));
                assert(now.last() == self.bars_1m@[i as int].close);
            }
            if i > start {
                let a: Float = self.bars_1m[i - 1].close;
                assert(now[now.len() - 2] == a);
                if a.positive() {
                    out.push((a, self.bars_1m[i].close));
                }
            }
            i = i + 1;
        }
        assert(closes.take(len - start) =~= closes);
        out
    }

    /// The pairs of closes that realized volatility is computed from.
    pub fn realized_input(&self) -> (r: Option<Vec<(Float, Float)>>)
        ensures
            match r {
                Some(v) => realized_pairs(self.bars_1m@) == Some(v@),
                None => realized_pairs(self.bars_1m@) is None,
            },
    {
        if self.bars_1m.len() < REALIZED_VOL_BARS {
            return None;
        }
        let pairs: Vec<(Float, Float)> = self.pairs_of_last(REALIZED_VOL_BARS);
        if pairs.len() < 2 { None } else { Some(pairs) }
    }

    /// What the average variance is brought up to date with, if it is due.
    pub fn ewma_input(&self) -> (r: Option<EwmaInput>)
        ensures
            match r {
                Some(v) => {
                    let bars = self.bars_1m@;
                    &&& ewma_due(bars)
                    &&& v.prev_close == bars[bars.len() - 2].close
                    &&& v.close == bars.last().close
                    &&& match v.seed {
                        Some(pairs) => ewma_seed(bars, self.ewma_variance) == Some(pairs@),
                        None => ewma_seed(bars, self.ewma_variance) is None,
                    }
                },
                None => !ewma_due(self.bars_1m@),
            },
    {
        let n: usize = self.bars_1m.len();
        if n < 2 {
            return None;
        }
        let prev_close: Float = self.bars_1m[n - 2].close;
        if prev_close.less_eq(Float::from_bits(0)) {
            return None;
        }
        let mut seed: Option<Vec<(Float, Float)>> = None;
        if self.ewma_variance.is_zero() && n >= EWMA_INIT_BARS {
            let pairs: Vec<(Float, Float)> = self.pairs_of_last(EWMA_INIT_BARS + 1);
            if pairs.len() > 0 {
                seed = Some(pairs);
            }
        }
        Some(EwmaInput { prev_close, close: self.bars_1m[n - 1].close, seed })
    }
}

/// A closed bar is always kept, and never more bars than fit.
pub proof fn closed_bars_are_kept(bars: Seq<OhlcBar>, bar: OhlcBar)
    requires
        bars.len() <= MAX_BARS,
    ensures
        with_bar(bars, bar).last() == bar,
        with_bar(bars, bar).len() <= MAX_BARS,
        with_bar(bars, bar).len() >= bars.len(),
{
}

/// A bar's low is never above its high while its prices are numbers.
pub proof fn bars_stay_ordered(bar: OhlcBar, price: Float, qty: Float, volume: Float)
    requires
        !price.not_a_number(),
        bar.low.le(bar.high),
    ensures
        opened(price, qty).low.le(opened(price, qty).high),
        extended(bar, price, volume).low.le(extended(bar, price, volume).high),
        extended(bar, price, volume).low.le(price) && price.le(extended(bar, price, volume).high),
{
}

/// A trade in the minute of the current bar closes nothing and only extends that bar; one in
/// another minute opens a bar at its own price and quantity, and closes the current one if there
/// is any, which then is the last of at most sixty. The price is that of the trade either way.
pub proof fn trades_fill_their_minute(
    before: BinanceSpotAssetState,
    after: BinanceSpotAssetState,
    closed: bool,
    price: Float,
    qty: Float,
    volume: Float,
    time_ms: i64,
)
    requires
        took_trade(before, after, closed, price, qty, volume, time_ms),
        before.bars_1m@.len() <= 60,
        before.current_bar_minute >= -1,
        time_ms >= 0,
    ensures
        after.spot_price == price,
        after.current.close == price,
        after.current_bar_minute * 60_000 <= time_ms < after.current_bar_minute * 60_000 + 60_000,
        after.current_bar_minute == before.current_bar_minute ==> !closed && after.bars_1m@ == before.bars_1m@
            && after.current.open == before.current.open && after.current.volume == volume,
        after.current_bar_minute != before.current_bar_minute ==> after.current.open == price && after.current.high
            == price && after.current.low == price && after.current.volume == qty,
        closed <==> before.current_bar_minute != -1 && after.current_bar_minute != before.current_bar_minute,
        closed ==> after.bars_1m@.len() > 0 && after.bars_1m@.last() == before.current,
        closed && before.bars_1m@.len() < 60 ==> after.bars_1m@.drop_last() == before.bars_1m@,
        closed && before.bars_1m@.len() == 60 ==> after.bars_1m@.drop_last() == before.bars_1m@.skip(1),
        after.bars_1m@.len() <= 60,
        after.realized_vol_30m == before.realized_vol_30m && after.ewma_vol_30m == before.ewma_vol_30m
            && after.ewma_variance == before.ewma_variance,
{
    assert(before.bars_1m@.push(before.current).drop_last() =~= before.bars_1m@);
    assert(before.bars_1m@.len() == 60 ==> before.bars_1m@.drop_first().push(before.current).drop_last()
        =~= before.bars_1m@.skip(1));
}

/// A bar spans its prices: after another trade its high is the greater of the high before and the
/// price, its low the lesser of the low before and the price, it closes at the price and still
/// opens where it did.
pub proof fn bars_span_their_prices(bar: OhlcBar, price: Float, volume: Float)
    requires
        !price.not_a_number() && !bar.high.not_a_number() && !bar.low.not_a_number(),
    ensures
        ({
            let b = extended(bar, price, volume);
            &&& b.high.rank() >= bar.high.rank() && b.high.rank() >= price.rank()
            &&& b.high == bar.high || b.high == price
            &&& b.low.rank() <= bar.low.rank() && b.low.rank() <= price.rank()
            &&& b.low == bar.low || b.low == price
            &&& b.open == bar.open && b.close == price && b.volume == volume
        }),
        ({
            let b = opened(price, volume);
            &&& b.open == price && b.high == price && b.low == price && b.close == price && b.volume == volume
        }),
{
}

/// Moments of one minute have one number, and a minute later the number is one more.
pub proof fn minutes_follow_each_other(time_ms: i64)
    requires
        0 <= time_ms,
        time_ms + 60_000 <= i64::MAX,
    ensures
        minute_of((time_ms + 60_000) as i64) == minute_of(time_ms) + 1,
        minute_of(time_ms) == 0 <==> time_ms < 60_000,
        minute_of((-time_ms) as i64) == -minute_of(time_ms),
{
}

/// The volumes come to those of the last five closed minutes and of the current one.
pub proof fn volumes_of_the_last_minutes(r: Seq<Float>, bars: Seq<OhlcBar>, current: OhlcBar)
    requires
        lists_volumes(r, bars, current),
    ensures
        r.len() <= 6,
        r.len() == 6 <==> bars.len() >= 5,
        r.last() == current.volume,
        r.len() > 1 ==> r[0] == bars.last().volume,
        forall|i: int| 0 <= i < bars.len() && i < 5 ==> r.contains((#[trigger] bars[bars.len() - 1 - i]).volume),
{
    assert forall|i: int| 0 <= i < bars.len() && i < 5 implies r.contains(
        (#[trigger] bars[bars.len() - 1 - i]).volume,
    ) by {
        assert(r[i] == bars[bars.len() - 1 - i].volume);
    }
}

/// Every two closes that follow each other make a return, unless the first of them is not above
/// zero.
pub proof fn closes_make_returns(closes: Seq<Float>, next: Float)
    requires
        closes.len() > 0,
        !closes.last().not_a_number(),
    ensures
        return_pairs(closes.take(1)).len() == 0,
        closes.last().rank() > 0 ==> return_pairs(closes.push(next)) == return_pairs(closes).push(
            (closes.last(), next),
        ),
        closes.last().rank() <= 0 ==> return_pairs(closes.push(next)) == return_pairs(closes),
{
    assert(closes.push(next).drop_last() =~= closes);
}

/// The last closes are those of the newest bars, in their order, and no more than asked for.
pub proof fn last_closes_are_the_newest(bars: Seq<OhlcBar>, n: int)
    requires
        n >= 0,
    ensures
        last_closes(bars, n).len() == (if bars.len() < n { bars.len() as int } else { n }),
        forall|i: int| 0 <= i < last_closes(bars, n).len() ==> (#[trigger] last_closes(bars, n)[i]) == bars[bars.len()
            - last_closes(bars, n).len() + i].close,
{
}

/// Realized volatility is told from the returns of the last thirty-one bars, once there are so
/// many and two returns among them.
pub proof fn realized_volatility_needs_bars(bars: Seq<OhlcBar>)
    ensures
        bars.len() < 31 ==> realized_pairs(bars) is None,
        bars.len() >= 31 ==> ({
            let pairs = return_pairs(bars.skip(bars.len() - 31).map_values(|b: OhlcBar| b.close));
            realized_pairs(bars) == (if pairs.len() >= 2 { Some(pairs) } else { None })
        }),
{
    if bars.len() >= 31 {
        assert(last_closes(bars, 31) =~= bars.skip(bars.len() - 31).map_values(|b: OhlcBar| b.close));
    }
}

/// The average variance is due with the second bar on, if the bar before the last closed above
/// zero. It is first taken, over the returns of the last eleven bars, once there are ten bars and
/// while it is zero.
pub proof fn average_variance_is_seeded_once(bars: Seq<OhlcBar>, variance: Float)
    ensures
        bars.len() < 2 ==> !ewma_due(bars),
        bars.len() >= 2 && !bars[bars.len() - 2].close.not_a_number() ==> (ewma_due(bars) <==> bars[bars.len()
            - 2].close.rank() > 0),
        bars.len() < 10 ==> ewma_seed(bars, variance) is None,
        variance.rank() != 0 ==> ewma_seed(bars, variance) is None,
        bars.len() >= 10 && variance.rank() == 0 ==> ({
            let pairs = return_pairs(last_closes(bars, 11));
            ewma_seed(bars, variance) == (if pairs.len() > 0 { Some(pairs) } else { None })
        }),
{
}

/// A symbol is that of the first asset followed under it, and none where no asset that is followed
/// has it.
pub proof fn symbols_are_followed(followed: Seq<CryptoAsset>, symbol: Seq<char>)
    ensures
        match symbol_asset(followed, symbol) {
            Some(a) => a.binance_symbol_upper_text() == symbol && followed.contains(a),
            None => forall|j: int|
                0 <= j < followed.len() ==> (#[trigger] followed[j]).binance_symbol_upper_text() != symbol,
        },
    decreases followed.len(),
{
    if followed.len() > 0 {
        let t = followed.drop_first();
        symbols_are_followed(t, symbol);
        if followed[0].binance_symbol_upper_text() != symbol {
            match symbol_asset(t, symbol) {
                Some(a) => {
                    let i = choose|i: int| 0 <= i < t.len() && t[i] == a;
                    assert(followed[i + 1] == a);
                },
                None => {
                    assert forall|j: int| 0 <= j < followed.len() implies (#[trigger] followed[j]).binance_symbol_upper_text()
                        != symbol by {
                        if j > 0 {
                            assert(t[j - 1] == followed[j]);
                        }
                    }
                },
            }
        } else {
            assert(followed[0] == symbol_asset(followed, symbol)->0);
        }
    }
}

/// What a message tells is a trade by its event, in the symbol, at the price and of the quantity
/// that it states, at the moment that it states; a message that tells one has one.
pub proof fn trades_are_told_in_full(j: JsonView, followed: Seq<CryptoAsset>, t: SpotTrade)
    requires
        tells_trade(j, followed, t),
    ensures
        has_trade(j, followed),
        followed.contains(t.asset),
        ({
            let d = match field(j, "data"@) {
                Some(inner) => inner,
                None => j,
            };
            &&& field(d, "e"@) == Some(JsonView::Text("trade"@))
            &&& field(d, "s"@) == Some(JsonView::Text(t.asset.binance_symbol_upper_text()))
            &&& field(d, "p"@) == Some(JsonView::Text(t.price@))
            &&& field(d, "q"@) == Some(JsonView::Text(t.qty@))
            &&& field(d, "T"@) matches Some(JsonView::Number(n)) && n.int == Some(t.time_ms)
        }),
{
    let s = text_in(field(content(j), "s"@))->0;
    symbols_are_followed(followed, s);
}

/// A message that states all this on a followed symbol has a trade.
pub proof fn full_messages_have_a_trade(j: JsonView, followed: Seq<CryptoAsset>, i: int)
    requires
        0 <= i < followed.len(),
        field(j, "data"@) is None,
        field(j, "e"@) == Some(JsonView::Text("trade"@)),
        field(j, "s"@) == Some(JsonView::Text(followed[i].binance_symbol_upper_text())),
        field(j, "p"@) matches Some(JsonView::Text(_)),
        field(j, "q"@) matches Some(JsonView::Text(_)),
        field(j, "T"@) matches Some(JsonView::Number(n)) && n.int is Some,
    ensures
        has_trade(j, followed),
{
    symbols_are_followed(followed, followed[i].binance_symbol_upper_text());
}

/// The streams of several assets are named one after the other, with a slash between them.
pub proof fn streams_are_listed(assets: Seq<CryptoAsset>, a: CryptoAsset)
    ensures
        streams(Seq::empty()) == Seq::<char>::empty(),
        streams(assets.push(a)) == (if assets.len() == 0 {
            a.binance_symbol_text() + "@trade"@
        } else {
            streams(assets) + "/"@ + (a.binance_symbol_text() + "@trade"@)
        }),
{
    assert(assets.push(a).drop_last() =~= assets);
}

/// The address of the combined stream is that of the host, whatever single stream its path names,
/// followed by the streams of the assets.
pub proof fn combined_streams_are_at_the_host(host: Seq<char>, path: Seq<char>, assets: Seq<CryptoAsset>)
    requires
        host.len() > 0,
        host.last() != '/',
        forall|i: int| 0 <= i < host.len() ==> !stands_at("/ws/"@, host + "/ws/"@ + path, i),
    ensures
        stream_url(host + "/ws/"@ + path, assets) == host + "/stream?streams="@ + streams(assets),
{
    let p = "/ws/"@;
    let s = host + p + path;
    let n = host.len() as int;
    assert(s.subrange(n, n + p.len()) =~= p);
    assert(stands_at(p, s, n));
    let i = first_place(p, s);
    assert(stands_at(p, s, n) && forall|j: int| 0 <= j < n ==> !stands_at(p, s, j));
    assert(i == n);
    assert(s.take(n) =~= host);
}

/// A trade counts exactly if its price is above zero, and then it is the price from then on.
pub proof fn trades_count_above_zero(
    before: BinanceSpotAssetState,
    after: BinanceSpotAssetState,
    closed: bool,
    price: Float,
    qty: Float,
    volume: Float,
    time_ms: i64,
)
    requires
        takes(before, after, closed, price, qty, volume, time_ms),
        !price.not_a_number(),
    ensures
        price.rank() > 0 ==> after.spot_price == price && after.current.close == price && took_trade(
            before,
            after,
            closed,
            price,
            qty,
            volume,
            time_ms,
        ),
        price.rank() <= 0 ==> after == before && !closed,
{
}

} // verus!
