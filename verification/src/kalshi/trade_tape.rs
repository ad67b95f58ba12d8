//! The tape: the most recent trades, and what they say about who is pressing.
use std::collections::VecDeque;
use vstd::prelude::*;
use vstd::string::*;

use crate::text::same_text;

verus! {

/// A trade.
#[derive(Clone, Debug)]
pub struct TradeRecord {
    pub ticker: String,
    pub price_cents: i64,
    pub count: i64,
    /// `yes` or `no`.
    pub taker_side: String,
    /// Nanoseconds of the monotonic clock.
    pub timestamp: u64,
}

/// The tape once `t` has been written on it; the oldest trade makes room. Nothing fits on a tape
/// of size zero.
pub open spec fn recorded(s: Seq<TradeRecord>, t: TradeRecord, max_size: int) -> Seq<TradeRecord> {
    if max_size == 0 {
        s
    } else if s.len() >= max_size {
        s.drop_first().push(t)
    } else {
        s.push(t)
    }
}

/// The trades at the end of the tape, up to the first that lies more than `window` before `now`.
pub open spec fn within(s: Seq<TradeRecord>, window: u64, now: u64) -> Seq<TradeRecord>
    decreases s.len(),
{
    if s.len() == 0 || s.last().timestamp + window < now {
        Seq::empty()
    } else {
        within(s.drop_last(), window, now).push(s.last())
    }
}

/// The number of contracts traded.
pub open spec fn traded(s: Seq<TradeRecord>) -> int
    decreases s.len(),
{
    if s.len() == 0 { 0 } else { traded(s.drop_last()) + s.last().count }
}

/// The number of contracts that takers bought, of yes or of anything else.
pub open spec fn taken(s: Seq<TradeRecord>, yes: bool) -> int
    decreases s.len(),
{
    if s.len() == 0 {
        0
    } else {
        taken(s.drop_last(), yes) + (if (s.last().taker_side@ == "yes"@) == yes { s.last().count as int } else { 0 })
    }
}

/// A fixed number of trades, the oldest first.
pub struct TradeTape {
    trades: VecDeque<TradeRecord>,
    max_size: usize,
}

/// The trades within a window, newest first, as price in cents and count, and how many
/// contracts they come to.
pub struct VwapParts {
    pub trades: Vec<(i64, i64)>,
    pub volume: i128,
}

/// How hard takers press: the contracts of yes less the others, over all of them; `None` where they
/// come to nothing.
pub open spec fn pressed(w: Seq<TradeRecord>) -> Option<(int, int)> {
    if taken(w, true) + taken(w, false) == 0 {
        None
    } else {
        Some((taken(w, true) - taken(w, false), taken(w, true) + taken(w, false)))
    }
}

/// An average by volume is taken from all trades, newest first, as price in cents and count, and
/// from how many contracts they come to, which is not none.
pub open spec fn averages(trades: Seq<(i64, i64)>, volume: int, w: Seq<TradeRecord>) -> bool {
    &&& volume == traded(w)
    &&& volume != 0
    &&& trades.len() == w.len()
    &&& forall|i: int| 0 <= i < w.len() ==> #[trigger] trades[i] == (
        w[w.len() - 1 - i].price_cents,
        w[w.len() - 1 - i].count,
    )
}

impl View for TradeTape {
    type V = Seq<TradeRecord>;

    closed spec fn view(&self) -> Seq<TradeRecord> {
        self.trades@
    }
}

impl TradeTape {
    pub closed spec fn limit(&self) -> int {
        self.max_size as int
    }

    /// There are never more trades than fit.
    pub open spec fn wf(&self) -> bool {
        self@.len() <= self.limit()
    }

    pub fn new(max_size: usize) -> (r: Self)
        ensures
            r.wf(),
            r@ == Seq::<TradeRecord>::empty(),
            r.limit() == max_size,
    {
        TradeTape { trades: VecDeque::new(), max_size }
    }

    /// Writes a trade on the tape.
    pub fn record(&mut self, trade: TradeRecord)
        requires
            old(self).wf(),
        ensures
            final(self).wf(),
            final(self)@ == recorded(old(self)@, trade, old(self).limit()),
            final(self).limit() == old(self).limit(),
    {
        if self.max_size == 0 {
            return;
        }
        let ghost before = self.trades@;
        if self.trades.len() >= self.max_size {
            self.trades.pop_front();
            assert(self.trades@ =~= before.drop_first());
        }
        self.trades.push_back(trade);
    }

    /// How many trades lie within `window` nanoseconds before `now`, from the newest back.
    fn window_len(&self, window: u64, now: u64) -> (r: usize)
        ensures
            r <= self@.len(),
            within(self@, window, now) == self@.skip(self@.len() - r),
    {
        let n: usize = self.trades.len();
        let ghost s = self.trades@;
        let mut k: usize = 0;
        assert(s.take(n as int) =~= s);
        assert(s.skip(n as int) =~= Seq::<TradeRecord>::empty());
        assert(within(s, window, now) =~= within(s, window, now) + s.skip(n as int));
        while k < n
            invariant
                k <= n,
                n == s.len(),
                s == self.trades@,
                within(s, window, now) == within(s.take(n - k), window, now) + s.skip(n - k),
            ensures
                k <= n,
                within(s, window, now) == s.skip(n - k),
            decreases n - k,
        {
            let t: &TradeRecord = &self.trades[n - 1 - k];
            let ghost rest = s.take(n - k);
            assert(rest.last() == *t);
            if (t.timestamp as u128 + window as u128) < now as u128 {
                assert(within(rest, window, now) =~= Seq::<TradeRecord>::empty());
                assert(within(s, window, now) =~= s.skip(n - k));
                break;
            }
            proof {
                assert(rest.drop_last() =~= s.take(n - k - 1));
                assert(within(s, window, now) =~= within(s.take(n - k - 1), window, now) + s.skip(n - k - 1));
            }
            k = k + 1;
            proof {
                if k == n {
                    assert(s.take(0) =~= Seq::<TradeRecord>::empty());
                    assert(within(s, window, now) =~= s.skip(0));
                }
            }
        }
        k
    }

    /// The contracts that takers bought within the window: those of yes, and the others.
    fn pressure(&self, window: u64, now: u64) -> (r: (i128, i128))
        ensures
            r.0 == taken(within(self@, window, now), true),
            r.1 == taken(within(self@, window, now), false),
            -0x8000_0000_0000_0000_0000_0000_0000_0000 <= r.0 + r.1 < 0x8000_0000_0000_0000_0000_0000_0000_0000,
            -0x8000_0000_0000_0000_0000_0000_0000_0000 <= r.0 - r.1 < 0x8000_0000_0000_0000_0000_0000_0000_0000,
    {
        let n: usize = self.trades.len();
        let k: usize = self.window_len(window, now);
        let ghost w = within(self@, window, now);
        let mut yes: i128 = 0;
        let mut no: i128 = 0;
        let mut i: usize = 0;
        while i < k
            invariant
                i <= k <= n,
                n == self.trades@.len(),
                n <= 0xffff_ffff_ffff_ffff,
                w == self.trades@.skip(n - k),
                yes == taken(w.take(i as int), true),
                no == taken(w.take(i as int), false),
                -0x8000_0000_0000_0000 * i <= yes + no <= 0x8000_0000_0000_0000 * i,
                -0x8000_0000_0000_0000 * i <= yes - no <= 0x8000_0000_0000_0000 * i,
            decreases k - i,
        {
            let t: &TradeRecord = &self.trades[n - k + i];
            proof {
                assert(w[i as int] == *t);
                assert(w.take(i + 1).drop_last() =~= w.take(i as int));
                assert(w.take(i + 1).last() == *t);
                assert(0x8000_0000_0000_0000 * i + 0x8000_0000_0000_0000 <= 0x7fff_ffff_ffff_ffff_8000_0000_0000_0000);
            }
            if same_text(t.taker_side.as_str(), "yes") {
                yes = yes + t.count as i128;
            } else {
                no = no + t.count as i128;
            }
            i = i + 1;
        }
        proof {
            assert(w.take(k as int) =~= w);
            assert(0x8000_0000_0000_0000 * k <= 0x7fff_ffff_ffff_ffff_8000_0000_0000_0000);
        }
        (yes, no)
    }

    /// How hard takers press within `window` nanoseconds before `now`: the contracts of yes less
    /// the others, over all of them; `None` where they come to nothing.
    pub fn aggressiveness(&self, window: u64, now: u64) -> (r: Option<(i128, i128)>)
        ensures
            match r {
                Some(f) => pressed(within(self@, window, now)) == Some((f.0 as int, f.1 as int)),
                None => pressed(within(self@, window, now)) is None,
            },
    {
        let p: (i128, i128) = self.pressure(window, now);
        let total: i128 = p.0 + p.1;
        if total == 0 { None } else { Some((p.0 - p.1, total)) }
    }

    /// The contracts traded within `window` nanoseconds before `now`.
    pub fn recent_volume(&self, window: u64, now: u64) -> (r: i128)
        ensures
            r == traded(within(self@, window, now)),
    {
        let p: (i128, i128) = self.pressure(window, now);
        proof {
            all_trades_are_taken(within(self@, window, now));
        }
        p.0 + p.1
    }

    /// What the average price within the window, weighted by volume, is computed from; `None`
    /// where nothing was traded.
    pub fn vwap(&self, window: u64, now: u64) -> (r: Option<VwapParts>)
        ensures
            match r {
                Some(v) => averages(v.trades@, v.volume as int, within(self@, window, now)),
                None => traded(within(self@, window, now)) == 0,
            },
    {
        let volume: i128 = self.recent_volume(window, now);
        if volume == 0 {
            return None;
        }
        let n: usize = self.trades.len();
        let k: usize = self.window_len(window, now);
        let ghost w = within(self@, window, now);
        let mut trades: Vec<(i64, i64)> = Vec::new();
        let mut i: usize = 0;
        while i < k
            invariant
                i <= k <= n,
                n == self.trades@.len(),
                w == self.trades@.skip(n - k),
                trades@.len() == i,
                forall|j: int| 0 <= j < i ==> #[trigger] trades@[j] == (
                    w[w.len() - 1 - j].price_cents,
                    w[w.len() - 1 - j].count,
                ),
            decreases k - i,
        {
            let t: &TradeRecord = &self.trades[n - 1 - i];
            assert(w[w.len() - 1 - i] == *t);
            trades.push((t.price_cents, t.count));
            i = i + 1;
        }
        Some(VwapParts { trades, volume })
    }

    /// The latest trade in `ticker`.
    pub fn last_trade(&self, ticker: &str) -> (r: Option<&TradeRecord>)
        ensures
            match r {
                Some(t) => exists|i: int|
                    0 <= i < self@.len() && *t == #[trigger] self@[i] && t.ticker@ == ticker@ && forall|j: int|
                        i < j < self@.len() ==> (#[trigger] self@[j]).ticker@ != ticker@,
                None => forall|j: int| 0 <= j < self@.len() ==> (#[trigger] self@[j]).ticker@ != ticker@,
            },
    {
        let n: usize = self.trades.len();
        let mut k: usize = 0;
        while k < n
            invariant
                k <= n,
                n == self.trades@.len(),
                forall|j: int| n - k <= j < n ==> (#[trigger] self.trades@[j]).ticker@ != ticker@,
            decreases n - k,
        {
            let t: &TradeRecord = &self.trades[n - 1 - k];
            if same_text(t.ticker.as_str(), ticker) {
                assert(*t == self@[n - 1 - k]);
                return Some(t);
            }
            k = k + 1;
        }
        None
    }

    /// The number of trades on the tape.
    pub fn len(&self) -> (r: usize)
        ensures
            r == self@.len(),
    {
        self.trades.len()
    }

    pub fn is_empty(&self) -> (r: bool)
        ensures
            r == (self@.len() == 0),
    {
        self.trades.len() == 0
    }
}

proof fn all_trades_are_taken(s: Seq<TradeRecord>)
    ensures
        taken(s, true) + taken(s, false) == traded(s),
    decreases s.len(),
{
    if s.len() > 0 {
        all_trades_are_taken(s.drop_last());
    }
}

/// A tape never holds more trades than fit; where any fits, the newest trade is on it, and what
/// is not dropped keeps its order.
pub proof fn tape_keeps_the_newest(s: Seq<TradeRecord>, t: TradeRecord, max_size: int)
    requires
        s.len() <= max_size,
    ensures
        recorded(s, t, max_size).len() == (if s.len() < max_size { s.len() + 1 } else { s.len() }),
        max_size > 0 ==> recorded(s, t, max_size).last() == t,
        max_size > 0 ==> forall|i: int|
            0 <= i < recorded(s, t, max_size).len() - 1 ==> #[trigger] recorded(s, t, max_size)[i] == s[i + s.len() + 1
                - recorded(s, t, max_size).len()],
{
}

/// With no trade sold short, pressure lies between all of one side and all of the other.
pub proof fn pressure_is_bounded(s: Seq<TradeRecord>)
    requires
        forall|i: int| 0 <= i < s.len() ==> (#[trigger] s[i]).count >= 0,
    ensures
        taken(s, true) >= 0,
        taken(s, false) >= 0,
        -traded(s) <= taken(s, true) - taken(s, false) <= traded(s),
    decreases s.len(),
{
    if s.len() > 0 {
        assert forall|i: int| 0 <= i < s.drop_last().len() implies (#[trigger] s.drop_last()[i]).count >= 0 by {
            assert(s[i].count >= 0);
        }
        pressure_is_bounded(s.drop_last());
    }
}

/// What lies within the window is the end of the tape up to the first trade, counted back, that is
/// older than the window; every trade in it is not.
pub proof fn windows_end_at_the_first_old_trade(s: Seq<TradeRecord>, window: u64, now: u64)
    ensures
        ({
            let w = within(s, window, now);
            let k = s.len() - w.len();
            &&& 0 <= k
            &&& w == s.skip(k)
            &&& forall|i: int| k <= i < s.len() ==> now - (#[trigger] s[i]).timestamp <= window
            &&& k > 0 ==> now - s[k - 1].timestamp > window
        }),
    decreases s.len(),
{
    if s.len() == 0 {
        assert(within(s, window, now) =~= s.skip(0));
    } else if s.last().timestamp + window < now {
        assert(within(s, window, now) =~= s.skip(s.len() as int));
    } else {
        let r = s.drop_last();
        windows_end_at_the_first_old_trade(r, window, now);
        let w = within(r, window, now);
        let k = r.len() - w.len();
        assert(within(s, window, now) =~= s.skip(k));
        assert forall|i: int| k <= i < s.len() implies now - (#[trigger] s[i]).timestamp <= window by {
            if i < r.len() {
                assert(r[i] == s[i]);
            }
        }
        if k > 0 {
            assert(r[k - 1] == s[k - 1]);
        }
    }
}

/// Every trade counts with its contracts, on the side that its taker took: yes, or the other.
pub proof fn trades_count_for_their_taker(s: Seq<TradeRecord>, t: TradeRecord)
    ensures
        traded(Seq::empty()) == 0 && taken(Seq::empty(), true) == 0 && taken(Seq::empty(), false) == 0,
        traded(s.push(t)) == traded(s) + t.count,
        t.taker_side@ == "yes"@ ==> taken(s.push(t), true) == taken(s, true) + t.count && taken(s.push(t), false)
            == taken(s, false),
        t.taker_side@ != "yes"@ ==> taken(s.push(t), false) == taken(s, false) + t.count && taken(s.push(t), true)
            == taken(s, true),
        taken(s, true) + taken(s, false) == traded(s),
{
    assert(s.push(t).drop_last() =~= s);
    all_trades_are_taken(s);
}

/// Nothing is written on a tape of size zero; on any other the new trade comes last, and the oldest
/// goes exactly if the tape was full.
pub proof fn full_tapes_drop_the_oldest(s: Seq<TradeRecord>, t: TradeRecord, max_size: int)
    requires
        0 <= max_size,
        s.len() <= max_size,
    ensures
        max_size == 0 ==> recorded(s, t, max_size) == s,
        0 < max_size && s.len() < max_size ==> recorded(s, t, max_size) == s.push(t),
        0 < max_size && s.len() == max_size ==> recorded(s, t, max_size) == s.skip(1).push(t),
{
    assert(s.len() > 0 ==> s.drop_first() =~= s.skip(1));
}

/// Takers press for yes by as much as they take yes beyond the rest: share of yes and share of the
/// rest make up the whole. One more trade of yes presses harder, any other trade less hard.
pub proof fn pressure_weighs_yes_against_the_rest(w: Seq<TradeRecord>, t: TradeRecord)
    requires
        pressed(w) is Some,
        pressed(w.push(t)) is Some,
    ensures
        (pressed(w)->0).0 + (pressed(w)->0).1 == 2 * taken(w, true),
        (pressed(w)->0).1 - (pressed(w)->0).0 == 2 * taken(w, false),
        (pressed(w)->0).1 == traded(w),
        (pressed(w.push(t))->0).1 == (pressed(w)->0).1 + t.count,
        t.taker_side@ == "yes"@ ==> (pressed(w.push(t))->0).0 == (pressed(w)->0).0 + t.count,
        t.taker_side@ != "yes"@ ==> (pressed(w.push(t))->0).0 == (pressed(w)->0).0 - t.count,
{
    trades_count_for_their_taker(w, t);
}

/// An average is taken from every trade with its own price and count, the newest first.
pub proof fn averages_weigh_every_trade(trades: Seq<(i64, i64)>, volume: int, w: Seq<TradeRecord>, i: int)
    requires
        averages(trades, volume, w),
        0 <= i < w.len(),
    ensures
        trades.len() == w.len() && volume == traded(w) && volume != 0,
        trades[w.len() - 1 - i].0 == w[i].price_cents && trades[w.len() - 1 - i].1 == w[i].count,
        trades[0] == (w.last().price_cents, w.last().count),
{
    assert(trades[w.len() - 1 - i] == (w[i].price_cents, w[i].count));
    assert(trades[0] == (w[w.len() - 1].price_cents, w[w.len() - 1].count));
}

} // verus!
