//! How the edge of each ticker has moved.
use std::collections::VecDeque;
use vstd::prelude::*;
use vstd::string::*;

use crate::crypto_evaluator::GROWTH_LIMIT_BITS;
use crate::float::Float;
use crate::table::Table;
use crate::time::{elapsed, secs, since};

verus! {

/// Seconds that a measurement is kept.
pub const KEPT_SECS: u64 = 60;

/// Measurements below which no trend can be told.
pub const TREND_POINTS: usize = 3;

/// Measurements of the edge, each with its moment.
pub type Track = Seq<(u64, Float)>;

/// The measurements without those at the front that are too old.
pub open spec fn pruned(s: Track, now: u64) -> Track
    decreases s.len(),
{
    if s.len() > 0 && s[0].0 + secs(KEPT_SECS as int) < now { pruned(s.drop_first(), now) } else { s }
}

/// The measurements of the last `span` seconds.
pub open spec fn latest(s: Track, span: u64, now: u64) -> Track {
    s.filter(|p: (u64, Float)| p.0 + secs(span as int) >= now)
}

/// The measurements that a trend is drawn through, where there are enough of them: the moments
/// counted from the first one on.
pub open spec fn trend_line(s: Track, span: u64, now: u64) -> Option<Track> {
    let points = latest(s, span, now);
    if s.len() < TREND_POINTS || points.len() < TREND_POINTS {
        None
    } else {
        Some(points.map_values(|p: (u64, Float)| (since(p.0, points[0].0) as u64, p.1)))
    }
}

/// Measurements by ticker.
pub open spec fn tracks(m: Map<Seq<char>, VecDeque<(u64, Float)>>) -> Map<Seq<char>, Track> {
    m.map_values(|d: VecDeque<(u64, Float)>| d@)
}

/// The measurements of a ticker, none where it is not known.
pub open spec fn track_of(m: Map<Seq<char>, Track>, ticker: Seq<char>) -> Track {
    if m.contains_key(ticker) { m[ticker] } else { Seq::empty() }
}

pub struct EdgeTracker {
    history: Table<VecDeque<(u64, Float)>>,
}

impl View for EdgeTracker {
    type V = Map<Seq<char>, Track>;

    closed spec fn view(&self) -> Map<Seq<char>, Track> {
        tracks(self.history@)
    }
}

/// An edge that grows by `slope` each second is worth waiting for.
pub open spec fn grows(slope: Option<Float>) -> bool {
    slope matches Some(x) && (Float { bits: GROWTH_LIMIT_BITS }).lt(x)
}

/// Whether an edge that grows by `slope` each second is worth waiting for.
pub fn should_wait(slope: Option<Float>) -> (r: bool)
    ensures
        r == grows(slope),
{
    match slope {
        Some(x) => Float::from_bits(GROWTH_LIMIT_BITS).less(x),
        None => false,
    }
}

fn prune(track: &mut VecDeque<(u64, Float)>, now: u64)
    ensures
        final(track)@ == pruned(old(track)@, now),
{
    let ghost all = track@;
    while track.len() > 0 && track[0].0 as u128 + (KEPT_SECS as u128) * 1_000_000_000u128 < now as u128
        invariant
            pruned(track@, now) == pruned(all, now),
        decreases track@.len(),
    {
        let ghost before = track@;
        track.pop_front();
        assert(track@ =~= before.drop_first());
    }
}

impl EdgeTracker {
    pub closed spec fn wf(&self) -> bool {
        self.history.wf()
    }

    pub fn new() -> (r: Self)
        ensures
            r.wf(),
            r@ == Map::<Seq<char>, Track>::empty(),
    {
        let r = EdgeTracker { history: Table::new() };
        assert(r@ =~= Map::<Seq<char>, Track>::empty());
        r
    }

    /// Adds a measurement and drops those that are too old.
    pub fn record(&mut self, ticker: &str, edge: Float, now: u64)
        requires
            old(self).wf(),
        ensures
            final(self).wf(),
            final(self)@ == old(self)@.insert(
                ticker@,
                pruned(track_of(old(self)@, ticker@).push((now, edge)), now),
            ),
    {
        let ghost before = self@;
        let mut track: VecDeque<(u64, Float)> = match self.history.remove(ticker) {
            Some(d) => d,
            None => VecDeque::new(),
        };
        track.push_back((now, edge));
        prune(&mut track, now);
        self.history.insert(ticker.to_owned(), track);
        assert(self@ =~= before.insert(ticker@, track@));
    }

    /// How many measurements of `ticker` are kept.
    pub fn len(&self, ticker: &str) -> (r: usize)
        requires
            self.wf(),
        ensures
            r == track_of(self@, ticker@).len(),
    {
        match self.history.get(ticker) {
            Some(d) => d.len(),
            None => 0,
        }
    }

    /// The measurements that a trend of the last `span` seconds is drawn through; `None` where
    /// there are too few.
    pub fn trend_points(&self, ticker: &str, span: u64, now: u64) -> (r: Option<Vec<(u64, Float)>>)
        requires
            self.wf(),
        ensures
            match r {
                Some(v) => trend_line(track_of(self@, ticker@), span, now) == Some(v@),
                None => trend_line(track_of(self@, ticker@), span, now) is None,
            },
    {
        let track: &VecDeque<(u64, Float)> = match self.history.get(ticker) {
            Some(d) => d,
            None => {
                return None;
            },
        };
        if track.len() < TREND_POINTS {
            return None;
        }
        let ghost near = |p: (u64, Float)| p.0 + secs(span as int) >= now;
        let width: u128 = (span as u128) * 1_000_000_000u128;
        let mut points: Vec<(u64, Float)> = Vec::new();
        let mut i: usize = 0;
        proof {
            reveal(Seq::filter);
            assert(track@.take(0) =~= Seq::<(u64, Float)>::empty());
        }
        while i < track.len()
            invariant
                i <= track@.len(),
                near == (|p: (u64, Float)| p.0 + secs(span as int) >= now),
                width == secs(span as int),
                points@ == track@.take(i as int).filter(near),
            decreases track@.len() - i,
        {
            let p: (u64, Float) = track[i];
            proof {
                reveal(Seq::filter);
                assert(track@.take(i + 1).drop_last() =~= track@.take(i as int));
                assert(track@.take(i + 1).last() == p);
            }
            if p.0 as u128 + width >= now as u128 {
                points.push(p);
            }
            i = i + 1;
        }
        assert(track@.take(track@.len() as int) =~= track@);
        if points.len() < TREND_POINTS {
            return None;
        }
        let anchor: u64 = points[0].0;
        let mut out: Vec<(u64, Float)> = Vec::new();
        let mut j: usize = 0;
        while j < points.len()
            invariant
                j <= points@.len(),
                out@.len() == j,
                forall|k: int| 0 <= k < j ==> #[trigger] out@[k] == (since(points@[k].0, anchor) as u64, points@[k].1),
            decreases points@.len() - j,
        {
            out.push((elapsed(points[j].0, anchor), points[j].1));
            j = j + 1;
        }
        proof {
            let line = points@.map_values(|p: (u64, Float)| (since(p.0, points@[0].0) as u64, p.1));
            assert(out@ =~= line);
        }
        Some(out)
    }
}

/// The newest measurement is always kept.
pub proof fn newest_measurement_is_kept(s: Track, edge: Float, now: u64)
    ensures
        pruned(s.push((now, edge)), now).len() > 0,
        pruned(s.push((now, edge)), now).last() == (now, edge),
    decreases s.len(),
{
    let t = s.push((now, edge));
    if s.len() > 0 && t[0].0 + secs(KEPT_SECS as int) < now {
        newest_measurement_is_kept(s.drop_first(), edge, now);
        assert(t.drop_first() =~= s.drop_first().push((now, edge)));
    }
}

/// What is dropped is older than a minute, and what then stands first is not; the rest keeps its
/// order.
pub proof fn measurements_last_a_minute(s: Track, now: u64) -> (k: int)
    ensures
        0 <= k <= s.len(),
        pruned(s, now) == s.skip(k),
        forall|i: int| 0 <= i < k ==> now - (#[trigger] s[i]).0 > 60_000_000_000,
        k < s.len() ==> now - s[k].0 <= 60_000_000_000,
    decreases s.len(),
{
    if s.len() > 0 && now - s[0].0 > 60_000_000_000 {
        let t = s.drop_first();
        let k = measurements_last_a_minute(t, now);
        assert(t.skip(k) =~= s.skip(k + 1));
        assert forall|i: int| 0 <= i < k + 1 implies now - (#[trigger] s[i]).0 > 60_000_000_000 by {
            if i > 0 {
                assert(t[i - 1] == s[i]);
            }
        }
        k + 1
    } else {
        assert(s.skip(0) =~= s);
        0
    }
}

/// A measurement is among the latest exactly if it lies no more than the span back.
pub proof fn latest_measurements_lie_within_the_span(s: Track, p: (u64, Float), span: u64, now: u64)
    ensures
        latest(Seq::empty(), span, now).len() == 0,
        now - p.0 <= span * 1_000_000_000 ==> latest(s.push(p), span, now) == latest(s, span, now).push(p),
        now - p.0 > span * 1_000_000_000 ==> latest(s.push(p), span, now) == latest(s, span, now),
{
    reveal(Seq::filter);
    assert(s.push(p).drop_last() =~= s);
}

/// A trend is drawn through three measurements or more, all of the latest and no other, each at
/// its distance from the first.
pub proof fn trends_need_three_points(s: Track, span: u64, now: u64)
    ensures
        latest(s, span, now).len() < 3 ==> trend_line(s, span, now) is None,
        latest(s, span, now).len() >= 3 ==> (trend_line(s, span, now) matches Some(line) && line.len() == latest(
            s,
            span,
            now,
        ).len() && (forall|i: int|
            0 <= i < line.len() ==> (#[trigger] line[i]).1 == latest(s, span, now)[i].1 && (latest(
                s,
                span,
                now,
            )[i].0 >= latest(s, span, now)[0].0 ==> line[i].0 == latest(s, span, now)[i].0 - latest(
                s,
                span,
                now,
            )[0].0))),
{
    latest_are_no_more(s, span, now);
}

proof fn latest_are_no_more(s: Track, span: u64, now: u64)
    ensures
        latest(s, span, now).len() <= s.len(),
    decreases s.len(),
{
    reveal(Seq::filter);
    if s.len() > 0 {
        latest_are_no_more(s.drop_last(), span, now);
    }
}

/// An edge is worth waiting for exactly if its growth can be told and exceeds a thousandth each
/// second.
pub proof fn growing_edges_are_waited_for(slope: Float)
    requires
        !slope.not_a_number(),
    ensures
        grows(Some(slope)) <==> slope.rank() > 0x3f50_624d_d2f1_a9fc,
        !grows(None),
{
}

/// The measurements of a ticker that is not known are none.
pub proof fn unknown_tickers_have_no_track(m: Map<Seq<char>, Track>, ticker: Seq<char>, t: Track, other: Seq<char>)
    ensures
        !m.contains_key(ticker) ==> track_of(m, ticker).len() == 0,
        track_of(m.insert(ticker, t), ticker) == t,
        other != ticker ==> track_of(m.insert(ticker, t), other) == track_of(m, other),
{
}

} // verus!
