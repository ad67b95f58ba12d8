//! How often crypto signals may fire.
use std::collections::VecDeque;
use vstd::prelude::*;
use vstd::string::*;

use crate::table::Table;
use crate::time::{elapsed, secs, since};

verus! {

/// What the limiter remembers: the last signal of each ticker, and the moments of all signals.
pub struct Fired {
    pub last: Map<Seq<char>, u64>,
    pub moments: Seq<u64>,
}

/// The moments without those at the front that lie more than an hour back.
pub open spec fn within_hour(s: Seq<u64>, now: u64) -> Seq<u64>
    decreases s.len(),
{
    if s.len() > 0 && since(now, s[0]) > secs(3600) { within_hour(s.drop_first(), now) } else { s }
}

impl Fired {
    /// Whole seconds since the last signal of a ticker, if it still rests.
    pub open spec fn resting(self, ticker: Seq<char>, cooldown_secs: u64, now: u64) -> Option<int> {
        if self.last.contains_key(ticker) && since(now, self.last[ticker]) / 1_000_000_000 < cooldown_secs {
            Some(since(now, self.last[ticker]) / 1_000_000_000)
        } else {
            None
        }
    }

    pub open spec fn forgetting(self, now: u64) -> Fired {
        Fired { moments: within_hour(self.moments, now), ..self }
    }

    pub open spec fn firing(self, ticker: Seq<char>, now: u64) -> Fired {
        Fired { last: self.last.insert(ticker, now), moments: self.moments.push(now) }
    }
}

pub struct SignalLimiter {
    last_signal_fired: Table<u64>,
    signal_timestamps: VecDeque<u64>,
}

impl View for SignalLimiter {
    type V = Fired;

    closed spec fn view(&self) -> Fired {
        Fired { last: self.last_signal_fired@, moments: self.signal_timestamps@ }
    }
}

impl SignalLimiter {
    pub closed spec fn wf(&self) -> bool {
        self.last_signal_fired.wf()
    }

    pub fn new() -> (r: Self)
        ensures
            r.wf(),
            r@ == (Fired { last: Map::empty(), moments: Seq::empty() }),
    {
        SignalLimiter { last_signal_fired: Table::new(), signal_timestamps: VecDeque::new() }
    }

    /// Whole seconds since the last signal of `ticker`, if it still rests.
    pub fn resting(&self, ticker: &str, cooldown_secs: u64, now: u64) -> (r: Option<u64>)
        requires
            self.wf(),
        ensures
            match r {
                Some(s) => self@.resting(ticker@, cooldown_secs, now) == Some(s as int),
                None => self@.resting(ticker@, cooldown_secs, now) is None,
            },
    {
        match self.last_signal_fired.get(ticker) {
            Some(last) => {
                let passed: u64 = elapsed(now, *last) / 1_000_000_000;
                if passed < cooldown_secs { Some(passed) } else { None }
            },
            None => None,
        }
    }

    /// Forgets signals that lie more than an hour back, and counts the others.
    pub fn count_hour(&mut self, now: u64) -> (r: usize)
        requires
            old(self).wf(),
        ensures
            final(self).wf(),
            final(self)@ == old(self)@.forgetting(now),
            r == final(self)@.moments.len(),
    {
        let ghost all = self.signal_timestamps@;
        let ghost last = self.last_signal_fired;
        while self.signal_timestamps.len() > 0 && elapsed(now, self.signal_timestamps[0]) > 3_600_000_000_000u64
            invariant
                self.wf(),
                self.last_signal_fired == last,
                within_hour(self.signal_timestamps@, now) == within_hour(all, now),
            decreases self.signal_timestamps@.len(),
        {
            let ghost before = self.signal_timestamps@;
            self.signal_timestamps.pop_front();
            assert(self.signal_timestamps@ =~= before.drop_first());
        }
        self.signal_timestamps.len()
    }

    /// A signal on `ticker` fires.
    pub fn fire(&mut self, ticker: &str, now: u64)
        requires
            old(self).wf(),
        ensures
            final(self).wf(),
            final(self)@ == old(self)@.firing(ticker@, now),
    {
        self.last_signal_fired.insert(ticker.to_owned(), now);
        self.signal_timestamps.push_back(now);
    }
}

/// A ticker rests from a signal on until its cooldown has passed, and no longer.
pub proof fn firing_starts_rest(f: Fired, ticker: Seq<char>, at: u64, now: u64, cooldown_secs: u64)
    requires
        at <= now,
    ensures
        f.firing(ticker, at).resting(ticker, cooldown_secs, now) is Some <==> now - at < secs(cooldown_secs as int),
{
}

/// No moment of the last hour is forgotten.
pub proof fn forgetting_keeps_the_hour(s: Seq<u64>, t: u64, now: u64)
    requires
        s.contains(t),
        since(now, t) <= secs(3600),
    ensures
        within_hour(s, now).contains(t),
    decreases s.len(),
{
    if s.len() > 0 && since(now, s[0]) > secs(3600) {
        let i = choose|i: int| 0 <= i < s.len() && s[i] == t;
        assert(s.drop_first()[i - 1] == t);
        forgetting_keeps_the_hour(s.drop_first(), t, now);
    }
}

/// What is forgotten lies more than an hour back, and the first that is not does not; the rest
/// keeps its order.
pub proof fn the_hour_is_an_hour(s: Seq<u64>, now: u64) -> (k: int)
    ensures
        0 <= k <= s.len(),
        within_hour(s, now) == s.skip(k),
        forall|i: int| 0 <= i < k ==> now - #[trigger] s[i] > 3_600_000_000_000,
        k < s.len() ==> now - s[k] <= 3_600_000_000_000,
    decreases s.len(),
{
    if s.len() > 0 && now - s[0] > 3_600_000_000_000 {
        let t = s.drop_first();
        let k = the_hour_is_an_hour(t, now);
        assert(t.skip(k) =~= s.skip(k + 1));
        assert forall|i: int| 0 <= i < k + 1 implies now - #[trigger] s[i] > 3_600_000_000_000 by {
            if i > 0 {
                assert(t[i - 1] == s[i]);
            }
        }
        k + 1
    } else {
        assert(s.skip(0) =~= s);
        0
    }
}

/// A signal counts once for the hour and starts the rest of its own ticker, of whole seconds; the
/// rest of another ticker stays as it was.
pub proof fn firing_counts_for_its_ticker(f: Fired, ticker: Seq<char>, other: Seq<char>, at: u64, now: u64, cooldown: u64)
    requires
        at <= now,
        other != ticker,
    ensures
        f.firing(ticker, at).moments.len() == f.moments.len() + 1,
        f.firing(ticker, at).moments.last() == at,
        f.firing(ticker, at).resting(ticker, cooldown, now) == (if now - at < cooldown * 1_000_000_000 {
            Some((now - at) / 1_000_000_000)
        } else {
            None
        }),
        f.firing(ticker, at).resting(other, cooldown, now) == f.resting(other, cooldown, now),
        !f.last.contains_key(other) ==> f.resting(other, cooldown, now) is None,
        f.forgetting(now).last == f.last,
{
}

} // verus!
