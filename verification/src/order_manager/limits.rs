//! How often orders may go out.
use std::collections::VecDeque;
use vstd::prelude::*;

use crate::time::secs;

verus! {

/// Past this age a moment counts for no limit any more, in seconds.
pub const HORIZON_SECS: u64 = 300;

/// How many of the moments lie less than `span` seconds before `now`.
pub open spec fn recent(stamps: Seq<u64>, now: u64, span: int) -> nat {
    stamps.filter(|t: u64| t + secs(span) > now).len()
}

/// The moments without those at the front that lie before the horizon.
pub open spec fn trimmed(stamps: Seq<u64>, now: u64) -> Seq<u64>
    decreases stamps.len(),
{
    if stamps.len() > 0 && stamps[0] + secs(HORIZON_SECS as int) < now {
        trimmed(stamps.drop_first(), now)
    } else {
        stamps
    }
}

/// How many of the moments lie less than `span` seconds before `now`.
pub fn count_recent(stamps: &VecDeque<u64>, now: u64, span: u64) -> (r: usize)
    ensures
        r == recent(stamps@, now, span as int),
{
    let ghost near = |t: u64| t + secs(span as int) > now;
    let width: u128 = (span as u128) * 1_000_000_000u128;
    let mut n: usize = 0;
    let mut i: usize = 0;
    while i < stamps.len()
        invariant
            i <= stamps@.len(),
            n <= i,
            near == (|t: u64| t + secs(span as int) > now),
            width == secs(span as int),
            n == stamps@.take(i as int).filter(near).len(),
        decreases stamps@.len() - i,
    {
        let t: u64 = stamps[i];
        proof {
            reveal(Seq::filter);
            assert(stamps@.take(i + 1).drop_last() =~= stamps@.take(i as int));
        }
        if t as u128 + width > now as u128 {
            n = n + 1;
        }
        i = i + 1;
    }
    assert(stamps@.take(stamps@.len() as int) =~= stamps@);
    n
}

/// Adds `now` and drops from the front what lies before the horizon.
pub fn record(stamps: &mut VecDeque<u64>, now: u64)
    ensures
        final(stamps)@ == trimmed(old(stamps)@.push(now), now),
{
    stamps.push_back(now);
    let ghost all = stamps@;
    while stamps.len() > 0 && stamps[0] as u128 + (HORIZON_SECS as u128) * 1_000_000_000u128 < now as u128
        invariant
            trimmed(stamps@, now) == trimmed(all, now),
        decreases stamps@.len(),
    {
        let ghost before = stamps@;
        stamps.pop_front();
        assert(stamps@ =~= before.drop_first());
    }
}

proof fn filter_of_push(s: Seq<u64>, x: u64, p: spec_fn(u64) -> bool)
    ensures
        s.push(x).filter(p) == (if p(x) { s.filter(p).push(x) } else { s.filter(p) }),
{
    reveal(Seq::filter);
    assert(s.push(x).drop_last() =~= s);
}

proof fn filter_of_tail(s: Seq<u64>, p: spec_fn(u64) -> bool)
    requires
        s.len() > 0,
        !p(s[0]),
    ensures
        s.drop_first().filter(p) == s.filter(p),
    decreases s.len(),
{
    reveal(Seq::filter);
    if s.len() == 1 {
        assert(s.drop_first() =~= Seq::<u64>::empty());
        assert(s.drop_last() =~= Seq::<u64>::empty());
    } else {
        filter_of_tail(s.drop_last(), p);
        assert(s.drop_first().drop_last() =~= s.drop_last().drop_first());
    }
}

/// Dropping what lies before the horizon changes no count, now or later.
pub proof fn trimming_keeps_counts(stamps: Seq<u64>, now: u64, later: u64, span: int)
    requires
        now <= later,
        span <= HORIZON_SECS,
    ensures
        recent(trimmed(stamps, now), later, span) == recent(stamps, later, span),
    decreases stamps.len(),
{
    if stamps.len() > 0 && stamps[0] + secs(HORIZON_SECS as int) < now {
        trimming_keeps_counts(stamps.drop_first(), now, later, span);
        filter_of_tail(stamps, |t: u64| t + secs(span) > later);
    }
}

/// An order that goes out counts once, at once.
pub proof fn recording_counts_once(stamps: Seq<u64>, now: u64, span: int)
    requires
        0 < span <= HORIZON_SECS,
    ensures
        recent(trimmed(stamps.push(now), now), now, span) == recent(stamps, now, span) + 1,
{
    trimming_keeps_counts(stamps.push(now), now, now, span);
    filter_of_push(stamps, now, |t: u64| t + secs(span) > now);
}

/// Counts only fall while no order goes out.
pub proof fn counts_fall_with_time(stamps: Seq<u64>, now: u64, later: u64, span: int)
    requires
        now <= later,
    ensures
        recent(stamps, later, span) <= recent(stamps, now, span),
    decreases stamps.len(),
{
    reveal(Seq::filter);
    if stamps.len() > 0 {
        counts_fall_with_time(stamps.drop_last(), now, later, span);
    }
}

/// A moment counts exactly as long as less than the span has passed since.
pub proof fn counts_by_age(stamps: Seq<u64>, at: u64, now: u64, span: int)
    requires
        at <= now,
    ensures
        recent(Seq::empty(), now, span) == 0,
        recent(stamps.push(at), now, span) == recent(stamps, now, span) + (if now - at < span * 1_000_000_000 {
            1nat
        } else {
            0
        }),
{
    filter_of_push(stamps, at, |t: u64| t + secs(span) > now);
    reveal(Seq::filter);
}

/// What is recorded counts from then on until the span has passed, and what was recorded before
/// counts as if nothing had been dropped, for spans up to five minutes.
pub proof fn recording_lasts_its_span(stamps: Seq<u64>, now: u64, later: u64, span: int)
    requires
        now <= later,
        span <= 300,
    ensures
        recent(trimmed(stamps.push(now), now), later, span) == recent(stamps, later, span) + (if later - now < span
            * 1_000_000_000 {
            1nat
        } else {
            0
        }),
{
    trimming_keeps_counts(stamps.push(now), now, later, span);
    counts_by_age(stamps, now, later, span);
}

/// What is dropped is older than five minutes, and what then stands first is not.
pub proof fn trimming_stops_at_five_minutes(stamps: Seq<u64>, now: u64) -> (k: int)
    ensures
        0 <= k <= stamps.len(),
        trimmed(stamps, now) == stamps.skip(k),
        forall|i: int| 0 <= i < k ==> now - #[trigger] stamps[i] > 300_000_000_000,
        k < stamps.len() ==> now - stamps[k] <= 300_000_000_000,
    decreases stamps.len(),
{
    if stamps.len() > 0 && now - stamps[0] > 300_000_000_000 {
        let t = stamps.drop_first();
        let k = trimming_stops_at_five_minutes(t, now);
        assert(t.skip(k) =~= stamps.skip(k + 1));
        assert forall|i: int| 0 <= i < k + 1 implies now - #[trigger] stamps[i] > 300_000_000_000 by {
            if i > 0 {
                assert(t[i - 1] == stamps[i]);
            }
        }
        k + 1
    } else {
        assert(stamps.skip(0) =~= stamps);
        0
    }
}

} // verus!
