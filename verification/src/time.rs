//! Moments and spans of time: nanoseconds of a monotonic clock, and moments of the wall clock.
use vstd::prelude::*;

verus! {

/// How long before `now` the moment `then` was; nothing where it lies ahead.
pub open spec fn since(now: u64, then: u64) -> int {
    if now >= then { now - then } else { 0 }
}

/// A number of seconds in nanoseconds.
pub open spec fn secs(n: int) -> int {
    n * 1_000_000_000
}

/// Nanoseconds from `then` to `now`, zero where `then` lies ahead.
pub fn elapsed(now: u64, then: u64) -> (r: u64)
    ensures
        r == since(now, then),
{
    if now >= then { now - then } else { 0 }
}

/// Whether less than `limit` seconds have passed from `then` to `now`.
pub fn younger_than_secs(now: u64, then: u64, limit: u64) -> (r: bool)
    ensures
        r == (since(now, then) < secs(limit as int)),
{
    (elapsed(now, then) as u128) < (limit as u128) * 1_000_000_000u128
}

/// A moment of the wall clock: whole seconds since the epoch, and nanoseconds beyond them. In a
/// leap second the nanoseconds go on past those of the second before it.
#[derive(Clone, Copy, Debug, PartialEq, Eq, Structural)]
pub struct Moment {
    pub secs: i64,
    pub nanos: u32,
}

impl Moment {
    /// The seconds since midnight.
    pub open spec fn second_of_day(self) -> int {
        self.secs as int % 86_400
    }

    /// Whether it lies in a leap second.
    pub open spec fn leaps(self) -> bool {
        self.nanos >= 1_000_000_000
    }

    /// Nanoseconds from `earlier` to this moment. A leap second that the one of them lies in
    /// counts where the other is later in its day.
    pub open spec fn nanos_since(self, earlier: Moment) -> int {
        secs(self.secs - earlier.secs) + self.nanos - earlier.nanos + (if self.second_of_day() > earlier.second_of_day()
            && earlier.leaps() {
            secs(1)
        } else if self.second_of_day() < earlier.second_of_day() && self.leaps() {
            -secs(1)
        } else {
            0
        })
    }

    fn day_second(self) -> (r: u32)
        ensures
            r == self.second_of_day(),
    {
        let lifted: u128 = (self.secs as i128 + 86_400 * 0x8000_0000_0000_0000i128) as u128;
        let r: u128 = lifted % 86_400;
        proof {
            vstd::arithmetic::div_mod::lemma_mod_multiples_vanish(0x8000_0000_0000_0000, self.secs as int, 86_400);
        }
        r as u32
    }

    /// Nanoseconds from `earlier` to this moment, negative where it comes first.
    pub fn since(self, earlier: Moment) -> (r: i128)
        ensures
            r == self.nanos_since(earlier),
    {
        let span: i128 = (self.secs as i128 - earlier.secs as i128) * 1_000_000_000i128 + self.nanos as i128
            - earlier.nanos as i128;
        if self.day_second() > earlier.day_second() && earlier.nanos >= 1_000_000_000 {
            span + 1_000_000_000
        } else if self.day_second() < earlier.day_second() && self.nanos >= 1_000_000_000 {
            span - 1_000_000_000
        } else {
            span
        }
    }

    /// The whole seconds from `earlier` to this moment, the rest dropped.
    pub fn seconds_since(self, earlier: Moment) -> (r: i128)
        ensures
            r == whole(self.nanos_since(earlier), 1_000_000_000),
    {
        whole_units(self.since(earlier), 1_000_000_000)
    }
}

/// How many whole units an amount comes to, the rest dropped.
pub open spec fn whole(amount: int, unit: int) -> int {
    if amount >= 0 { amount / unit } else { -((-amount) / unit) }
}

/// How many whole units an amount comes to.
pub fn whole_units(amount: i128, unit: u128) -> (r: i128)
    requires
        unit > 1,
    ensures
        r == whole(amount as int, unit as int),
{
    let size: u128 = if amount >= 0 { amount as u128 } else { (-(amount + 1)) as u128 + 1 };
    let n: u128 = size / unit;
    proof {
        vstd::arithmetic::div_mod::lemma_div_is_ordered_by_denominator(size as int, 2, unit as int);
    }
    if amount >= 0 { n as i128 } else { -(n as i128) }
}

/// A moment is no time away from itself.
pub proof fn no_time_to_itself(m: Moment)
    ensures
        m.nanos_since(m) == 0,
{
}

/// There and back is the same span, with the opposite sign.
pub proof fn spans_are_opposite(a: Moment, b: Moment)
    ensures
        a.nanos_since(b) == -b.nanos_since(a),
{
}

/// Time that has passed is the distance of two moments, and none where the second lies ahead; a
/// second has a thousand million nanoseconds.
pub proof fn time_passes_forward(now: u64, then: u64, n: int)
    ensures
        then <= now ==> since(now, then) == now - then,
        now < then ==> since(now, then) == 0,
        secs(n) == n * 1_000_000_000,
{
}

/// Outside leap seconds the span between two moments is the difference of their distances from
/// the epoch.
pub proof fn spans_are_differences(a: Moment, b: Moment)
    requires
        a.nanos < 1_000_000_000,
        b.nanos < 1_000_000_000,
    ensures
        a.nanos_since(b) == (a.secs * 1_000_000_000 + a.nanos) - (b.secs * 1_000_000_000 + b.nanos),
{
}

/// A leap second makes the span longer by one second for what is later in its day, and for nothing
/// else.
pub proof fn leap_seconds_make_spans_longer(a: Moment, leap: Moment)
    requires
        a.nanos < 1_000_000_000,
        1_000_000_000 <= leap.nanos < 2_000_000_000,
    ensures
        ({
            let plain = (a.secs * 1_000_000_000 + a.nanos) - (leap.secs * 1_000_000_000 + leap.nanos);
            &&& a.secs as int % 86_400 > leap.secs as int % 86_400 ==> a.nanos_since(leap) == plain + 1_000_000_000
            &&& a.secs as int % 86_400 <= leap.secs as int % 86_400 ==> a.nanos_since(leap) == plain
        }),
{
}

/// Whole units and what is dropped make up the amount, and what is dropped is less than a unit and
/// on the same side of zero.
pub proof fn the_rest_is_less_than_a_unit(amount: int, unit: int)
    requires
        unit > 0,
    ensures
        amount >= 0 ==> whole(amount, unit) * unit <= amount < whole(amount, unit) * unit + unit,
        amount < 0 ==> whole(amount, unit) * unit - unit < amount <= whole(amount, unit) * unit,
        whole(-amount, unit) == -whole(amount, unit),
{
    let size = if amount < 0 { -amount } else { amount };
    vstd::arithmetic::div_mod::lemma_fundamental_div_mod(size, unit);
    vstd::arithmetic::div_mod::lemma_mod_bound(size, unit);
    let q = size / unit;
    assert(unit * q == q * unit) by (nonlinear_arith);
    assert((-q) * unit == -(q * unit)) by (nonlinear_arith);
}

} // verus!
