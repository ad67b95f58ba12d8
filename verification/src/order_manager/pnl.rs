//! Gains and losses of the day.
use vstd::prelude::*;

verus! {

/// What has been won or lost on one day.
#[derive(Clone, Copy, Debug, PartialEq, Eq, Structural)]
pub struct DailyPnl {
    /// The day, counted from a fixed one.
    pub day: i64,
    pub net_pnl_cents: i64,
}

impl DailyPnl {
    /// A loss can be told as a positive number.
    pub open spec fn wf(self) -> bool {
        self.net_pnl_cents > i64::MIN
    }

    /// The balance of `today`.
    pub open spec fn net_on(self, today: i64) -> int {
        if today == self.day { self.net_pnl_cents as int } else { 0 }
    }

    /// The loss of `today`, zero where nothing was lost.
    pub open spec fn loss_on(self, today: i64) -> int {
        if self.net_on(today) < 0 { -self.net_on(today) } else { 0 }
    }

    /// Whether `cents` more can be booked on `today`.
    pub open spec fn can_book(self, cents: int, today: i64) -> bool {
        i64::MIN < self.net_on(today) + cents <= i64::MAX
    }

    pub open spec fn booked(self, cents: int, today: i64) -> DailyPnl {
        DailyPnl { day: today, net_pnl_cents: (self.net_on(today) + cents) as i64 }
    }

    pub fn new(today: i64) -> (r: Self)
        ensures
            r == (DailyPnl { day: today, net_pnl_cents: 0 }),
    {
        DailyPnl { day: today, net_pnl_cents: 0 }
    }

    /// Books a gain or a loss on `today`; a new day starts from nothing.
    pub fn record_pnl(&mut self, cents: i64, today: i64)
        requires
            old(self).can_book(cents as int, today),
        ensures
            *final(self) == old(self).booked(cents as int, today),
    {
        if today != self.day {
            self.day = today;
            self.net_pnl_cents = 0;
        }
        self.net_pnl_cents = self.net_pnl_cents + cents;
    }

    /// The loss of `today`.
    pub fn current_loss(&self, today: i64) -> (r: i64)
        requires
            self.wf(),
        ensures
            r == self.loss_on(today),
    {
        if today != self.day {
            return 0;
        }
        if self.net_pnl_cents < 0 { -self.net_pnl_cents } else { 0 }
    }
}

/// A loss is never negative, and a new day starts without one.
pub proof fn losses_do_not_carry_over(p: DailyPnl, today: i64)
    ensures
        p.loss_on(today) >= 0,
        today != p.day ==> p.loss_on(today) == 0,
{
}

/// Two bookings on one day are one booking of their sum.
pub proof fn bookings_add_up(p: DailyPnl, a: int, b: int, today: i64)
    requires
        p.can_book(a, today),
        p.can_book(a + b, today),
    ensures
        p.booked(a, today).booked(b, today) == p.booked(a + b, today),
{
}

/// What is booked on a day adds to the balance of that day, and a new day starts from nothing;
/// the loss of a day is what its balance lies below zero.
pub proof fn bookings_change_the_balance_by_their_amount(p: DailyPnl, cents: int, today: i64, other: i64)
    requires
        p.can_book(cents, today),
        other != today,
    ensures
        p.day == today ==> p.booked(cents, today).net_pnl_cents == p.net_pnl_cents + cents,
        p.day != today ==> p.booked(cents, today).net_pnl_cents == cents,
        p.booked(cents, today).day == today,
        p.booked(cents, today).loss_on(today) == (if p.net_on(today) + cents < 0 {
            -(p.net_on(today) + cents)
        } else {
            0
        }),
        p.booked(cents, today).loss_on(other) == 0,
        p.net_on(today) == (if p.day == today { p.net_pnl_cents as int } else { 0 }),
{
}

/// Booking is possible as long as the balance fits, and so does its loss.
pub proof fn balances_fit(p: DailyPnl, cents: int, today: i64)
    ensures
        p.can_book(cents, today) <==> -0x7fff_ffff_ffff_ffff <= p.net_on(today) + cents <= 0x7fff_ffff_ffff_ffff,
        p.can_book(cents, today) ==> p.booked(cents, today).wf(),
{
}

} // verus!
