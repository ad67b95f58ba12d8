//! When to connect again.
use vstd::prelude::*;

verus! {

/// The longest wait in seconds.
pub const MAX_BACKOFF_SECS: u64 = 30;

/// Twice the wait, up to the longest.
pub open spec fn doubled_wait(secs: u64) -> u64 {
    if secs >= 15 { MAX_BACKOFF_SECS } else { (2 * secs) as u64 }
}

/// How a feed takes a connection that was closed in order.
#[derive(Clone, Copy, Debug, PartialEq, Eq, Structural)]
pub enum OnClose {
    /// As the end.
    Stop,
    /// As a reason to connect again at once.
    Reconnect,
}

/// How a connection ended.
#[derive(Clone, Copy, Debug, PartialEq, Eq, Structural)]
pub enum Ended {
    Closed,
    Failed,
}

/// What follows.
#[derive(Clone, Copy, Debug, PartialEq, Eq, Structural)]
pub enum Next {
    Stop,
    ConnectNow,
    ConnectAfter(u64),
}

/// The wait before the next attempt, in seconds: one at first, twice as long after every
/// failure.
#[derive(Clone, Copy, Debug, PartialEq, Eq, Structural)]
pub struct Backoff {
    pub secs: u64,
    pub on_close: OnClose,
}

/// What follows the end of a connection, and how long the next wait is.
pub open spec fn follows(before: Backoff, after: Backoff, ended: Ended, r: Next) -> bool {
    match ended {
        Ended::Failed => {
            &&& r == Next::ConnectAfter(before.secs)
            &&& after == (Backoff { secs: doubled_wait(before.secs), ..before })
        },
        Ended::Closed => match before.on_close {
            OnClose::Stop => r == Next::Stop && after == before,
            OnClose::Reconnect => r == Next::ConnectNow && after == (Backoff { secs: 1, ..before }),
        },
    }
}

impl Backoff {
    pub open spec fn wf(self) -> bool {
        1 <= self.secs <= MAX_BACKOFF_SECS
    }

    pub fn new(on_close: OnClose) -> (r: Self)
        ensures
            r.wf(),
            r == (Backoff { secs: 1, on_close }),
    {
        Backoff { secs: 1, on_close }
    }

    /// What follows the end of a connection.
    pub fn next(&mut self, ended: Ended) -> (r: Next)
        requires
            old(self).wf(),
        ensures
            final(self).wf(),
            follows(*old(self), *final(self), ended, r),
    {
        match ended {
            Ended::Failed => {
                let delay: u64 = self.secs;
                self.secs = if delay >= 15 { MAX_BACKOFF_SECS } else { 2 * delay };
                Next::ConnectAfter(delay)
            },
            Ended::Closed => match self.on_close {
                OnClose::Stop => Next::Stop,
                OnClose::Reconnect => {
                    self.secs = 1;
                    Next::ConnectNow
                },
            },
        }
    }
}

/// The wait after so many failures in a row.
pub open spec fn wait_after(failures: nat) -> u64
    decreases failures,
{
    if failures == 0 { 1 } else { doubled_wait(wait_after((failures - 1) as nat)) }
}

/// However many failures there are, the wait is at least a second and at most half a minute;
/// from the fifth failure on it is the longest one.
pub proof fn waits_are_bounded(failures: nat)
    ensures
        1 <= wait_after(failures) <= MAX_BACKOFF_SECS,
        failures >= 5 ==> wait_after(failures) == MAX_BACKOFF_SECS,
    decreases failures,
{
    if failures > 0 {
        waits_are_bounded((failures - 1) as nat);
        reveal_with_fuel(wait_after, 7);
    }
}

/// After a failure the next attempt waits as long as was due, and the one after that twice as long,
/// up to thirty seconds. A connection closed in order ends it, or starts over with a second; only
/// that way is it connected at once.
pub proof fn waits_double_up_to_half_a_minute(before: Backoff, after: Backoff, ended: Ended, r: Next)
    requires
        follows(before, after, ended, r),
        1 <= before.secs <= 30,
    ensures
        ended is Failed ==> r == Next::ConnectAfter(before.secs),
        ended is Failed && before.secs <= 15 ==> after.secs == 2 * before.secs,
        ended is Failed && before.secs > 15 ==> after.secs == 30,
        r is Stop <==> ended is Closed && before.on_close is Stop,
        r is ConnectNow <==> ended is Closed && before.on_close is Reconnect,
        r is ConnectNow ==> after.secs == 1,
        after.on_close == before.on_close,
        1 <= after.secs <= 30,
{
}

} // verus!
