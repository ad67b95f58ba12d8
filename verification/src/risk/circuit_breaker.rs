//! Halts trading when errors or losses pile up.
use vstd::prelude::*;

verus! {

/// A breaker that is tripped, and since when, or is not.
pub struct CircuitBreaker {
    tripped: bool,
    tripped_at: Option<u64>,
}

impl View for CircuitBreaker {
    type V = Option<u64>;

    /// Since when it is tripped; `None` if it is not.
    closed spec fn view(&self) -> Option<u64> {
        self.tripped_at
    }
}

impl CircuitBreaker {
    /// It is tripped if and only if it has been since some moment.
    pub closed spec fn wf(&self) -> bool {
        self.tripped == (self.tripped_at is Some)
    }

    pub fn new() -> (r: Self)
        ensures
            r.wf(),
            r@ is None,
    {
        CircuitBreaker { tripped: false, tripped_at: None }
    }

    /// Trips it at `now`.
    pub fn trip(&mut self, now: u64)
        ensures
            final(self).wf(),
            final(self)@ == Some(now),
    {
        self.tripped = true;
        self.tripped_at = Some(now);
    }

    /// Makes it whole again.
    pub fn reset(&mut self)
        ensures
            final(self).wf(),
            final(self)@ is None,
    {
        self.tripped = false;
        self.tripped_at = None;
    }

    pub fn is_tripped(&self) -> (r: bool)
        requires
            self.wf(),
        ensures
            r == (self@ is Some),
    {
        self.tripped
    }
}

} // verus!
