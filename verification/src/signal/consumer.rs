//! The receiver of signals.
use vstd::prelude::*;

verus! {

/// A receiver of signals that are published elsewhere.
#[derive(Clone, Copy, Debug, PartialEq, Eq, Structural)]
pub struct SignalConsumer {}

impl SignalConsumer {
    pub fn new() -> (r: Self)
        ensures
            r == (SignalConsumer {}),
    {
        SignalConsumer {}
    }
}

} // verus!
