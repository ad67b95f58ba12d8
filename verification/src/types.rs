//! Trading signals.
use vstd::prelude::*;

use crate::float::Float;

verus! {

/// How urgent a signal is; the more urgent ones may pass a cooldown.
#[derive(Clone, Copy, Debug, PartialEq, Eq, PartialOrd, Ord, Structural)]
pub enum SignalPriority {
    /// From a polling loop.
    Timer,
    /// A position looked at again.
    Reeval,
    /// Fresh exchange data.
    NewData,
    /// An outcome that is already certain.
    LockDetection,
}

impl Default for SignalPriority {
    fn default() -> (r: Self)
        ensures
            r == SignalPriority::Timer,
    {
        SignalPriority::Timer
    }
}

/// A proposal to enter or leave a position.
#[derive(Clone, Debug)]
pub struct Signal {
    pub ticker: String,
    pub signal_type: String,
    pub action: String,
    pub direction: String,
    pub model_prob: Float,
    pub market_price: Float,
    pub edge: Float,
    pub kelly_fraction: Float,
    pub minutes_remaining: Float,
    pub spread: Float,
    pub order_imbalance: Float,
    pub priority: SignalPriority,
    /// Confidence of the model, from 0 to 1.
    pub confidence: Float,
}

/// Confidence of a signal that states none: 0.5.
pub fn default_confidence() -> (r: Float)
    ensures
        r.bits == 0x3fe0_0000_0000_0000,
{
    Float::from_bits(0x3fe0_0000_0000_0000)
}

} // verus!
