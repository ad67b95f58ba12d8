//! The last gate before an order.
use vstd::prelude::*;

use crate::float::{order_is_order_of_values, signs_turn_values_round, Float};
use crate::risk::circuit_breaker::CircuitBreaker;

verus! {

/// Gates orders by the breaker and by the loss of the day.
pub struct RiskManager {
    pub max_position: u32,
    pub daily_loss_limit: Float,
    pub circuit_breaker: CircuitBreaker,
    pub daily_pnl: Float,
}

/// An order may go out: nothing is tripped, and the balance has not come down to the limit below
/// zero.
pub open spec fn lets_through(tripped: Option<u64>, balance: Float, limit: Float) -> bool {
    tripped is None && !balance.le(limit.negated())
}

impl RiskManager {
    pub fn new(max_position: u32, daily_loss_limit: Float) -> (r: Self)
        ensures
            r.max_position == max_position,
            r.daily_loss_limit == daily_loss_limit,
            r.circuit_breaker.wf(),
            r.circuit_breaker@ is None,
            r.daily_pnl.bits == 0,
    {
        RiskManager {
            max_position,
            daily_loss_limit,
            circuit_breaker: CircuitBreaker::new(),
            daily_pnl: Float::from_bits(0),
        }
    }

    /// Whether an order may go out: not while the breaker is tripped, nor once the balance has
    /// come down to the limit below zero.
    pub fn allow_order(&self, _ticker: &str, _quantity: u32) -> (r: bool)
        requires
            self.circuit_breaker.wf(),
        ensures
            r == lets_through(self.circuit_breaker@, self.daily_pnl, self.daily_loss_limit),
    {
        !self.circuit_breaker.is_tripped() && !self.daily_pnl.less_eq(self.daily_loss_limit.negative())
    }

    /// Adds an outcome to the balance of the day; `sum` adds two doubles.
    pub fn record_pnl(&mut self, pnl: Float, sum: impl Fn(Float, Float) -> Float)
        requires
            sum.requires((old(self).daily_pnl, pnl)),
        ensures
            sum.ensures((old(self).daily_pnl, pnl), final(self).daily_pnl),
            *final(self) == (RiskManager { daily_pnl: final(self).daily_pnl, ..*old(self) }),
    {
        self.daily_pnl = sum(self.daily_pnl, pnl);
    }
}

/// An order may go out exactly while nothing is tripped and the balance lies above the limit below
/// zero; at the limit it may not.
pub proof fn losses_stop_orders_at_the_limit(tripped: Option<u64>, balance: Float, limit: Float)
    requires
        balance.finite() && limit.finite(),
    ensures
        lets_through(tripped, balance, limit) <==> tripped is None && balance.scaled() > -limit.scaled(),
{
    order_is_order_of_values(balance, limit.negated());
    signs_turn_values_round(limit);
}

} // verus!
