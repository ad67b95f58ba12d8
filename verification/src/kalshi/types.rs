//! Requests to the exchange and what it answers.
use vstd::prelude::*;

verus! {

/// Account balance in cents.
#[derive(Clone, Debug)]
pub struct Balance {
    pub balance: i64,
}

/// An order to be placed.
#[derive(Clone, Debug)]
pub struct OrderRequest {
    pub ticker: String,
    /// `buy` or `sell`.
    pub action: String,
    /// `yes` or `no`.
    pub side: String,
    /// `market` or `limit`.
    pub order_type: String,
    pub count: i64,
    pub yes_price: Option<i64>,
    pub no_price: Option<i64>,
    pub client_order_id: Option<String>,
    pub expiration_time: Option<String>,
}

/// Several orders to be placed at once.
#[derive(Clone, Debug)]
pub struct BatchOrderRequest {
    pub orders: Vec<OrderRequest>,
}

/// What the exchange says of an order.
#[derive(Clone, Debug)]
pub struct Order {
    pub order_id: String,
    pub ticker: String,
    pub status: String,
    pub action: String,
    pub side: String,
    pub order_type: String,
    pub yes_price: Option<i64>,
    pub no_price: Option<i64>,
    pub count: Option<i64>,
    pub remaining_count: Option<i64>,
}

/// A fill told over the socket.
#[derive(Clone, Debug)]
pub struct FillEvent {
    pub trade_id: Option<String>,
    pub order_id: Option<String>,
    pub market_ticker: String,
    pub side: String,
    pub yes_price: Option<i64>,
    pub no_price: Option<i64>,
    pub count: Option<i64>,
    pub action: Option<String>,
    pub is_taker: Option<bool>,
}

/// A position held on the exchange.
#[derive(Clone, Debug)]
pub struct Position {
    pub ticker: String,
    pub market_exposure: Option<i64>,
    pub resting_orders_count: Option<i64>,
    pub total_traded: Option<i64>,
    pub realized_pnl: Option<i64>,
}

#[derive(Debug)]
pub struct BalanceResponse {
    pub balance: i64,
}

#[derive(Debug)]
pub struct PositionsResponse {
    pub market_positions: Vec<Position>,
}

/// Filters of an order query.
#[derive(Debug)]
pub struct OrderQueryParams {
    pub ticker: Option<String>,
    pub status: Option<String>,
}

impl Default for OrderQueryParams {
    fn default() -> (r: Self)
        ensures
            r.ticker is None,
            r.status is None,
    {
        OrderQueryParams { ticker: None, status: None }
    }
}

impl Order {
    /// How many contracts of the order are filled: those ordered less those remaining, where
    /// a count that is not stated is zero; held within the range of the counts.
    pub open spec fn filled_count(&self) -> int {
        let d = stated(self.count) - stated(self.remaining_count);
        if d > i64::MAX {
            i64::MAX as int
        } else if d < i64::MIN {
            i64::MIN as int
        } else {
            d
        }
    }

    /// How many contracts are filled.
    pub fn filled_qty(&self) -> (r: i64)
        ensures
            r == self.filled_count(),
    {
        let count: i64 = match self.count {
            Some(n) => n,
            None => 0,
        };
        let remaining: i64 = match self.remaining_count {
            Some(n) => n,
            None => 0,
        };
        let d: i128 = count as i128 - remaining as i128;
        if d > i64::MAX as i128 {
            i64::MAX
        } else if d < i64::MIN as i128 {
            i64::MIN
        } else {
            d as i64
        }
    }

    /// The price in cents: that of the yes side, failing that the one of the no side.
    pub open spec fn stated_price(&self) -> Option<i64> {
        match self.yes_price {
            Some(p) => Some(p),
            None => self.no_price,
        }
    }

    /// The price in cents, where the exchange states one.
    pub fn price_cents(&self) -> (r: Option<i64>)
        ensures
            r == self.stated_price(),
    {
        match self.yes_price {
            Some(p) => Some(p),
            None => self.no_price,
        }
    }
}

/// A count that may be missing, as a number.
pub open spec fn stated(n: Option<i64>) -> int {
    match n {
        Some(v) => v as int,
        None => 0,
    }
}

/// What is filled and what remains make up what was ordered, unless that is beyond the range; a
/// count that is not stated is zero.
pub proof fn filled_and_remaining_make_the_order(o: Order)
    ensures
        ({
            let count = if o.count is Some { o.count->0 as int } else { 0 };
            let rest = if o.remaining_count is Some { o.remaining_count->0 as int } else { 0 };
            &&& i64::MIN <= o.filled_count() <= i64::MAX
            &&& i64::MIN <= count - rest <= i64::MAX ==> o.filled_count() + rest == count
            &&& count - rest > i64::MAX ==> o.filled_count() == i64::MAX
            &&& count - rest < i64::MIN ==> o.filled_count() == i64::MIN
        }),
        stated(None) == 0,
        forall|n: i64| stated(Some(n)) == n,
{
}

/// The price of yes goes before that of no, and there is none only where neither is stated.
pub proof fn the_yes_price_goes_first(o: Order)
    ensures
        o.yes_price is Some ==> o.stated_price() == o.yes_price,
        o.yes_price is None ==> o.stated_price() == o.no_price,
        o.stated_price() is None <==> o.yes_price is None && o.no_price is None,
{
}

} // verus!
