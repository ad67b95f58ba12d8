//! Orders: their states, what may follow what, and their history.
use vstd::prelude::*;
use vstd::string::*;

use crate::crypto_state::CryptoStateInner;
use crate::float::Float;

verus! {

/// Where an order stands.
#[derive(Clone, Copy, Debug, PartialEq, Eq, Structural)]
pub enum OrderState {
    /// Signal received, nothing checked yet.
    Pending,
    /// Checks passed, about to be sent.
    Submitting,
    /// The exchange has it.
    Acknowledged,
    /// Some of it is filled.
    PartialFill,
    /// All of it is filled.
    Filled,
    /// Cancellation is asked for.
    CancelPending,
    /// Cancellation is confirmed.
    Cancelled,
    /// A replacement is under way.
    Replacing,
    /// The exchange refused it.
    Rejected,
    /// Contact was lost; to be reconciled.
    Unknown,
}

impl OrderState {
    /// The states that may follow. Contact can be lost in any state, and reconciliation may
    /// lead from there to any.
    pub open spec fn may_become(self, to: OrderState) -> bool {
        to is Unknown || match self {
            OrderState::Pending => to is Submitting,
            OrderState::Submitting => to is Acknowledged || to is Rejected || to is Filled,
            OrderState::Acknowledged => to is PartialFill || to is Filled || to is Rejected
                || to is CancelPending || to is Replacing,
            OrderState::PartialFill => to is Filled || to is CancelPending || to is Replacing,
            OrderState::CancelPending => to is Cancelled || to is Filled,
            OrderState::Replacing => to is Acknowledged || to is Rejected,
            OrderState::Unknown => true,
            OrderState::Filled | OrderState::Cancelled | OrderState::Rejected => false,
        }
    }

    pub open spec fn terminal(self) -> bool {
        self is Filled || self is Cancelled || self is Rejected
    }

    pub open spec fn filled(self) -> bool {
        self is Filled || self is PartialFill
    }

    pub open spec fn cancellable(self) -> bool {
        self is Acknowledged || self is PartialFill
    }

    pub open spec fn name(self) -> Seq<char> {
        match self {
            OrderState::Pending => "pending"@,
            OrderState::Submitting => "submitting"@,
            OrderState::Acknowledged => "acknowledged"@,
            OrderState::PartialFill => "partial_fill"@,
            OrderState::Filled => "filled"@,
            OrderState::CancelPending => "cancel_pending"@,
            OrderState::Cancelled => "cancelled"@,
            OrderState::Replacing => "replacing"@,
            OrderState::Rejected => "rejected"@,
            OrderState::Unknown => "unknown"@,
        }
    }

    /// The state's name.
    pub fn text(self) -> (r: &'static str)
        ensures
            r@ == self.name(),
    {
        match self {
            OrderState::Pending => "pending",
            OrderState::Submitting => "submitting",
            OrderState::Acknowledged => "acknowledged",
            OrderState::PartialFill => "partial_fill",
            OrderState::Filled => "filled",
            OrderState::CancelPending => "cancel_pending",
            OrderState::Cancelled => "cancelled",
            OrderState::Replacing => "replacing",
            OrderState::Rejected => "rejected",
            OrderState::Unknown => "unknown",
        }
    }

    /// Whether `to` may follow.
    pub fn validate_transition(self, to: OrderState) -> (r: Result<(), &'static str>)
        ensures
            match r {
                Ok(_) => self.may_become(to),
                Err(e) => !self.may_become(to) && e@ == "invalid state transition"@,
            },
    {
        if to == OrderState::Unknown {
            return Ok(());
        }
        match (self, to) {
            (OrderState::Pending, OrderState::Submitting) => Ok(()),
            (OrderState::Submitting, OrderState::Acknowledged) => Ok(()),
            (OrderState::Submitting, OrderState::Rejected) => Ok(()),
            (OrderState::Submitting, OrderState::Filled) => Ok(()),
            (OrderState::Acknowledged, OrderState::PartialFill) => Ok(()),
            (OrderState::Acknowledged, OrderState::Filled) => Ok(()),
            (OrderState::Acknowledged, OrderState::Rejected) => Ok(()),
            (OrderState::Acknowledged, OrderState::CancelPending) => Ok(()),
            (OrderState::Acknowledged, OrderState::Replacing) => Ok(()),
            (OrderState::PartialFill, OrderState::Filled) => Ok(()),
            (OrderState::PartialFill, OrderState::CancelPending) => Ok(()),
            (OrderState::PartialFill, OrderState::Replacing) => Ok(()),
            (OrderState::CancelPending, OrderState::Cancelled) => Ok(()),
            (OrderState::CancelPending, OrderState::Filled) => Ok(()),
            (OrderState::Replacing, OrderState::Acknowledged) => Ok(()),
            (OrderState::Replacing, OrderState::Rejected) => Ok(()),
            (OrderState::Unknown, _) => Ok(()),
            _ => Err("invalid state transition"),
        }
    }

    /// Whether nothing but loss of contact may follow.
    pub fn is_terminal(self) -> (r: bool)
        ensures
            r == self.terminal(),
    {
        matches!(self, OrderState::Filled | OrderState::Cancelled | OrderState::Rejected)
    }

    /// Whether a position, or part of one, is held by it.
    pub fn has_fill(self) -> (r: bool)
        ensures
            r == self.filled(),
    {
        matches!(self, OrderState::Filled | OrderState::PartialFill)
    }

    /// Whether cancellation may be asked for.
    pub fn is_cancellable(self) -> (r: bool)
        ensures
            r == self.cancellable(),
    {
        matches!(self, OrderState::Acknowledged | OrderState::PartialFill)
    }
}

/// Every state can be lost sight of, and anything can be found afterwards.
pub proof fn unknown_is_reached_and_left_freely(s: OrderState)
    ensures
        s.may_become(OrderState::Unknown),
        OrderState::Unknown.may_become(s),
{
}

/// From a terminal state only loss of contact leads on, and no other state is so closed.
pub proof fn terminal_states_are_closed(s: OrderState)
    ensures
        s.terminal() <==> (forall|to: OrderState| s.may_become(to) <==> to is Unknown),
{
    if !s.terminal() {
        let to = match s {
            OrderState::Pending => OrderState::Submitting,
            OrderState::Submitting => OrderState::Filled,
            OrderState::Acknowledged => OrderState::Filled,
            OrderState::PartialFill => OrderState::Filled,
            OrderState::CancelPending => OrderState::Filled,
            OrderState::Replacing => OrderState::Rejected,
            _ => OrderState::Pending,
        };
        assert(s.may_become(to) && !(to is Unknown));
    }
}

/// The price of a fill: cents told by the exchange, or the quote that a paper fill takes.
#[derive(Clone, Copy, Debug, PartialEq, Eq, Structural)]
pub enum FillPrice {
    Cents(i64),
    Quote(Float),
}

/// An order and its history.
#[derive(Clone, Debug)]
pub struct ManagedOrder {
    pub client_order_id: String,
    pub kalshi_order_id: Option<String>,
    pub ticker: String,
    pub signal_type: String,
    pub direction: String,
    pub requested_qty: i64,
    pub filled_qty: i64,
    pub state: OrderState,
    pub created_at: u64,
    pub transitions: Vec<(OrderState, u64)>,
    pub crypto_snapshot: Option<CryptoStateInner>,
    pub model_prob: Float,
    pub market_price: Float,
    pub entry_price: Option<FillPrice>,
    /// Database key of the signal that led to the order.
    pub signal_id: Option<i64>,
    pub latency_ms: Option<i64>,
}

/// An order as its history tells it.
pub struct OrderRecord {
    pub client_order_id: Seq<char>,
    pub kalshi_order_id: Option<Seq<char>>,
    pub ticker: Seq<char>,
    pub signal_type: Seq<char>,
    pub direction: Seq<char>,
    pub requested_qty: i64,
    pub filled_qty: i64,
    pub state: OrderState,
    pub created_at: u64,
    pub transitions: Seq<(OrderState, u64)>,
    pub crypto_snapshot: Option<CryptoStateInner>,
    pub model_prob: Float,
    pub market_price: Float,
    pub entry_price: Option<FillPrice>,
    pub signal_id: Option<i64>,
    pub latency_ms: Option<i64>,
}

impl OrderRecord {
    /// The order once it has moved to `to` at `now`.
    pub open spec fn moved(self, to: OrderState, now: u64) -> OrderRecord {
        OrderRecord { state: to, transitions: self.transitions.push((to, now)), ..self }
    }

    /// The state that a fill of `qty` leads to; `None` where it changes nothing.
    pub open spec fn after_fill(self, qty: i64) -> Option<OrderState> {
        if qty >= self.requested_qty {
            Some(OrderState::Filled)
        } else if qty > 0 {
            Some(OrderState::PartialFill)
        } else {
            None
        }
    }

    /// The order once `qty` of it is filled, told at `now`.
    pub open spec fn took_fill(self, qty: i64, price: Option<FillPrice>, now: u64) -> OrderRecord {
        let told = OrderRecord {
            filled_qty: qty,
            entry_price: if price is Some { price } else { self.entry_price },
            ..self
        };
        match self.after_fill(qty) {
            Some(to) => told.moved(to, now),
            None => told,
        }
    }

    /// The last entry of the history is the state the order is in.
    pub open spec fn wf(self) -> bool {
        self.transitions.len() > 0 && self.transitions.last().0 == self.state
    }

    /// How much of the exposure the order accounts for.
    pub open spec fn exposure(self) -> int {
        if self.state.filled() { self.filled_qty as int } else { 0 }
    }
}

/// A new order, about which nothing has been decided.
pub open spec fn new_record(
    client_order_id: Seq<char>,
    ticker: Seq<char>,
    signal_type: Seq<char>,
    direction: Seq<char>,
    requested_qty: i64,
    model_prob: Float,
    market_price: Float,
    crypto_snapshot: Option<CryptoStateInner>,
    now: u64,
) -> OrderRecord {
    OrderRecord {
        client_order_id,
        kalshi_order_id: None,
        ticker,
        signal_type,
        direction,
        requested_qty,
        filled_qty: 0,
        state: OrderState::Pending,
        created_at: now,
        transitions: seq![(OrderState::Pending, now)],
        crypto_snapshot,
        model_prob,
        market_price,
        entry_price: None,
        signal_id: None,
        latency_ms: None,
    }
}

/// The text that may be there.
pub open spec fn text_of(s: Option<String>) -> Option<Seq<char>> {
    match s {
        Some(t) => Some(t@),
        None => None,
    }
}

impl View for ManagedOrder {
    type V = OrderRecord;

    open spec fn view(&self) -> OrderRecord {
        OrderRecord {
            client_order_id: self.client_order_id@,
            kalshi_order_id: text_of(self.kalshi_order_id),
            ticker: self.ticker@,
            signal_type: self.signal_type@,
            direction: self.direction@,
            requested_qty: self.requested_qty,
            filled_qty: self.filled_qty,
            state: self.state,
            created_at: self.created_at,
            transitions: self.transitions@,
            crypto_snapshot: self.crypto_snapshot,
            model_prob: self.model_prob,
            market_price: self.market_price,
            entry_price: self.entry_price,
            signal_id: self.signal_id,
            latency_ms: self.latency_ms,
        }
    }
}

impl ManagedOrder {
    /// A new order, about which nothing has been decided.
    pub fn new(
        client_order_id: String,
        ticker: String,
        signal_type: String,
        direction: String,
        requested_qty: i64,
        model_prob: Float,
        market_price: Float,
        crypto_snapshot: Option<CryptoStateInner>,
        now: u64,
    ) -> (r: Self)
        ensures
            r@ == new_record(
                client_order_id@,
                ticker@,
                signal_type@,
                direction@,
                requested_qty,
                model_prob,
                market_price,
                crypto_snapshot,
                now,
            ),
    {
        let mut transitions: Vec<(OrderState, u64)> = Vec::new();
        transitions.push((OrderState::Pending, now));
        assert(transitions@ =~= seq![(OrderState::Pending, now)]);
        ManagedOrder {
            client_order_id,
            kalshi_order_id: None,
            ticker,
            signal_type,
            direction,
            requested_qty,
            filled_qty: 0,
            state: OrderState::Pending,
            created_at: now,
            transitions,
            crypto_snapshot,
            model_prob,
            market_price,
            entry_price: None,
            signal_id: None,
            latency_ms: None,
        }
    }

    /// A copy of the order.
    pub fn copy(&self) -> (r: Self)
        ensures
            r@ == self@,
    {
        let mut transitions: Vec<(OrderState, u64)> = Vec::new();
        let mut i: usize = 0;
        while i < self.transitions.len()
            invariant
                i <= self.transitions@.len(),
                transitions@ == self.transitions@.take(i as int),
            decreases self.transitions@.len() - i,
        {
            let step: (OrderState, u64) = self.transitions[i];
            transitions.push(step);
            assert(transitions@ =~= self.transitions@.take(i + 1));
            i = i + 1;
        }
        assert(transitions@ =~= self.transitions@);
        ManagedOrder {
            client_order_id: self.client_order_id.clone(),
            kalshi_order_id: match &self.kalshi_order_id {
                Some(id) => Some(id.clone()),
                None => None,
            },
            ticker: self.ticker.clone(),
            signal_type: self.signal_type.clone(),
            direction: self.direction.clone(),
            requested_qty: self.requested_qty,
            filled_qty: self.filled_qty,
            state: self.state,
            created_at: self.created_at,
            transitions,
            crypto_snapshot: self.crypto_snapshot,
            model_prob: self.model_prob,
            market_price: self.market_price,
            entry_price: self.entry_price,
            signal_id: self.signal_id,
            latency_ms: self.latency_ms,
        }
    }

    /// Moves the order to `to` and says whether it may go there. It goes there either way: a
    /// caller that insists on the rules stops on `false`, any other logs it.
    pub fn transition(&mut self, to: OrderState, now: u64) -> (r: bool)
        ensures
            r == old(self).state.may_become(to),
            final(self)@ == old(self)@.moved(to, now),
    {
        let valid: bool = self.state.validate_transition(to).is_ok();
        self.state = to;
        self.transitions.push((to, now));
        valid
    }

    /// Takes note of a fill and says whether the order may go where the fill leads it.
    pub fn record_fill(&mut self, filled_qty: i64, fill_price: Option<FillPrice>, now: u64) -> (r: bool)
        ensures
            final(self)@ == old(self)@.took_fill(filled_qty, fill_price, now),
            r == (match old(self)@.after_fill(filled_qty) {
                Some(to) => old(self).state.may_become(to),
                None => true,
            }),
    {
        self.filled_qty = filled_qty;
        if fill_price.is_some() {
            self.entry_price = fill_price;
        }
        if self.filled_qty >= self.requested_qty {
            self.transition(OrderState::Filled, now)
        } else if self.filled_qty > 0 {
            self.transition(OrderState::PartialFill, now)
        } else {
            true
        }
    }
}

/// The history always ends with the state the order is in.
pub proof fn history_ends_in_state(o: OrderRecord, to: OrderState, qty: i64, price: Option<FillPrice>, now: u64)
    ensures
        o.moved(to, now).wf(),
        o.wf() ==> o.took_fill(qty, price, now).wf(),
{
}

/// Each state is entered from where it may be, and from nowhere else.
pub proof fn states_are_entered_lawfully(s: OrderState)
    ensures
        s.may_become(OrderState::Pending) <==> s is Unknown,
        s.may_become(OrderState::Submitting) <==> s is Unknown || s is Pending,
        s.may_become(OrderState::Acknowledged) <==> s is Unknown || s is Submitting || s is Replacing,
        s.may_become(OrderState::PartialFill) <==> s is Unknown || s is Acknowledged,
        s.may_become(OrderState::Filled) <==> s is Unknown || s is Submitting || s is Acknowledged || s is PartialFill
            || s is CancelPending,
        s.may_become(OrderState::CancelPending) <==> s is Unknown || s is Acknowledged || s is PartialFill,
        s.may_become(OrderState::Cancelled) <==> s is Unknown || s is CancelPending,
        s.may_become(OrderState::Replacing) <==> s is Unknown || s is Acknowledged || s is PartialFill,
        s.may_become(OrderState::Rejected) <==> s is Unknown || s is Submitting || s is Acknowledged || s is Replacing,
{
}

/// An order can be cancelled exactly where cancellation may follow by the rules, and holds
/// contracts exactly where it is filled in full or in part; no state is both closed and
/// cancellable.
pub proof fn cancellation_follows_the_rules(s: OrderState)
    ensures
        s.cancellable() <==> s.may_become(OrderState::CancelPending) && !(s is Unknown),
        s.filled() <==> s == OrderState::Filled || s == OrderState::PartialFill,
        s.terminal() <==> s == OrderState::Filled || s == OrderState::Cancelled || s == OrderState::Rejected,
        !(s.terminal() && s.cancellable()),
{
}

/// Every state has a name of its own, by which it is stored.
pub proof fn states_have_their_names(s: OrderState)
    ensures
        s is Pending <==> s.name() == "pending"@,
        s is Submitting <==> s.name() == "submitting"@,
        s is Acknowledged <==> s.name() == "acknowledged"@,
        s is PartialFill <==> s.name() == "partial_fill"@,
        s is Filled <==> s.name() == "filled"@,
        s is CancelPending <==> s.name() == "cancel_pending"@,
        s is Cancelled <==> s.name() == "cancelled"@,
        s is Replacing <==> s.name() == "replacing"@,
        s is Rejected <==> s.name() == "rejected"@,
        s is Unknown <==> s.name() == "unknown"@,
{
    reveal_strlit("pending");
    reveal_strlit("submitting");
    reveal_strlit("acknowledged");
    reveal_strlit("partial_fill");
    reveal_strlit("filled");
    reveal_strlit("cancel_pending");
    reveal_strlit("cancelled");
    reveal_strlit("replacing");
    reveal_strlit("rejected");
    reveal_strlit("unknown");
    assert("pending"@.len() == 7 && "pending"@[0] == 'p');
    assert("unknown"@.len() == 7 && "unknown"@[0] == 'u');
    assert("submitting"@.len() == 10);
    assert("acknowledged"@.len() == 12 && "acknowledged"@[0] == 'a');
    assert("partial_fill"@.len() == 12 && "partial_fill"@[0] == 'p');
    assert("filled"@.len() == 6);
    assert("cancel_pending"@.len() == 14);
    assert("cancelled"@.len() == 9 && "cancelled"@[0] == 'c');
    assert("replacing"@.len() == 9 && "replacing"@[0] == 'r');
    assert("rejected"@.len() == 8);
}

/// A new order is pending and has nothing but what it was made of.
pub proof fn new_orders_are_pending(
    id: Seq<char>,
    ticker: Seq<char>,
    signal_type: Seq<char>,
    direction: Seq<char>,
    qty: i64,
    prob: Float,
    price: Float,
    snapshot: Option<CryptoStateInner>,
    now: u64,
    to: OrderState,
)
    ensures
        ({
            let o = new_record(id, ticker, signal_type, direction, qty, prob, price, snapshot, now);
            &&& o.client_order_id == id && o.ticker == ticker && o.signal_type == signal_type && o.direction == direction
            &&& o.requested_qty == qty && o.filled_qty == 0 && o.state is Pending && o.created_at == now
            &&& o.model_prob == prob && o.market_price == price && o.crypto_snapshot == snapshot
            &&& o.kalshi_order_id is None && o.entry_price is None && o.signal_id is None && o.latency_ms is None
            &&& o.transitions.len() == 1 && o.transitions[0] == (OrderState::Pending, now)
            &&& o.exposure() == 0 && o.wf()
            &&& o.moved(to, now).state == to && o.moved(to, now).transitions.len() == 2 && o.moved(
                to,
                now,
            ).transitions[1] == (to, now)
        }),
{
}

} // verus!
