//! Exits from positions whose edge has turned.
use vstd::prelude::*;
use vstd::string::*;

use crate::crypto_evaluator::{EXIT_EDGE_THRESHOLD_BITS, EXIT_MINUTES_BITS, HALF_BITS};
use crate::float::Float;
use crate::order_manager::ledger::Ledger;
use crate::order_manager::OrderManager;
use crate::text::same_text;
use crate::types::{Signal, SignalPriority};

verus! {

/// The direction of the position to be looked at for an exit; `None` where none is held or
/// settlement is too near.
pub open spec fn candidate(l: Ledger, ticker: Seq<char>, minutes: Float) -> Option<Seq<char>> {
    if l.positions.contains_key(ticker) && !minutes.lt(Float { bits: EXIT_MINUTES_BITS }) {
        Some(l.held_way(ticker))
    } else {
        None
    }
}

/// The position to be looked at for an exit: its direction, or `None` where none is held or
/// settlement is too near. Where its order is not kept the direction is taken to be yes.
pub fn exit_candidate(orders: &OrderManager, ticker: &str, minutes_remaining: Float) -> (r: Option<String>)
    requires
        orders.wf(),
    ensures
        match r {
            Some(d) => candidate(orders@, ticker@, minutes_remaining) == Some(d@),
            None => candidate(orders@, ticker@, minutes_remaining) is None,
        },
{
    if !orders.has_position(ticker) || minutes_remaining.less(Float::from_bits(EXIT_MINUTES_BITS)) {
        return None;
    }
    match orders.held_direction(ticker) {
        Some(d) => Some(d.to_owned()),
        None => Some("yes".to_owned()),
    }
}

/// What is known of a position.
#[derive(Clone, Copy, Debug, PartialEq, Eq, Structural)]
pub struct ExitFacts {
    pub probability: Float,
    pub confidence: Float,
    pub mid_price: Float,
    pub spread: Float,
    pub minutes_remaining: Float,
    /// Probability less price.
    pub yes_edge: Float,
    /// Price less probability.
    pub no_edge: Float,
}

/// The edge of a position held in a direction.
pub open spec fn current_edge(facts: ExitFacts, held: Seq<char>) -> Float {
    if held == "yes"@ { facts.yes_edge } else { facts.no_edge }
}

/// A position is left: its edge is not above the threshold any more.
pub open spec fn exit_due(facts: ExitFacts, held: Seq<char>) -> bool {
    !(Float { bits: EXIT_EDGE_THRESHOLD_BITS }).le(current_edge(facts, held))
}

/// A signal to leave a position, on these facts.
pub open spec fn leaves(s: Signal, ticker: Seq<char>, facts: ExitFacts, held: Seq<char>) -> bool {
    &&& s.ticker@ == ticker
    &&& s.signal_type@ == "crypto"@
    &&& s.action@ == "exit"@
    &&& s.direction@ == (if held == "yes"@ { "no"@ } else { "yes"@ })
    &&& s.model_prob == facts.probability
    &&& s.market_price == facts.mid_price
    &&& s.edge == current_edge(facts, held).unsigned()
    &&& s.kelly_fraction.bits == 0
    &&& s.minutes_remaining == facts.minutes_remaining
    &&& s.spread == facts.spread
    &&& s.order_imbalance.bits == HALF_BITS
    &&& s.priority is NewData
    &&& s.confidence == facts.confidence
}

/// Whether a position is left: it is, unless its edge is still above the threshold.
pub fn judge_exit(ticker: &str, held_direction: &str, facts: &ExitFacts) -> (r: Option<Signal>)
    ensures
        match r {
            Some(s) => exit_due(*facts, held_direction@) && leaves(s, ticker@, *facts, held_direction@),
            None => !exit_due(*facts, held_direction@),
        },
{
    let yes: bool = same_text(held_direction, "yes");
    let edge: Float = if yes { facts.yes_edge } else { facts.no_edge };
    if Float::from_bits(EXIT_EDGE_THRESHOLD_BITS).less_eq(edge) {
        return None;
    }
    let direction: &str = if yes { "no" } else { "yes" };
    Some(
        Signal {
            ticker: ticker.to_owned(),
            signal_type: "crypto".to_owned(),
            action: "exit".to_owned(),
            direction: direction.to_owned(),
            model_prob: facts.probability,
            market_price: facts.mid_price,
            edge: edge.absolute(),
            kelly_fraction: Float::from_bits(0),
            minutes_remaining: facts.minutes_remaining,
            spread: facts.spread,
            order_imbalance: Float::from_bits(HALF_BITS),
            priority: SignalPriority::NewData,
            confidence: facts.confidence,
        },
    )
}

/// A position is looked at exactly if it is held and two minutes or more are left.
pub proof fn exits_are_tried_while_there_is_time(l: Ledger, ticker: Seq<char>, minutes: Float)
    requires
        !minutes.not_a_number(),
    ensures
        candidate(l, ticker, minutes) is Some <==> l.positions.contains_key(ticker) && minutes.rank()
            >= 0x4000_0000_0000_0000,
        candidate(l, ticker, minutes) is Some && l.orders.contains_key(l.positions[ticker]) ==> candidate(
            l,
            ticker,
            minutes,
        ) == Some(l.orders[l.positions[ticker]].direction),
        candidate(l, ticker, minutes) is Some && !l.orders.contains_key(l.positions[ticker]) ==> candidate(
            l,
            ticker,
            minutes,
        ) == Some("yes"@),
{
}

/// A yes is left once probability less price has come below -0.03, anything else once price less
/// probability has; an edge of exactly that is still held.
pub proof fn positions_are_left_when_the_edge_has_turned(facts: ExitFacts, held: Seq<char>)
    requires
        !facts.yes_edge.not_a_number() && !facts.no_edge.not_a_number(),
    ensures
        held == "yes"@ ==> (exit_due(facts, held) <==> facts.yes_edge.rank() < -0x3f9e_b851_eb85_1eb8),
        held != "yes"@ ==> (exit_due(facts, held) <==> facts.no_edge.rank() < -0x3f9e_b851_eb85_1eb8),
{
}

/// A signal to leave is on the other side than the position, and carries the facts.
pub proof fn exits_take_the_other_side(s: Signal, ticker: Seq<char>, facts: ExitFacts, held: Seq<char>)
    requires
        leaves(s, ticker, facts, held),
    ensures
        s.action@ == "exit"@ && s.ticker@ == ticker && s.signal_type@ == "crypto"@,
        held == "yes"@ ==> s.direction@ == "no"@ && s.edge == facts.yes_edge.unsigned(),
        held != "yes"@ ==> s.direction@ == "yes"@ && s.edge == facts.no_edge.unsigned(),
        s.direction@ != held,
        s.model_prob == facts.probability && s.market_price == facts.mid_price && s.confidence == facts.confidence,
        s.spread == facts.spread && s.minutes_remaining == facts.minutes_remaining,
        s.kelly_fraction.bits == 0 && s.order_imbalance.bits == 0x3fe0_0000_0000_0000,
        s.priority is NewData,
{
    reveal_strlit("yes");
    reveal_strlit("no");
    assert("yes"@.len() != "no"@.len());
}

} // verus!
