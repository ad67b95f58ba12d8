//! What holds of orders, positions and limits over several operations.
use vstd::arithmetic::power::pow;
use vstd::prelude::*;
use vstd::string::*;

use crate::config::Config;
use crate::crypto_state::CryptoStateInner;
use crate::kalshi::types::{stated, Order, Position};
use crate::kill_switch::KillSwitchState;
use crate::order_manager::ledger::{
    exposure_without, held_on_exchange, order_id, order_size, signal_hash, total_exposure, Ledger, ORDERS_PER_MINUTE,
    ORDERS_PER_TICKER,
};
use crate::order_manager::limits::{recent, recording_counts_once};
use crate::order_manager::order::{FillPrice, OrderRecord};
use crate::text::{
    decimal, is_hex_digit, numerals_are_digits, numerals_tell_numbers_apart, opens, padded_hex, padded_hex_has_width,
};
use crate::types::Signal;

verus! {

/// Orders with different numbers have different ids, whatever their signals.
pub proof fn ids_never_repeat(h: u64, m: u64, k: u64, n: u64)
    requires
        m != n,
    ensures
        order_id(h, m) != order_id(k, n),
{
    let a = order_id(h, m);
    let b = order_id(k, n);
    let x = decimal(m as int);
    let y = decimal(n as int);
    reveal_strlit("-");
    numerals_are_digits(m as nat);
    numerals_are_digits(n as nat);
    if a == b {
        let i = a.len() - x.len() - 1;
        let j = b.len() - y.len() - 1;
        assert(a[i] == '-');
        assert(b[j] == '-');
        if i < j {
            assert(a[j] == x[j - i - 1]);
        } else if j < i {
            assert(b[i] == y[i - j - 1]);
        } else {
            assert(x =~= a.subrange(i + 1, a.len() as int));
            assert(y =~= b.subrange(j + 1, b.len() as int));
            numerals_tell_numbers_apart(m as nat, n as nat);
        }
    }
}

/// An id is the mark of the bot, exactly twelve hexadecimal digits, and the number of the order.
pub proof fn ids_have_their_form(hash: u64, number: u64)
    ensures
        ({
            let id = order_id(hash, number);
            let digits = id.subrange(3, 15);
            &&& id == "tb-"@ + digits + "-"@ + decimal(number as int)
            &&& digits == padded_hex((hash % 0x1_0000_0000_0000) as nat, 12)
            &&& forall|i: int| 0 <= i < 12 ==> is_hex_digit(#[trigger] digits[i])
        }),
{
    reveal_strlit("tb-");
    let low = (hash % 0x1_0000_0000_0000) as nat;
    assert(pow(16, 12) == 0x1_0000_0000_0000) by {
        reveal_with_fuel(pow, 13);
    }
    padded_hex_has_width(low, 12);
    assert(order_id(hash, number).subrange(3, 15) =~= padded_hex(low, 12));
}

/// Signals on one ticker, direction and type, with the same probability in whole percent, lead to
/// ids with the same digits.
pub proof fn like_signals_share_digits(a: Signal, b: Signal, percent: i64, m: u64, n: u64)
    requires
        a.ticker@ == b.ticker@,
        a.direction@ == b.direction@,
        a.signal_type@ == b.signal_type@,
    ensures
        signal_hash(a, percent) == signal_hash(b, percent),
        order_id(signal_hash(a, percent), m).subrange(3, 15) == order_id(signal_hash(b, percent), n).subrange(3, 15),
{
    ids_have_their_form(signal_hash(a, percent), m);
    ids_have_their_form(signal_hash(b, percent), n);
}

/// The id holds a number that was given out before, or was made for a position found on the
/// exchange.
pub open spec fn given_out(id: Seq<char>, sequence: u64) -> bool {
    opens("reconciled-"@, id) || exists|h: u64, n: u64| n <= sequence && id == #[trigger] order_id(h, n)
}

/// Every order that is kept has such an id.
pub open spec fn ids_numbered(l: Ledger) -> bool {
    forall|id: Seq<char>| #[trigger] l.orders.contains_key(id) ==> given_out(id, l.sequence)
}

/// The next order gets an id that no order has.
pub proof fn next_id_is_new(l: Ledger, signal: Signal, percent: i64)
    requires
        ids_numbered(l),
        l.sequence < u64::MAX,
    ensures
        !l.orders.contains_key(l.next_id(signal, percent)),
{
    let id = l.next_id(signal, percent);
    if l.orders.contains_key(id) {
        reveal_strlit("tb-");
        reveal_strlit("reconciled-");
        if opens("reconciled-"@, id) {
            assert(id[0] == 't');
            assert(id.subrange(0, "reconciled-"@.len() as int)[0] == 'r');
        } else {
            let (h, n) = choose|h: u64, n: u64| n <= l.sequence && id == #[trigger] order_id(h, n);
            ids_never_repeat(signal_hash(signal, percent), (l.sequence + 1) as u64, h, n);
        }
    }
}

/// Ids stay so: when an order is numbered and kept, when one is cancelled, when positions are
/// taken over, and when closed orders are dropped.
pub proof fn ids_stay_numbered(
    l: Ledger,
    signal: Signal,
    percent: i64,
    order: OrderRecord,
    id: Seq<char>,
    confirmed: bool,
    reported: Seq<Position>,
    now: u64,
)
    requires
        ids_numbered(l),
    ensures
        l.sequence < u64::MAX && order.client_order_id == l.next_id(signal, percent) ==> ids_numbered(
            l.numbered().with_order(order),
        ),
        l.orders.contains_key(id) ==> ids_numbered(l.cancelled(id, confirmed, now)),
        ids_numbered(l.adopted_all(reported, now)),
        ids_numbered(l.tidied(now)),
    decreases reported.len(),
{
    if l.sequence < u64::MAX && order.client_order_id == l.next_id(signal, percent) {
        let kept = l.numbered().with_order(order);
        assert forall|k: Seq<char>| #[trigger] kept.orders.contains_key(k) implies given_out(k, kept.sequence) by {
            if k == order.client_order_id {
                assert(k == order_id(signal_hash(signal, percent), kept.sequence));
            } else {
                assert(l.orders.contains_key(k));
                if !opens("reconciled-"@, k) {
                    let (h, n) = choose|h: u64, n: u64| n <= l.sequence && k == #[trigger] order_id(h, n);
                    assert(n <= kept.sequence && k == order_id(h, n));
                }
            }
        }
    }
    if reported.len() > 0 {
        let rest = reported.drop_last();
        ids_stay_numbered(l, signal, percent, order, id, confirmed, rest, now);
        let mid = l.adopted_all(rest, now);
        let p = reported.last();
        let made = "reconciled-"@ + p.ticker@;
        assert(made.subrange(0, "reconciled-"@.len() as int) =~= "reconciled-"@);
        adoption_keeps_sequence(l, reported, now);
        adoption_keeps_sequence(l, rest, now);
        let end = l.adopted_all(reported, now);
        assert forall|k: Seq<char>| #[trigger] end.orders.contains_key(k) implies given_out(k, end.sequence) by {
            if k != made {
                assert(mid.orders.contains_key(k));
            }
        }
    }
}

proof fn adoption_keeps_sequence(l: Ledger, reported: Seq<Position>, now: u64)
    ensures
        l.adopted_all(reported, now).sequence == l.sequence,
    decreases reported.len(),
{
    if reported.len() > 0 {
        adoption_keeps_sequence(l, reported.drop_last(), now);
    }
}

/// With everything halted no entry goes out, and the reason is told.
pub proof fn halted_trading_refuses_entries(
    l: Ledger,
    config: Config,
    signal: Signal,
    stake: i64,
    switches: KillSwitchState,
    last_update: Map<Seq<char>, u64>,
    now: u64,
    today: i64,
)
    requires
        switches.kill_all,
    ensures
        l.refusal(config, signal, stake, switches, last_update, now, today) == Some("blocked by kill switch"@),
{
}

/// An entry that is not refused keeps every limit: after it, and once its order is kept, there are no more positions than
/// allowed, one in its ticker, no more orders in the minute and for the ticker than allowed, and
/// no more exposure.
pub proof fn entries_keep_limits(
    l: Ledger,
    config: Config,
    signal: Signal,
    stake: i64,
    percent: i64,
    signal_id: Option<i64>,
    crypto_state: CryptoStateInner,
    switches: KillSwitchState,
    last_update: Map<Seq<char>, u64>,
    now: u64,
    today: i64,
)
    requires
        l.orders.dom().finite(),
        l.positions.dom().finite(),
        ids_numbered(l),
        l.sequence < u64::MAX,
        l.refusal(config, signal, stake, switches, last_update, now, today) is None,
    ensures
        ({
            let size = order_size(config, stake);
            let filled = l.opened(signal, percent, signal.direction@, size, signal_id, crypto_state, now).took_fill(
                size,
                Some(FillPrice::Quote(signal.market_price)),
                now,
            );
            let after = l.paper_entered(signal.ticker@, filled.client_order_id, now).with_order(filled);
            &&& after.positions.len() == l.positions.len() + 1
            &&& after.positions.len() <= config.max_positions
            &&& recent(after.stamps, now, 60) <= ORDERS_PER_MINUTE
            &&& recent(after.ticker_stamps[signal.ticker@], now, 300) <= ORDERS_PER_TICKER
            &&& total_exposure(after.orders) <= config.max_exposure_cents
        }),
{
    let size = order_size(config, stake);
    let id = l.next_id(signal, percent);
    let filled = l.opened(signal, percent, signal.direction@, size, signal_id, crypto_state, now).took_fill(
        size,
        Some(FillPrice::Quote(signal.market_price)),
        now,
    );
    let after = l.paper_entered(signal.ticker@, filled.client_order_id, now).with_order(filled);
    next_id_is_new(l, signal, percent);
    recording_counts_once(l.stamps, now, 60);
    let before = if l.ticker_stamps.contains_key(signal.ticker@) {
        l.ticker_stamps[signal.ticker@]
    } else {
        Seq::empty()
    };
    recording_counts_once(before, now, 300);
    reveal(Seq::filter);
    exposure_without(after.orders, id);
    assert(after.orders.remove(id) =~= l.orders);
    assert(after.positions.dom() =~= l.positions.dom().insert(signal.ticker@));
}

/// A position is never entered twice: once it is held, any further entry in its ticker is
/// refused, whenever it comes.
pub proof fn no_second_entry(
    l: Ledger,
    config: Config,
    signal: Signal,
    stake: i64,
    id: Seq<char>,
    switches: KillSwitchState,
    last_update: Map<Seq<char>, u64>,
    now: u64,
    later: u64,
    today: i64,
)
    ensures
        l.paper_entered(signal.ticker@, id, now).refusal(
            config,
            signal,
            stake,
            switches,
            last_update,
            later,
            today,
        ) is Some,
{
}

/// An entry on paper and an exit after it leave the positions as they were.
pub proof fn exit_undoes_entry(l: Ledger, ticker: Seq<char>, id: Seq<char>, now: u64, pnl: i64, today: i64)
    requires
        !l.positions.contains_key(ticker),
    ensures
        l.paper_entered(ticker, id, now).closed(ticker, pnl, today).positions == l.positions,
{
    assert(l.paper_entered(ticker, id, now).closed(ticker, pnl, today).positions =~= l.positions);
}

/// A reply to a sent order leads it only where it may go, unless the exchange filled part of it
/// at once.
pub proof fn replies_move_orders_lawfully(order: OrderRecord, reply: Order, now: u64)
    requires
        order.state is Submitting,
    ensures
        order.state.may_become(Ledger::accepted(order, reply, now).state) <==> !(0 < reply.filled_count()
            < order.requested_qty),
{
}

/// Every order stands under its own id, and its history ends with its state.
pub open spec fn sound(orders: Map<Seq<char>, OrderRecord>) -> bool {
    forall|id: Seq<char>| #[trigger] orders.contains_key(id) ==> orders[id].client_order_id == id && orders[id].wf()
}

/// No operation breaks the book of orders.
pub proof fn orders_stay_sound(
    l: Ledger,
    order: OrderRecord,
    id: Seq<char>,
    confirmed: bool,
    reported: Seq<Position>,
    now: u64,
)
    requires
        sound(l.orders),
    ensures
        order.wf() ==> sound(l.with_order(order).orders),
        l.orders.contains_key(id) ==> sound(l.cancelled(id, confirmed, now).orders),
        sound(l.adopted_all(reported, now).orders),
        sound(l.tidied(now).orders),
    decreases reported.len(),
{
    if reported.len() > 0 {
        orders_stay_sound(l, order, id, confirmed, reported.drop_last(), now);
    }
}

/// After a restart every position on the exchange is known, what was known stays as it was, and
/// no other position came to be.
pub proof fn startup_takes_over_positions(l: Ledger, reported: Seq<Position>, now: u64)
    ensures
        forall|t: Seq<char>| #[trigger] l.adopted_all(reported, now).positions.contains_key(t) <==> l.positions.contains_key(t)
            || reports(reported, t),
        forall|t: Seq<char>| #[trigger] l.positions.contains_key(t) ==> l.adopted_all(reported, now).positions[t]
            == l.positions[t],
    decreases reported.len(),
{
    if reported.len() > 0 {
        let rest = reported.drop_last();
        let p = reported.last();
        startup_takes_over_positions(l, rest, now);
        let mid = l.adopted_all(rest, now);
        let end = l.adopted_all(reported, now);
        assert forall|t: Seq<char>| #[trigger] end.positions.contains_key(t) <==> l.positions.contains_key(t)
            || reports(reported, t) by {
            assert(mid.positions.contains_key(t) <==> l.positions.contains_key(t) || reports(rest, t));
            if reports(rest, t) {
                let i = choose|i: int|
                    0 <= i < rest.len() && (#[trigger] rest[i]).ticker@ == t && stated(rest[i].market_exposure) != 0;
                assert(reported[i] == rest[i]);
            }
            if reports(reported, t) {
                let i = choose|i: int|
                    0 <= i < reported.len() && (#[trigger] reported[i]).ticker@ == t && stated(
                        reported[i].market_exposure,
                    ) != 0;
                if i < rest.len() {
                    assert(rest[i] == reported[i]);
                }
            }
            if p.ticker@ == t && stated(p.market_exposure) != 0 {
                assert(reported[reported.len() - 1].ticker@ == t);
            }
        }
        assert forall|t: Seq<char>| #[trigger] l.positions.contains_key(t) implies end.positions[t]
            == l.positions[t] by {
            assert(mid.positions.contains_key(t));
        }
    }
}

/// The exchange reports a position in a ticker.
pub open spec fn reports(reported: Seq<Position>, t: Seq<char>) -> bool {
    exists|i: int|
        0 <= i < reported.len() && (#[trigger] reported[i]).ticker@ == t && stated(reported[i].market_exposure) != 0
}

/// Dropping closed orders never drops an open one or one that a position rests on, and doing it
/// again drops nothing more.
pub proof fn dropping_closed_orders_is_safe(l: Ledger, id: Seq<char>, now: u64)
    ensures
        l.orders.contains_key(id) && (!l.orders[id].state.terminal() || l.rests_on(id)) ==> l.tidied(
            now,
        ).orders.contains_key(id) && l.tidied(now).orders[id] == l.orders[id],
        l.tidied(now).positions == l.positions,
        l.tidied(now).tidied(now) == l.tidied(now),
{
    let once = l.tidied(now);
    let twice = once.tidied(now);
    assert forall|k: Seq<char>| once.orders.contains_key(k) implies twice.orders.contains_key(k) by {
        if l.rests_on(k) {
            let t = choose|t: Seq<char>| #[trigger] l.positions.contains_key(t) && l.positions[t] == k;
            assert(once.positions.contains_key(t));
        }
    }
    assert(twice.orders =~= once.orders);
}

/// A position rests on a kept order as long as orders that are sent are kept: so it stays when
/// an order is kept, when a position is held or closed, at a cancellation, when positions are
/// taken over or reconciled, when old orders are dropped, and at an entry whose order is kept
/// after it.
pub proof fn positions_stay_backed(
    l: Ledger,
    order: OrderRecord,
    ticker: Seq<char>,
    id: Seq<char>,
    confirmed: bool,
    reported: Seq<Position>,
    reply: Order,
    pnl: i64,
    now: u64,
    today: i64,
)
    requires
        l.backed(),
    ensures
        l.with_order(order).backed(),
        l.holding(ticker, order).backed(),
        l.closed(ticker, pnl, today).backed(),
        l.orders.contains_key(id) ==> l.cancelled(id, confirmed, now).backed(),
        l.adopted_all(reported, now).backed(),
        l.reconciled(reported).backed(),
        l.tidied(now).backed(),
        l.paper_entered(ticker, order.client_order_id, now).with_order(order).backed(),
        l.entered(order, reply, ticker, now).with_order(Ledger::accepted(order, reply, now)).backed(),
    decreases reported.len(),
{
    let tidy = l.tidied(now);
    assert forall|t: Seq<char>| #[trigger] tidy.positions.contains_key(t) implies tidy.orders.contains_key(
        tidy.positions[t],
    ) by {
        assert(l.positions.contains_key(t));
        assert(l.rests_on(l.positions[t]));
    }
    if reported.len() > 0 {
        positions_stay_backed(l, order, ticker, id, confirmed, reported.drop_last(), reply, pnl, now, today);
    }
    let r = l.reconciled(reported);
    assert forall|t: Seq<char>| #[trigger] r.positions.contains_key(t) implies r.orders.contains_key(
        r.positions[t],
    ) by {
        assert(l.positions.contains_key(t));
    }
}

/// The exchange holds a position exactly where it reports one.
pub proof fn held_is_reported(reported: Seq<Position>, t: Seq<char>)
    ensures
        held_on_exchange(reported).contains_key(t) <==> reports(reported, t),
    decreases reported.len(),
{
    if reported.len() > 0 {
        let rest = reported.drop_last();
        held_is_reported(rest, t);
        if reports(rest, t) {
            let i = choose|i: int|
                0 <= i < rest.len() && (#[trigger] rest[i]).ticker@ == t && stated(rest[i].market_exposure) != 0;
            assert(reported[i] == rest[i]);
        }
        if reports(reported, t) {
            let i = choose|i: int|
                0 <= i < reported.len() && (#[trigger] reported[i]).ticker@ == t && stated(reported[i].market_exposure)
                    != 0;
            if i < rest.len() {
                assert(rest[i] == reported[i]);
            }
        }
        let p = reported.last();
        if p.ticker@ == t && stated(p.market_exposure) != 0 {
            assert(reported[reported.len() - 1].ticker@ == t);
        }
    }
}

/// After reconciliation every position known here is one that the exchange reports. Those that
/// it reports stay as they were, none is added, and doing it again changes nothing.
pub proof fn reconciliation_keeps_what_is_reported(l: Ledger, reported: Seq<Position>, t: Seq<char>)
    ensures
        l.reconciled(reported).positions.contains_key(t) <==> l.positions.contains_key(t) && reports(reported, t),
        l.reconciled(reported).positions.contains_key(t) ==> l.reconciled(reported).positions[t] == l.positions[t],
        l.reconciled(reported).reconciled(reported) == l.reconciled(reported),
{
    held_is_reported(reported, t);
    let once = l.reconciled(reported);
    assert(once.reconciled(reported).positions =~= once.positions);
}

/// After a restart nothing is left to reconcile in a ledger that knew no positions.
pub proof fn startup_leaves_nothing_to_reconcile(l: Ledger, reported: Seq<Position>, now: u64)
    requires
        l.positions == Map::<Seq<char>, Seq<char>>::empty(),
    ensures
        l.adopted_all(reported, now).positions.dom() == held_on_exchange(reported).dom(),
        l.adopted_all(reported, now).reconciled(reported) == l.adopted_all(reported, now),
{
    startup_takes_over_positions(l, reported, now);
    let all = l.adopted_all(reported, now);
    assert forall|t: Seq<char>| held_on_exchange(reported).contains_key(t) <==> all.positions.contains_key(t) by {
        held_is_reported(reported, t);
    }
    assert(all.positions.dom() =~= held_on_exchange(reported).dom());
    assert(all.reconciled(reported).positions =~= all.positions);
}

/// A confirmed cancellation of an order without a fill leaves no position in its ticker; any
/// other answer leaves the positions alone.
pub proof fn cancellation_respects_fills(l: Ledger, id: Seq<char>, confirmed: bool, now: u64)
    requires
        l.orders.contains_key(id),
    ensures
        confirmed && l.orders[id].filled_qty == 0 ==> !l.cancelled(id, confirmed, now).positions.contains_key(
            l.orders[id].ticker,
        ),
        !confirmed || l.orders[id].filled_qty != 0 ==> l.cancelled(id, confirmed, now).positions == l.positions,
        !confirmed ==> l.cancelled(id, confirmed, now).orders[id].state is Unknown,
        confirmed ==> l.cancelled(id, confirmed, now).orders[id].state is Cancelled,
{
}

} // verus!
