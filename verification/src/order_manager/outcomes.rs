//! What the operations on orders come to, said of what goes in and what comes out.
use std::collections::hash_map::DefaultHasher;
use vstd::bytes::spec_u64_to_le_bytes;
use vstd::prelude::*;
use vstd::std_specs::hash::*;
use vstd::string::*;
use vstd::utf8::encode_utf8;

use crate::config::Config;
use crate::crypto_state::CryptoStateInner;
use crate::float::Float;
use crate::kalshi::error::KalshiError;
use crate::kalshi::types::{stated, Order, OrderRequest, Position};
use crate::kill_switch::{types_are_halted_by_their_switch, KillSwitchState};
use crate::feed_health::blocking_feeds;
use crate::order_manager::laws::{ids_never_repeat, reports, startup_takes_over_positions};
use crate::order_manager::ledger::{
    asks_for, cooldown, exposure_without, held_on_exchange, low_half, marked_list, order_id, order_size,
    signal_hash, total_exposure, Ledger,
};
use crate::order_manager::limits::{counts_by_age, recent, recording_lasts_its_span};
use crate::order_manager::order::{states_have_their_names, FillPrice, OrderRecord, OrderState};
use crate::order_manager::{
    asks_to_cancel, called_back, disagreements, exits, has_ticker, missing_here, missing_there, paper_price, prepares, routes,
    settles_entry, settles_exit, settles_prepared, submits, Answered, Cancellation, Placed, ReconciliationEntry,
    SignalRoute, Submission,
};
use crate::text::decimal;
use crate::types::Signal;

verus! {

/// The size of an exposure, whatever its sign.
pub open spec fn size_of(exposure: int) -> int {
    if exposure < 0 { -exposure } else { exposure }
}

/// The id of the order that a position found in a ticker rests on.
pub open spec fn found_id(ticker: Seq<char>) -> Seq<char> {
    "reconciled-"@ + ticker
}

proof fn found_ids_differ(a: Seq<char>, b: Seq<char>)
    requires
        a != b,
    ensures
        found_id(a) != found_id(b),
{
    let n = "reconciled-"@.len() as int;
    assert(found_id(a).skip(n) =~= a);
    assert(found_id(b).skip(n) =~= b);
}

/// A position that is reported after a restart and was not known is held in full from then on: an
/// exit sells the size of its exposure, by the first report on its ticker, in the direction yes.
pub proof fn found_positions_have_their_size(l: Ledger, reported: Seq<Position>, now: u64, i: int)
    requires
        0 <= i < reported.len(),
        stated(reported[i].market_exposure) != 0,
        stated(reported[i].market_exposure) > i64::MIN,
        !l.positions.contains_key(reported[i].ticker@),
        forall|j: int| 0 <= j < i ==> (#[trigger] reported[j]).ticker@ != reported[i].ticker@ || stated(
            reported[j].market_exposure,
        ) == 0,
    ensures
        ({
            let t = reported[i].ticker@;
            let size = size_of(stated(reported[i].market_exposure));
            let end = l.adopted_all(reported, now);
            let o = end.orders[end.positions[t]];
            &&& end.positions.contains_key(t) && end.orders.contains_key(end.positions[t])
            &&& end.exit_size(t) == size
            &&& o.filled_qty == size && o.requested_qty == size
            &&& o.ticker == t && o.state is Filled && o.direction == "yes"@ && o.entry_price is None
            &&& o.client_order_id == found_id(t) && end.positions[t] == found_id(t)
            &&& o.signal_type == "unknown"@ && o.created_at == now && o.signal_id is None && o.kalshi_order_id is None
            &&& end.held_way(t) == "yes"@
        }),
    decreases reported.len(),
{
    let t = reported[i].ticker@;
    let rest = reported.drop_last();
    let mid = l.adopted_all(rest, now);
    let end = l.adopted_all(reported, now);
    let last = reported.last();
    startup_takes_over_positions(l, rest, now);
    if i == reported.len() - 1 {
        assert(!reports(rest, t)) by {
            if reports(rest, t) {
                let j = choose|j: int|
                    0 <= j < rest.len() && (#[trigger] rest[j]).ticker@ == t && stated(rest[j].market_exposure) != 0;
                assert(reported[j] == rest[j]);
            }
        }
        assert(!mid.positions.contains_key(t));
    } else {
        assert(rest[i] == reported[i]);
        assert forall|j: int| 0 <= j < i implies (#[trigger] rest[j]).ticker@ != rest[i].ticker@ || stated(
            rest[j].market_exposure,
        ) == 0 by {
            assert(rest[j] == reported[j]);
        }
        found_positions_have_their_size(l, rest, now, i);
        found_ids_are_bound(l, rest, now, t);
        if last.ticker@ != t {
            found_ids_differ(last.ticker@, t);
        }
    }
}

proof fn found_ids_are_bound(l: Ledger, reported: Seq<Position>, now: u64, t: Seq<char>)
    requires
        !l.positions.contains_key(t),
    ensures
        l.adopted_all(reported, now).positions.contains_key(t) ==> l.adopted_all(reported, now).positions[t]
            == found_id(t),
    decreases reported.len(),
{
    if reported.len() > 0 {
        found_ids_are_bound(l, reported.drop_last(), now, t);
    }
}

/// The sum of the sizes of what is reported and not known, each ticker by its first report.
pub open spec fn found_exposure(known: Set<Seq<char>>, reported: Seq<Position>) -> int
    decreases reported.len(),
{
    if reported.len() == 0 {
        0
    } else {
        let rest = reported.drop_last();
        let p = reported.last();
        found_exposure(known, rest) + (if stated(p.market_exposure) != 0 && !known.contains(p.ticker@) && !reports(
            rest,
            p.ticker@,
        ) {
            size_of(stated(p.market_exposure))
        } else {
            0
        })
    }
}

/// Taking positions over after a restart adds exactly their sizes to the exposure that counts
/// against the limit.
pub proof fn found_positions_count_as_exposure(l: Ledger, reported: Seq<Position>, now: u64)
    requires
        l.orders.dom().finite(),
        forall|i: int| 0 <= i < reported.len() ==> stated((#[trigger] reported[i]).market_exposure) > i64::MIN,
        forall|i: int| 0 <= i < reported.len() ==> !l.orders.contains_key(
            found_id((#[trigger] reported[i]).ticker@),
        ),
    ensures
        l.adopted_all(reported, now).orders.dom().finite(),
        total_exposure(l.adopted_all(reported, now).orders) == total_exposure(l.orders) + found_exposure(
            l.positions.dom(),
            reported,
        ),
        forall|t: Seq<char>| #[trigger] l.adopted_all(reported, now).orders.contains_key(found_id(t))
            ==> l.orders.contains_key(found_id(t)) || reports(reported, t),
    decreases reported.len(),
{
    if reported.len() > 0 {
        let rest = reported.drop_last();
        assert forall|i: int| 0 <= i < rest.len() implies stated((#[trigger] rest[i]).market_exposure) > i64::MIN by {
            assert(rest[i] == reported[i]);
        }
        assert forall|i: int| 0 <= i < rest.len() implies !l.orders.contains_key(
            found_id((#[trigger] rest[i]).ticker@),
        ) by {
            assert(rest[i] == reported[i]);
        }
        found_positions_count_as_exposure(l, rest, now);
        startup_takes_over_positions(l, rest, now);
        let mid = l.adopted_all(rest, now);
        let end = l.adopted_all(reported, now);
        let p = reported.last();
        assert(reported[reported.len() - 1] == p);
        let id = found_id(p.ticker@);
        if stated(p.market_exposure) != 0 && !mid.positions.contains_key(p.ticker@) {
            assert(!mid.orders.contains_key(id));
            exposure_without(end.orders, id);
            assert(end.orders.remove(id) =~= mid.orders);
        }
        assert forall|t: Seq<char>| #[trigger] end.orders.contains_key(found_id(t)) implies l.orders.contains_key(
            found_id(t),
        ) || reports(reported, t) by {
            if t == p.ticker@ {
                if stated(p.market_exposure) != 0 {
                    assert(reported[reported.len() - 1].ticker@ == t);
                    assert(reports(reported, t));
                } else {
                    assert(mid.orders.contains_key(found_id(t)));
                    reports_grow(rest, p, t);
                }
            } else {
                found_ids_differ(t, p.ticker@);
                assert(mid.orders.contains_key(found_id(t)));
                reports_grow(rest, p, t);
            }
        }
    }
}

proof fn reports_grow(rest: Seq<Position>, p: Position, t: Seq<char>)
    ensures
        reports(rest, t) ==> reports(rest.push(p), t),
        forall|all: Seq<Position>| #[trigger] all.drop_last() == rest && all.len() > 0 && reports(rest, t) ==> reports(
            all,
            t,
        ),
{
    if reports(rest, t) {
        let i = choose|i: int|
            0 <= i < rest.len() && (#[trigger] rest[i]).ticker@ == t && stated(rest[i].market_exposure) != 0;
        assert(rest.push(p)[i] == rest[i]);
        assert forall|all: Seq<Position>| #[trigger] all.drop_last() == rest && all.len() > 0 implies reports(all, t) by {
            assert(all[i] == all.drop_last()[i]);
        }
    }
}

/// Exposure is what filled and partly filled orders have bought: an order that is added counts
/// with what is filled of it in these two states, and in any other state not at all.
pub proof fn filled_orders_make_the_exposure(orders: Map<Seq<char>, OrderRecord>, id: Seq<char>, o: OrderRecord)
    requires
        orders.dom().finite(),
        !orders.contains_key(id),
    ensures
        total_exposure(Map::<Seq<char>, OrderRecord>::empty()) == 0,
        total_exposure(orders.insert(id, o)) == total_exposure(orders) + (if o.state == OrderState::Filled || o.state
            == OrderState::PartialFill {
            o.filled_qty as int
        } else {
            0
        }),
{
    exposure_without(orders.insert(id, o), id);
    assert(orders.insert(id, o).remove(id) =~= orders);
    assert(Map::<Seq<char>, OrderRecord>::empty().dom() =~= Set::<Seq<char>>::empty());
}

/// A ticker rests after a signal for as many seconds as its type calls for: crypto and weather as
/// configured, or thirty and a hundred and twenty; any other sixty. Other tickers do not rest for it.
pub proof fn tickers_rest_as_long_as_configured(l: Ledger, signal: Signal, config: Option<Config>, at: u64, now: u64, other: Seq<char>)
    requires
        at <= now,
        other != signal.ticker@,
    ensures
        ({
            let rests = l.with_cooldown(signal.ticker@, at).cooling(signal, config, now);
            let age = now - at;
            &&& signal.signal_type@ == "crypto"@ && config is None ==> (rests <==> age < 30_000_000_000)
            &&& signal.signal_type@ == "weather"@ && config is None ==> (rests <==> age < 120_000_000_000)
            &&& signal.signal_type@ == "crypto"@ && config is Some ==> (rests <==> age
                < (config->0).crypto_cooldown_secs * 1_000_000_000)
            &&& signal.signal_type@ == "weather"@ && config is Some ==> (rests <==> age
                < (config->0).weather_cooldown_secs * 1_000_000_000)
            &&& signal.signal_type@ != "crypto"@ && signal.signal_type@ != "weather"@ ==> (rests <==> age
                < 60_000_000_000)
        }),
        l.with_cooldown(other, at).cooling(signal, config, now) == l.cooling(signal, config, now),
        !l.cooldowns.contains_key(signal.ticker@) ==> !l.cooling(signal, config, now),
{
    reveal_strlit("crypto");
    reveal_strlit("weather");
    assert("crypto"@.len() != "weather"@.len());
}

/// Ten orders fill the minute and two the five minutes of a ticker, counting those that are
/// younger than that; one fewer leaves room.
pub proof fn limits_count_young_orders(l: Ledger, ticker: Seq<char>, at: u64, now: u64)
    requires
        at <= now,
    ensures
        l.minute_has_room(now) <==> recent(l.stamps, now, 60) < 10,
        l.ticker_stamps.contains_key(ticker) ==> (l.ticker_has_room(ticker, now) <==> recent(
            l.ticker_stamps[ticker],
            now,
            300,
        ) < 2),
        !l.ticker_stamps.contains_key(ticker) ==> l.ticker_has_room(ticker, now),
        recent(l.stamps.push(at), now, 60) == recent(l.stamps, now, 60) + (if now - at < 60_000_000_000 {
            1nat
        } else {
            0
        }),
{
    counts_by_age(l.stamps, at, now, 60);
}

/// An order that goes out counts for every limit from then on until its span has passed, for its
/// own ticker and no other; nothing else changes.
pub proof fn submissions_count_for_their_ticker(l: Ledger, ticker: Seq<char>, other: Seq<char>, now: u64, later: u64)
    requires
        now <= later,
        other != ticker,
    ensures
        ({
            let after = l.with_submission(ticker, now);
            let before = if l.ticker_stamps.contains_key(ticker) { l.ticker_stamps[ticker] } else { Seq::empty() };
            &&& recent(after.stamps, later, 60) == recent(l.stamps, later, 60) + (if later - now < 60_000_000_000 {
                1nat
            } else {
                0
            })
            &&& after.ticker_stamps.contains_key(ticker)
            &&& recent(after.ticker_stamps[ticker], later, 300) == recent(before, later, 300) + (if later - now
                < 300_000_000_000 {
                1nat
            } else {
                0
            })
            &&& after.ticker_has_room(other, later) == l.ticker_has_room(other, later)
            &&& after.orders == l.orders && after.positions == l.positions && after.pnl == l.pnl && after.cooldowns
                == l.cooldowns && after.sequence == l.sequence
        }),
{
    let before = if l.ticker_stamps.contains_key(ticker) { l.ticker_stamps[ticker] } else { Seq::empty() };
    recording_lasts_its_span(l.stamps, now, later, 60);
    recording_lasts_its_span(before, now, later, 300);
}

/// The size of an order is what the stake comes to, but no more than the limit and never less
/// than one; a greater stake never makes it smaller.
pub proof fn sizes_follow_the_stake(config: Config, stake: i64, more: i64)
    requires
        stake <= more,
    ensures
        1 <= order_size(config, stake),
        order_size(config, stake) <= config.max_trade_size_cents || order_size(config, stake) == 1,
        1 <= stake <= config.max_trade_size_cents ==> order_size(config, stake) == stake,
        1 <= config.max_trade_size_cents <= stake ==> order_size(config, stake) == config.max_trade_size_cents,
        order_size(config, stake) <= order_size(config, more),
{
}

/// An entry is let through exactly if its type is not halted, its feeds are fresh, its ticker does
/// not rest or the signal passes by, nothing is held in it, there are fewer positions than allowed,
/// less was lost today than allowed, the exposure stays within its limit, and both limits on the
/// number of orders leave room.
pub proof fn entries_pass_if_nothing_objects(
    l: Ledger,
    config: Config,
    signal: Signal,
    stake: i64,
    switches: KillSwitchState,
    last_update: Map<Seq<char>, u64>,
    now: u64,
    today: i64,
)
    ensures
        l.refusal(config, signal, stake, switches, last_update, now, today) is None <==> {
            &&& !switches.kill_all
            &&& signal.signal_type@ == "crypto"@ ==> !switches.kill_crypto
            &&& signal.signal_type@ == "weather"@ ==> !switches.kill_weather
            &&& blocking_feeds(last_update, signal.signal_type@, now).len() == 0
            &&& !l.cooling(signal, Some(config), now) || signal.priority is LockDetection || (signal.priority is NewData
                && config.crypto_min_edge.value.twice().lt(signal.edge))
            &&& !l.positions.contains_key(signal.ticker@)
            &&& l.positions.len() < config.max_positions
            &&& (if l.pnl.day == today && l.pnl.net_pnl_cents < 0 { -l.pnl.net_pnl_cents } else { 0 })
                < config.max_daily_loss_cents
            &&& total_exposure(l.orders) + order_size(config, stake) <= config.max_exposure_cents
            &&& recent(l.stamps, now, 60) < 10
            &&& l.ticker_stamps.contains_key(signal.ticker@) ==> recent(l.ticker_stamps[signal.ticker@], now, 300) < 2
        },
{
}

/// A refusal names its reason, the first that applies in a fixed order.
pub proof fn refusals_name_their_reason(
    l: Ledger,
    config: Config,
    signal: Signal,
    stake: i64,
    switches: KillSwitchState,
    last_update: Map<Seq<char>, u64>,
    now: u64,
    today: i64,
)
    ensures
        ({
            let r = l.refusal(config, signal, stake, switches, last_update, now, today);
            let halted = switches.kill_all || (switches.kill_crypto && signal.signal_type@ == "crypto"@) || (
            switches.kill_weather && signal.signal_type@ == "weather"@);
            let stale = blocking_feeds(last_update, signal.signal_type@, now);
            let resting = l.cooling(signal, Some(config), now) && !(signal.priority is LockDetection) && !(
            signal.priority is NewData && config.crypto_min_edge.value.twice().lt(signal.edge));
            let held = l.positions.contains_key(signal.ticker@);
            let full = l.positions.len() >= config.max_positions;
            let lost = if l.pnl.day == today && l.pnl.net_pnl_cents < 0 { -l.pnl.net_pnl_cents } else { 0 };
            let ruined = lost >= config.max_daily_loss_cents;
            let exposed = total_exposure(l.orders) + order_size(config, stake) > config.max_exposure_cents;
            let busy = recent(l.stamps, now, 60) >= 10;
            &&& halted ==> r == Some("blocked by kill switch"@)
            &&& !halted && stale.len() > 0 ==> r == Some("stale feeds: ["@ + marked_list(stale) + "]"@)
            &&& !halted && stale.len() == 0 && resting ==> r == Some(
                "signal cooldown ("@ + decimal(cooldown(signal.signal_type@, Some(config)) as int) + "s remaining)"@,
            )
            &&& !halted && stale.len() == 0 && !resting && held ==> r == Some("already holding position"@)
            &&& !halted && stale.len() == 0 && !resting && !held && full ==> r == Some(
                "max positions reached ("@ + decimal(l.positions.len() as int) + "/"@ + decimal(
                    config.max_positions as int,
                ) + ")"@,
            )
            &&& !halted && stale.len() == 0 && !resting && !held && !full && ruined ==> r == Some(
                "daily loss limit reached ("@ + decimal(lost as int) + " >= "@ + decimal(
                    config.max_daily_loss_cents as int,
                ) + ")"@,
            )
            &&& !halted && stale.len() == 0 && !resting && !held && !full && !ruined && exposed ==> r == Some(
                "would exceed max exposure"@,
            )
            &&& !halted && stale.len() == 0 && !resting && !held && !full && !ruined && !exposed && busy ==> r == Some(
                "global rate limit (10/min)"@,
            )
            &&& !halted && stale.len() == 0 && !resting && !held && !full && !ruined && !exposed && !busy ==> r is None
                || r == Some("per-ticker rate limit (2/5min)"@)
        }),
{
}

/// An order carries what its signal says, is about to be sent, and has nothing filled yet.
pub proof fn orders_carry_their_signal(
    l: Ledger,
    signal: Signal,
    percent: i64,
    direction: Seq<char>,
    size: i64,
    signal_id: Option<i64>,
    crypto_state: CryptoStateInner,
    now: u64,
)
    ensures
        ({
            let o = l.opened(signal, percent, direction, size, signal_id, crypto_state, now);
            &&& o.client_order_id == l.next_id(signal, percent)
            &&& o.ticker == signal.ticker@ && o.signal_type == signal.signal_type@ && o.direction == direction
            &&& o.requested_qty == size && o.filled_qty == 0 && o.signal_id == signal_id
            &&& o.model_prob == signal.model_prob && o.market_price == signal.market_price
            &&& o.state is Submitting && o.created_at == now && o.kalshi_order_id is None && o.entry_price is None
            &&& o.crypto_snapshot == (if signal.signal_type@ == "crypto"@ { Some(crypto_state) } else { None })
            &&& o.transitions == seq![(OrderState::Pending, now), (OrderState::Submitting, now)]
        }),
{
    assert(seq![(OrderState::Pending, now)].push((OrderState::Submitting, now)) =~= seq![
        (OrderState::Pending, now),
        (OrderState::Submitting, now),
    ]);
}

/// A fill in full closes an order, less leaves it partly filled, and nothing changes nothing; the
/// price told is kept, and without one the price before.
pub proof fn fills_move_orders(o: OrderRecord, qty: i64, price: Option<FillPrice>, now: u64)
    ensures
        ({
            let f = o.took_fill(qty, price, now);
            &&& f.filled_qty == qty
            &&& price is Some ==> f.entry_price == price
            &&& price is None ==> f.entry_price == o.entry_price
            &&& o.requested_qty <= qty ==> f.state is Filled
            &&& 0 < qty < o.requested_qty ==> f.state is PartialFill
            &&& qty <= 0 && qty < o.requested_qty ==> f.state == o.state && f.transitions == o.transitions
            &&& qty > 0 ==> f.transitions == o.transitions.push((f.state, now))
            &&& f.requested_qty == o.requested_qty && f.ticker == o.ticker && f.direction == o.direction
                && f.client_order_id == o.client_order_id && f.created_at == o.created_at && f.signal_id == o.signal_id
        }),
{
}

/// The order that the exchange took: filled, partly filled or waiting by what it says was ordered
/// less what it says remains, at the price of yes or else of no, under the id that it gave.
pub proof fn replies_tell_what_was_filled(o: OrderRecord, reply: Order, now: u64)
    requires
        o.requested_qty > 0,
    ensures
        ({
            let a = Ledger::accepted(o, reply, now);
            let count = if reply.count is Some { reply.count->0 as int } else { 0 };
            let remaining = if reply.remaining_count is Some { reply.remaining_count->0 as int } else { 0 };
            let filled = count - remaining;
            &&& a.kalshi_order_id == Some(reply.order_id@)
            &&& filled <= 0 ==> a.state is Acknowledged && a.filled_qty == o.filled_qty && a.entry_price
                == o.entry_price
            &&& 0 < filled <= i64::MAX ==> a.filled_qty == filled
            &&& 0 < filled < o.requested_qty ==> a.state is PartialFill
            &&& o.requested_qty <= filled ==> a.state is Filled
            &&& filled > 0 && reply.yes_price is Some ==> a.entry_price == Some(FillPrice::Cents(reply.yes_price->0))
            &&& filled > 0 && reply.yes_price is None && reply.no_price is Some ==> a.entry_price == Some(
                FillPrice::Cents(reply.no_price->0),
            )
            &&& filled > 0 && reply.yes_price is None && reply.no_price is None ==> a.entry_price == o.entry_price
            &&& a.requested_qty == o.requested_qty && a.ticker == o.ticker && a.client_order_id == o.client_order_id
        }),
{
}

/// An entry that the exchange took holds a position exactly if something was filled, rests its
/// ticker and counts as sent. One that the exchange refuses for want of funds, because its market
/// is closed or for too many requests is rejected and changes nothing; after any other error the
/// fate of the order is unknown, and it is kept so.
pub proof fn entries_settle_by_the_reply(
    r: Answered,
    before: Ledger,
    after: Ledger,
    order: OrderRecord,
    ticker: Seq<char>,
    reply: Result<Order, KalshiError>,
    latency_ms: i64,
    now: u64,
)
    requires
        settles_entry(r, before, after, order, ticker, reply, latency_ms, now),
        order.requested_qty > 0,
    ensures
        match reply {
            Ok(placed) => {
                let filled = stated(placed.count) - stated(placed.remaining_count) > 0;
                &&& r matches Answered::Store { order: o, .. } && o.latency_ms == Some(latency_ms) && o@.ticker
                    == order.ticker && o@.client_order_id == order.client_order_id
                &&& filled ==> after.positions == before.positions.insert(ticker, order.client_order_id)
                &&& !filled ==> after.positions == before.positions
                &&& after.cooldowns == before.cooldowns.insert(ticker, now)
                &&& after.stamps == before.with_submission(ticker, now).stamps
                &&& after.ticker_stamps == before.with_submission(ticker, now).ticker_stamps
                &&& after.orders == before.orders && after.pnl == before.pnl && after.sequence == before.sequence
            },
            Err(e) => {
                let refused = e is InsufficientFunds || e is MarketClosed || e is RateLimit;
                &&& refused ==> after == before && (r matches Answered::Store { order: o, .. } && o.state is Rejected
                    && o.filled_qty == order.filled_qty)
                &&& !refused ==> (r matches Answered::Failed { error } && error == e)
                &&& !refused ==> after.orders.contains_key(order.client_order_id) && after.orders[order.client_order_id].state
                    is Unknown && after.positions == before.positions && after.cooldowns == before.cooldowns && after.stamps
                    == before.stamps
            },
        },
{
}

/// On paper an entry is filled in full at the market price and its position is held; otherwise the
/// exchange is asked to buy the order's size on the signal's side, and only a number is used up.
pub proof fn entries_buy_what_is_wanted(
    r: Submission,
    before: Ledger,
    after: Ledger,
    config: Config,
    signal: Signal,
    stake: i64,
    percent: i64,
    signal_id: Option<i64>,
    crypto_state: CryptoStateInner,
    now: u64,
)
    requires
        submits(r, before, after, config, signal, stake, percent, signal_id, crypto_state, now),
        before.sequence < u64::MAX,
    ensures
        after.sequence == before.sequence + 1,
        after.orders == before.orders && after.pnl == before.pnl,
        r.order.requested_qty == order_size(config, stake) && r.order.direction@ == signal.direction@ && r.order.ticker@
            == signal.ticker@,
        r.order.signal_id == signal_id,
        config.paper_mode ==> {
            &&& r.request is None
            &&& r.order.state is Filled && r.order.filled_qty == order_size(config, stake)
            &&& r.order.entry_price == Some(FillPrice::Quote(signal.market_price))
            &&& after.positions == before.positions.insert(signal.ticker@, r.order.client_order_id@)
            &&& after.cooldowns == before.cooldowns.insert(signal.ticker@, now)
        },
        !config.paper_mode ==> {
            &&& r.request matches Some(q) && q.action@ == "buy"@ && q.side@ == signal.direction@ && q.count
                == order_size(config, stake) && q.ticker@ == signal.ticker@ && q.order_type@ == "market"@
            &&& r.order.state is Submitting && r.order.filled_qty == 0
            &&& after.positions == before.positions && after.cooldowns == before.cooldowns && after.stamps
                == before.stamps
        },
{
}

/// An entry that is prepared is of the same order, whether it is asked for or filled on paper; its
/// ticker rests, it counts as sent, and no position is held for it yet.
pub proof fn prepared_entries_hold_nothing_yet(
    r: Submission,
    before: Ledger,
    config: Config,
    signal: Signal,
    stake: i64,
    percent: i64,
    crypto_state: CryptoStateInner,
    now: u64,
)
    requires
        prepares(r, before, config, signal, stake, percent, crypto_state, now),
        before.sequence < u64::MAX,
    ensures
        r.order.requested_qty == order_size(config, stake) && r.order.direction@ == signal.direction@ && r.order.ticker@
            == signal.ticker@,
        r.order.state is Submitting && r.order.filled_qty == 0 && r.order.signal_id is None,
        r.request is None <==> config.paper_mode,
        r.request matches Some(q) ==> q.action@ == "buy"@ && q.side@ == signal.direction@ && q.count == order_size(
            config,
            stake,
        ) && q.ticker@ == signal.ticker@,
        ({
            let after = before.prepared(signal.ticker@, now);
            &&& after.sequence == before.sequence + 1
            &&& after.cooldowns == before.cooldowns.insert(signal.ticker@, now)
            &&& after.stamps == before.with_submission(signal.ticker@, now).stamps
            &&& after.ticker_stamps == before.with_submission(signal.ticker@, now).ticker_stamps
            &&& after.positions == before.positions && after.orders == before.orders && after.pnl == before.pnl
        }),
{
}

/// A paper fill of no is at what the market price leaves to one, any other at the market price.
pub proof fn paper_prices_are_of_their_side(signal: Signal, rest: Float)
    ensures
        signal.direction@ == "no"@ ==> paper_price(signal, rest) == rest,
        signal.direction@ != "no"@ ==> paper_price(signal, rest) == signal.market_price,
{
}

/// A request asks for a market order on one side and of one size, without a price of its own, under
/// the id of the order.
pub proof fn requests_ask_for_the_market(
    r: OrderRequest,
    ticker: Seq<char>,
    action: Seq<char>,
    side: Seq<char>,
    count: i64,
    id: Seq<char>,
)
    requires
        asks_for(r, ticker, action, side, count, id),
    ensures
        r.order_type@ == "market"@ && r.yes_price is None && r.no_price is None && r.expiration_time is None,
        r.ticker@ == ticker && r.action@ == action && r.side@ == side && r.count == count,
        r.client_order_id is Some && (r.client_order_id->0)@ == id,
{
}

/// There is an exit exactly where a position is held. It sells what the order of the position
/// bought, or one where that is not kept. On paper the position is gone and its outcome booked
/// where the price paid is known; otherwise the exchange is asked to sell, and the position stays.
pub proof fn exits_sell_what_is_held(
    r: Option<Submission>,
    before: Ledger,
    after: Ledger,
    config: Config,
    signal: Signal,
    percent: i64,
    signal_id: Option<i64>,
    crypto_state: CryptoStateInner,
    pnl: i64,
    now: u64,
    today: i64,
)
    requires
        exits(r, before, after, config, signal, percent, signal_id, crypto_state, pnl, now, today),
        before.sequence < u64::MAX,
    ensures
        ({
            let t = signal.ticker@;
            let held = before.positions.contains_key(t);
            let kept = held && before.orders.contains_key(before.positions[t]);
            let size = if kept { before.orders[before.positions[t]].filled_qty } else { 1 };
            let known = kept && before.orders[before.positions[t]].entry_price is Some;
            &&& r is Some <==> held
            &&& !held ==> after == before
            &&& r matches Some(sub) ==> {
                &&& sub.order.requested_qty == size && sub.order.ticker@ == t
                &&& sub.order.direction@ == (if signal.direction@ == "yes"@ { "yes"@ } else { "no"@ })
                &&& sub.request is None <==> config.paper_mode
                &&& sub.request matches Some(q) ==> q.action@ == "sell"@ && q.count == size && q.ticker@ == t && q.side@
                    == sub.order.direction@
                &&& config.paper_mode ==> sub.order.state is Filled && sub.order.filled_qty == size
            }
            &&& held ==> after.sequence == before.sequence + 1 && after.orders == before.orders
            &&& held && config.paper_mode ==> after.positions == before.positions.remove(t)
            &&& held && !config.paper_mode ==> after.positions == before.positions && after.pnl == before.pnl
            &&& held && config.paper_mode && !known ==> after.pnl == before.pnl
            &&& held && config.paper_mode && known && before.can_close(t, pnl, today) ==> after.pnl.day == today
                && after.pnl.net_pnl_cents == (if before.pnl.day == today { before.pnl.net_pnl_cents as int } else { 0 })
                + pnl
        }),
{
}

/// An exit that the exchange filled in full closes its position and books the outcome where the
/// price paid is known; one that is filled in part, or not at all, closes nothing. After an error
/// the fate of the exit is unknown, and the position stays.
pub proof fn exits_settle_by_the_reply(
    r: Answered,
    before: Ledger,
    after: Ledger,
    order: OrderRecord,
    ticker: Seq<char>,
    reply: Result<Order, KalshiError>,
    pnl: i64,
    now: u64,
    today: i64,
)
    requires
        settles_exit(r, before, after, order, ticker, reply, pnl, now, today),
        order.requested_qty > 0,
    ensures
        match reply {
            Ok(placed) => {
                let filled = stated(placed.count) - stated(placed.remaining_count);
                let known = before.positions.contains_key(ticker) && before.orders.contains_key(
                    before.positions[ticker],
                ) && before.orders[before.positions[ticker]].entry_price is Some;
                &&& filled >= order.requested_qty ==> after.positions == before.positions.remove(ticker)
                &&& filled < order.requested_qty ==> after == before
                &&& !known ==> after.pnl == before.pnl
                &&& filled >= order.requested_qty && known && before.can_close(ticker, pnl, today) ==> after.pnl.day
                    == today && after.pnl.net_pnl_cents == (if before.pnl.day == today {
                    before.pnl.net_pnl_cents as int
                } else {
                    0
                }) + pnl
                &&& after.orders == before.orders && after.sequence == before.sequence
                &&& r is Store
            },
            Err(e) => {
                &&& after.positions == before.positions && after.pnl == before.pnl
                &&& after.orders.contains_key(order.client_order_id) && after.orders[order.client_order_id].state is Unknown
                &&& r matches Answered::Failed { error } && error == e
            },
        },
{
}

/// A prepared entry is kept whatever the reply; it holds a position exactly if something was
/// filled.
pub proof fn prepared_entries_settle_by_the_reply(
    told: OrderRecord,
    r: Placed,
    before: Ledger,
    after: Ledger,
    order: OrderRecord,
    reply: Result<Order, KalshiError>,
    latency_ms: i64,
    now: u64,
)
    requires
        settles_prepared(told, r, before, after, order, reply, latency_ms, now),
        order.requested_qty > 0,
    ensures
        after.orders == before.orders.insert(order.client_order_id, told),
        after.pnl == before.pnl && after.cooldowns == before.cooldowns && after.stamps == before.stamps,
        match reply {
            Ok(placed) => {
                let filled = stated(placed.count) - stated(placed.remaining_count) > 0;
                &&& r is Taken && told.latency_ms == Some(latency_ms)
                &&& filled ==> after.positions == before.positions.insert(order.ticker, order.client_order_id)
                &&& !filled ==> after.positions == before.positions && told.state is Acknowledged
            },
            Err(e) => {
                let refused = e is InsufficientFunds || e is MarketClosed || e is RateLimit;
                &&& after.positions == before.positions
                &&& refused ==> r == Placed::Refused(e) && told.state is Rejected
                &&& !refused ==> r == Placed::Lost(e) && told.state is Unknown
            },
        },
{
}

/// A signal to exit leads to an exit exactly if a position is held and changes nothing by itself;
/// any other leads to an entry exactly if nothing speaks against it, and changes nothing if
/// something does.
pub proof fn signals_go_their_way(
    r: SignalRoute,
    before: Ledger,
    after: Ledger,
    config: Config,
    signal: Signal,
    stake: i64,
    percent: i64,
    switches: KillSwitchState,
    last_update: Map<Seq<char>, u64>,
    crypto_state: CryptoStateInner,
    now: u64,
    today: i64,
)
    requires
        routes(
            r,
            before,
            after,
            config,
            signal,
            stake,
            percent,
            switches,
            last_update,
            crypto_state,
            now,
            today,
        ),
    ensures
        r is Exit || r is Ignore <==> signal.action@ == "exit"@,
        r is Exit ==> before.positions.contains_key(signal.ticker@),
        r is Ignore ==> !before.positions.contains_key(signal.ticker@),
        r is Enter ==> !before.positions.contains_key(signal.ticker@) && !switches.kill_all,
        !(r is Enter) ==> after == before,
        r is Enter ==> before.refusal(config, signal, stake, switches, last_update, now, today) is None,
        r is Enter ==> after.cooldowns == before.cooldowns.insert(signal.ticker@, now) && after.positions
            == before.positions,
{
}

/// The exchange is asked to cancel exactly an order that it knows and that is acknowledged or
/// partly filled, and that order alone waits for the answer.
pub proof fn cancellable_orders_are_cancelled(r: Cancellation, before: Ledger, after: Ledger, id: Seq<char>, now: u64)
    requires
        asks_to_cancel(r, before, after, id, now),
    ensures
        r is Ask <==> before.orders.contains_key(id) && before.orders[id].kalshi_order_id is Some && (
        before.orders[id].state is Acknowledged || before.orders[id].state is PartialFill),
        r matches Cancellation::Ask(q) ==> Some(q@) == before.orders[id].kalshi_order_id,
        r is NoOrder <==> !before.orders.contains_key(id),
        r is NotPlaced <==> before.orders.contains_key(id) && before.orders[id].kalshi_order_id is None,
        !(r is Ask) ==> after == before,
        r is Ask ==> after.orders[id].state is CancelPending && after.orders[id].filled_qty == before.orders[id].filled_qty
            && after.orders.remove(id) == before.orders.remove(id) && after.positions == before.positions,
{
    if r is Ask {
        assert(after.orders.remove(id) =~= before.orders.remove(id));
    }
}

/// An answer to a cancellation touches its order alone, and keeps what was filled of it.
pub proof fn cancellations_touch_one_order(l: Ledger, id: Seq<char>, other: Seq<char>, confirmed: bool, now: u64)
    requires
        l.orders.contains_key(id),
        other != id,
    ensures
        ({
            let after = l.cancelled(id, confirmed, now);
            &&& after.orders.contains_key(id) && after.orders[id].filled_qty == l.orders[id].filled_qty
            &&& after.orders[id].state == (if confirmed { OrderState::Cancelled } else { OrderState::Unknown })
            &&& after.orders.contains_key(other) == l.orders.contains_key(other)
            &&& l.orders.contains_key(other) ==> after.orders[other] == l.orders[other]
            &&& confirmed && l.orders[id].filled_qty == 0 ==> after.positions == l.positions.remove(l.orders[id].ticker)
            &&& !confirmed || l.orders[id].filled_qty != 0 ==> after.positions == l.positions
            &&& after.pnl == l.pnl && after.cooldowns == l.cooldowns && after.stamps == l.stamps
        }),
{
}

/// An order is dropped exactly if it is filled, cancelled or rejected, was made an hour ago or
/// earlier, and no position names it; what is kept stays as it was.
pub proof fn old_closed_orders_are_dropped(l: Ledger, id: Seq<char>, now: u64)
    requires
        l.orders.contains_key(id),
    ensures
        ({
            let o = l.orders[id];
            let closed = o.state is Filled || o.state is Cancelled || o.state is Rejected;
            let named = exists|t: Seq<char>| #[trigger] l.positions.contains_key(t) && l.positions[t] == id;
            &&& l.tidied(now).orders.contains_key(id) <==> !closed || now - o.created_at < 3_600_000_000_000 || named
            &&& l.tidied(now).orders.contains_key(id) ==> l.tidied(now).orders[id] == o
        }),
        l.tidied(now).orders.dom().subset_of(l.orders.dom()),
        l.tidied(now).positions == l.positions && l.tidied(now).pnl == l.pnl,
{
    let named = exists|t: Seq<char>| #[trigger] l.positions.contains_key(t) && l.positions[t] == id;
    assert(named == l.rests_on(id));
}

/// What the exchange holds in a ticker is told by the last report on it that is not of nothing.
pub proof fn the_last_report_stands(reported: Seq<Position>, p: Position, t: Seq<char>)
    ensures
        !held_on_exchange(Seq::empty()).contains_key(t),
        stated(p.market_exposure) != 0 ==> held_on_exchange(reported.push(p)).contains_key(p.ticker@)
            && held_on_exchange(reported.push(p))[p.ticker@] == stated(p.market_exposure),
        stated(p.market_exposure) == 0 ==> held_on_exchange(reported.push(p)) == held_on_exchange(reported),
        t != p.ticker@ ==> held_on_exchange(reported.push(p)).contains_key(t) == held_on_exchange(
            reported,
        ).contains_key(t),
        t != p.ticker@ && held_on_exchange(reported).contains_key(t) ==> held_on_exchange(reported.push(p))[t]
            == held_on_exchange(reported)[t],
{
    assert(reported.push(p).drop_last() =~= reported);
}

/// There is a record on a ticker exactly if one side holds it and the other does not; the record
/// says which, what the exchange holds, and what was done.
pub proof fn records_tell_disagreements(
    entries: Seq<ReconciliationEntry>,
    m: int,
    there: Map<Seq<char>, i64>,
    here: Map<Seq<char>, Seq<char>>,
    t: Seq<char>,
    a: int,
)
    requires
        disagreements(entries, m, there, here),
        0 <= a < entries.len(),
    ensures
        (exists|i: int| 0 <= i < entries.len() && (#[trigger] entries[i]).ticker@ == t) <==> there.contains_key(t)
            != here.contains_key(t),
        there.contains_key(entries[a].ticker@) ==> entries[a].discrepancy@ == "missing_local"@
            && entries[a].action_taken@ == "added_to_tracker"@ && entries[a].local_qty is None && entries[a].exchange_qty
            is Some,
        here.contains_key(entries[a].ticker@) ==> entries[a].discrepancy@ == "missing_exchange"@
            && entries[a].action_taken@ == "removed_from_tracker"@ && entries[a].local_qty == Some(1i32)
            && entries[a].exchange_qty is None,
        there.contains_key(entries[a].ticker@) && -0x8000_0000 <= there[entries[a].ticker@] <= 0x7fff_ffff
            ==> entries[a].exchange_qty == Some(there[entries[a].ticker@] as i32),
        forall|b: int| 0 <= b < entries.len() && (#[trigger] entries[b]).ticker@ == entries[a].ticker@ ==> b == a,
{
    if a < m {
        assert(missing_here(entries[a], there, here));
    } else {
        assert(missing_there(entries[a], there, here));
    }
    if exists|i: int| 0 <= i < entries.len() && (#[trigger] entries[i]).ticker@ == t {
        let i = choose|i: int| 0 <= i < entries.len() && (#[trigger] entries[i]).ticker@ == t;
        if i < m {
            assert(missing_here(entries[i], there, here));
        } else {
            assert(missing_there(entries[i], there, here));
        }
    }
    if there.contains_key(t) != here.contains_key(t) {
        assert(has_ticker(entries, t));
    }
    if there.contains_key(entries[a].ticker@) {
        small_halves_are_themselves(there[entries[a].ticker@]);
    }
    assert forall|b: int| 0 <= b < entries.len() && (#[trigger] entries[b]).ticker@ == entries[a].ticker@ implies b == a by {
        if b < a {
            assert(entries[b].ticker@ != entries[a].ticker@);
        } else if a < b {
            assert(entries[a].ticker@ != entries[b].ticker@);
        }
    }
}

/// A quantity that fits in 32 bits is told as it is; any other by its low 32 bits.
pub proof fn small_halves_are_themselves(q: i64)
    ensures
        -0x8000_0000 <= q <= 0x7fff_ffff ==> low_half(q) == q,
        (q - low_half(q)) % 0x1_0000_0000 == 0,
{
}

/// The digits of an id are those of a hash over the signal's ticker, direction and type, each
/// closed by a byte that no text holds, and over the percentage; its number counts up by one.
pub proof fn ids_hash_their_signal(l: Ledger, signal: Signal, percent: i64)
    requires
        l.sequence < u64::MAX - 1,
    ensures
        signal_hash(signal, percent) == DefaultHasher::spec_finish(
            seq![
                encode_utf8(signal.ticker@),
                seq![0xffu8],
                encode_utf8(signal.direction@),
                seq![0xffu8],
                encode_utf8(signal.signal_type@),
                seq![0xffu8],
                spec_u64_to_le_bytes((if percent < 0 { percent + 0x1_0000_0000_0000_0000 } else { percent as int }) as u64),
            ],
        ),
        l.next_id(signal, percent) == order_id(signal_hash(signal, percent), (l.sequence + 1) as u64),
        l.numbered().next_id(signal, percent) != l.next_id(signal, percent),
        l.numbered().sequence == l.sequence + 1,
{
    ids_never_repeat(
        signal_hash(signal, percent),
        (l.sequence + 1) as u64,
        signal_hash(signal, percent),
        (l.sequence + 2) as u64,
    );
}

/// An order that holds a position is kept under its id, and the position names it; nothing else
/// changes.
pub proof fn holders_are_kept(l: Ledger, ticker: Seq<char>, other: Seq<char>, o: OrderRecord)
    requires
        other != ticker,
    ensures
        ({
            let h = l.holding(ticker, o);
            &&& h.holder(ticker) == Some(o)
            &&& h.exit_size(ticker) == o.filled_qty && h.held_way(ticker) == o.direction
            &&& h.positions.contains_key(other) == l.positions.contains_key(other)
            &&& h.positions.remove(ticker) == l.positions.remove(ticker)
            &&& h.pnl == l.pnl && h.stamps == l.stamps && h.cooldowns == l.cooldowns && h.sequence == l.sequence
        }),
        ({
            let p = l.with_position(ticker, o.client_order_id);
            !l.orders.contains_key(o.client_order_id) ==> p.holder(ticker) is None && p.exit_size(ticker) == 1
                && p.held_way(ticker) == "yes"@
        }),
{
    assert(l.holding(ticker, o).positions.remove(ticker) =~= l.positions.remove(ticker));
}

/// The price paid for a position is that of the order which holds it, and unknown where that order
/// is not kept or tells none; an outcome is booked exactly where it is known.
pub proof fn prices_paid_are_those_of_the_order(l: Ledger, ticker: Seq<char>, pnl: i64, today: i64)
    requires
        l.positions.contains_key(ticker),
    ensures
        l.orders.contains_key(l.positions[ticker]) ==> l.price_paid(ticker) == l.orders[l.positions[ticker]].entry_price,
        !l.orders.contains_key(l.positions[ticker]) ==> l.price_paid(ticker) is None,
        l.price_paid(ticker) is None ==> l.closed(ticker, pnl, today).pnl == l.pnl,
        l.price_paid(ticker) is Some && l.can_close(ticker, pnl, today) ==> l.closed(ticker, pnl, today).pnl.net_pnl_cents
            == (if l.pnl.day == today { l.pnl.net_pnl_cents as int } else { 0 }) + pnl,
        l.closed(ticker, pnl, today).positions == l.positions.remove(ticker),
        l.price_paid(ticker) is None ==> l.can_close(ticker, pnl, today),
{
}

/// A stored order is likely settled exactly if it counts as filled and nothing is held in its
/// ticker.
pub proof fn filled_orders_without_position_are_settled(l: Ledger, ticker: Seq<char>, state: OrderState)
    ensures
        l.likely_settled(ticker, state.name()) <==> state is Filled && !l.positions.contains_key(ticker),
{
    states_have_their_names(state);
}

/// An exit can be answered whatever comes, unless the reply fills it in full and its outcome does
/// not fit the balance.
pub proof fn exits_can_be_answered_unless_filled(
    l: Ledger,
    order: OrderRecord,
    placed: Order,
    e: KalshiError,
    ticker: Seq<char>,
    pnl: i64,
    today: i64,
    now: u64,
)
    requires
        order.requested_qty > 0,
    ensures
        l.can_answer_exit(order, Err(e), ticker, pnl, today),
        l.can_answer_exit(order, Ok(placed), ticker, pnl, today) <==> !(Ledger::accepted(order, placed, now).state
            is Filled) || l.can_close(ticker, pnl, today),
{
}

/// Names are listed in their order, each between quotation marks, with a comma between two.
pub proof fn names_are_listed_in_order(names: Seq<Seq<char>>, name: Seq<char>)
    ensures
        marked_list(Seq::empty()).len() == 0,
        names.len() == 0 ==> marked_list(names.push(name)) == "\""@ + name + "\""@,
        names.len() > 0 ==> marked_list(names.push(name)) == marked_list(names) + ", "@ + ("\""@ + name + "\""@),
{
    assert(names.push(name).drop_last() =~= names);
}

/// An order is called back exactly if it is acknowledged or partly filled and everything is halted
/// or its own strategy is.
pub proof fn halted_orders_are_called_back(o: OrderRecord, switches: KillSwitchState)
    ensures
        called_back(o, switches) <==> (o.state is Acknowledged || o.state is PartialFill) && ((o.signal_type == "crypto"@
            && (switches.kill_all || switches.kill_crypto)) || (o.signal_type == "weather"@ && (switches.kill_all
            || switches.kill_weather))),
{
    types_are_halted_by_their_switch(switches, o.signal_type);
}

} // verus!
