//! What the dashboard shows.
use vstd::prelude::*;
use vstd::string::*;

use crate::config::Config;
use crate::contract_discovery::{remaining, CryptoContract};
use crate::crypto_state::{above_zero, CryptoStateInner};
use crate::feed_health::{fresh, FeedHealth};
use crate::float::Float;
use crate::kill_switch::{KillSwitchSnapshot, KillSwitchState};
use crate::order_manager::{FillPrice, ManagedOrder, OrderManager, OrderRecord};
use crate::time::{elapsed, since, Moment};

verus! {

/// A feed: whether it has brought anything, and how long ago.
#[derive(Clone, Copy, Debug, PartialEq, Eq, Structural)]
pub struct FeedInfo {
    pub connected: bool,
    pub age_ms: Option<u64>,
}

#[derive(Clone, Copy, Debug, PartialEq, Eq, Structural)]
pub struct FeedStatus {
    pub coinbase: FeedInfo,
    pub binance_spot: FeedInfo,
    pub binance_futures: FeedInfo,
    pub deribit: FeedInfo,
    pub kalshi_ws: FeedInfo,
}

/// An order that is open or has been filled.
#[derive(Debug)]
pub struct PositionInfo {
    pub ticker: String,
    pub direction: String,
    pub size: i64,
    pub state: String,
    pub model_prob: Float,
    pub market_price: Float,
    pub entry_price: Option<FillPrice>,
}

/// How far the limits are used.
#[derive(Debug)]
pub struct RiskSnapshot {
    pub position_count: usize,
    pub max_positions: usize,
    pub daily_pnl_cents: i64,
    pub daily_loss_cents: i64,
    pub max_daily_loss_cents: i64,
    pub max_exposure_cents: i64,
    pub max_trade_size_cents: i64,
    pub positions: Vec<PositionInfo>,
}

/// A contract that is watched.
#[derive(Debug)]
pub struct ContractInfo {
    pub ticker: String,
    pub strike: Float,
    pub settlement_time: Moment,
    pub seconds_remaining: i128,
}

/// Everything at one moment.
#[derive(Debug)]
pub struct ApiState {
    pub snapshot: CryptoStateInner,
    pub feeds: FeedStatus,
    pub kill_switches: KillSwitchSnapshot,
    pub risk: RiskSnapshot,
    pub contracts: Vec<ContractInfo>,
    pub paper_mode: bool,
}

/// A feed that has brought a price, and when.
pub open spec fn feed_of(price: Float, updated: Option<u64>, now: u64) -> FeedInfo {
    FeedInfo {
        connected: above_zero(price),
        age_ms: match updated {
            Some(t) => Some((since(now, t) / 1_000_000) as u64),
            None => None,
        },
    }
}

fn feed_info(price: Float, updated: Option<u64>, now: u64) -> (r: FeedInfo)
    ensures
        r == feed_of(price, updated, now),
{
    FeedInfo {
        connected: price.positive(),
        age_ms: match updated {
            Some(t) => Some(elapsed(now, t) / 1_000_000),
            None => None,
        },
    }
}

pub open spec fn feeds_of(s: CryptoStateInner, last_update: Map<Seq<char>, u64>, now: u64) -> FeedStatus {
    FeedStatus {
        coinbase: feed_of(s.coinbase_spot, s.coinbase_updated, now),
        binance_spot: feed_of(s.binance_spot, s.binance_spot_updated, now),
        binance_futures: feed_of(s.perp_price, s.futures_updated, now),
        deribit: feed_of(s.dvol, s.dvol_updated, now),
        kalshi_ws: FeedInfo { connected: fresh(last_update, "kalshi_ws"@, now), age_ms: None },
    }
}

/// The state of all feeds.
pub fn feed_status(snapshot: &CryptoStateInner, feed_health: &FeedHealth, now: u64) -> (r: FeedStatus)
    ensures
        r == feeds_of(*snapshot, feed_health@, now),
{
    FeedStatus {
        coinbase: feed_info(snapshot.coinbase_spot, snapshot.coinbase_updated, now),
        binance_spot: feed_info(snapshot.binance_spot, snapshot.binance_spot_updated, now),
        binance_futures: feed_info(snapshot.perp_price, snapshot.futures_updated, now),
        deribit: feed_info(snapshot.dvol, snapshot.dvol_updated, now),
        kalshi_ws: FeedInfo { connected: feed_health.is_healthy("kalshi_ws", now), age_ms: None },
    }
}

/// An order that is shown: one that is not closed, or that has been filled.
pub open spec fn shown(o: OrderRecord) -> bool {
    !o.state.terminal() || o.state.filled()
}

/// What is shown of an order.
pub open spec fn shows(p: PositionInfo, o: OrderRecord) -> bool {
    &&& p.ticker@ == o.ticker
    &&& p.direction@ == o.direction
    &&& p.size == o.requested_qty
    &&& p.state@ == o.state.name()
    &&& p.model_prob == o.model_prob
    &&& p.market_price == o.market_price
    &&& p.entry_price == o.entry_price
}

/// The orders that are shown.
pub open spec fn shown_orders(list: Seq<OrderRecord>) -> Seq<OrderRecord> {
    list.filter(|o: OrderRecord| shown(o))
}

/// The orders that are open or have been filled.
pub fn positions_shown(orders: &OrderManager) -> (r: Vec<PositionInfo>)
    requires
        orders.wf(),
    ensures
        r@.len() == shown_orders(orders.order_list()).len(),
        forall|i: int| 0 <= i < r@.len() ==> shows(#[trigger] r@[i], shown_orders(orders.order_list())[i]),
{
    let all: Vec<&ManagedOrder> = orders.all_orders();
    let ghost list = orders.order_list();
    let ghost keep = |o: OrderRecord| shown(o);
    let mut out: Vec<PositionInfo> = Vec::new();
    let mut i: usize = 0;
    proof {
        reveal(Seq::filter);
        assert(list.take(0) =~= Seq::<OrderRecord>::empty());
    }
    while i < all.len()
        invariant
            i <= all@.len(),
            list == all@.map_values(|o: &ManagedOrder| o@),
            keep == (|o: OrderRecord| shown(o)),
            out@.len() == list.take(i as int).filter(keep).len(),
            forall|j: int| 0 <= j < out@.len() ==> shows(#[trigger] out@[j], list.take(i as int).filter(keep)[j]),
        decreases all@.len() - i,
    {
        let o: &ManagedOrder = all[i];
        proof {
            reveal(Seq::filter);
            assert(list[i as int] == o@);
            assert(list.take(i + 1).drop_last() =~= list.take(i as int));
            assert(list.take(i + 1).last() == o@);
        }
        if !o.state.is_terminal() || o.state.has_fill() {
            out.push(
                PositionInfo {
                    ticker: o.ticker.clone(),
                    direction: o.direction.clone(),
                    size: o.requested_qty,
                    state: o.state.text().to_owned(),
                    model_prob: o.model_prob,
                    market_price: o.market_price,
                    entry_price: o.entry_price,
                },
            );
        }
        i = i + 1;
    }
    assert(list.take(list.len() as int) =~= list);
    out
}

/// How far the limits are used.
pub open spec fn risks(r: RiskSnapshot, orders: OrderManager, config: Config, today: i64) -> bool {
    &&& r.position_count == orders@.positions.len()
    &&& r.max_positions == config.max_positions
    &&& r.daily_pnl_cents == orders@.pnl.net_pnl_cents
    &&& r.daily_loss_cents == orders@.pnl.loss_on(today)
    &&& r.max_daily_loss_cents == config.max_daily_loss_cents
    &&& r.max_exposure_cents == config.max_exposure_cents
    &&& r.max_trade_size_cents == config.max_trade_size_cents
    &&& r.positions@.len() == shown_orders(orders.order_list()).len()
    &&& forall|i: int| 0 <= i < r.positions@.len() ==> shows(
        #[trigger] r.positions@[i],
        shown_orders(orders.order_list())[i],
    )
}

/// How far the limits are used.
pub fn risk_snapshot(orders: &OrderManager, config: &Config, today: i64) -> (r: RiskSnapshot)
    requires
        orders.wf(),
    ensures
        risks(r, *orders, *config, today),
{
    RiskSnapshot {
        position_count: orders.position_count(),
        max_positions: config.max_positions,
        daily_pnl_cents: orders.daily_pnl_cents(),
        daily_loss_cents: orders.daily_loss_cents(today),
        max_daily_loss_cents: config.max_daily_loss_cents,
        max_exposure_cents: config.max_exposure_cents,
        max_trade_size_cents: config.max_trade_size_cents,
        positions: positions_shown(orders),
    }
}

/// What is shown of contracts at a moment: the seconds that remain are whole ones, the rest dropped.
pub open spec fn lists_contracts(r: Seq<ContractInfo>, contracts: Seq<CryptoContract>, wall: Moment) -> bool {
    &&& r.len() == contracts.len()
    &&& forall|i: int| #![trigger r[i]] 0 <= i < r.len() ==> {
        &&& r[i].ticker@ == contracts[i].ticker@
        &&& r[i].strike == contracts[i].strike
        &&& r[i].settlement_time == contracts[i].settlement_time
        &&& r[i].seconds_remaining == remaining(contracts[i].settlement_time, wall)
    }
}

fn contract_infos(contracts: &Vec<CryptoContract>, wall: Moment) -> (r: Vec<ContractInfo>)
    ensures
        lists_contracts(r@, contracts@, wall),
{
    let mut out: Vec<ContractInfo> = Vec::new();
    let mut i: usize = 0;
    while i < contracts.len()
        invariant
            i <= contracts@.len(),
            lists_contracts(out@, contracts@.take(i as int), wall),
        decreases contracts@.len() - i,
    {
        let c: &CryptoContract = &contracts[i];
        out.push(
            ContractInfo {
                ticker: c.ticker.clone(),
                strike: c.strike,
                settlement_time: c.settlement_time,
                seconds_remaining: c.seconds_remaining(wall),
            },
        );
        i = i + 1;
    }
    assert(contracts@.take(contracts@.len() as int) =~= contracts@);
    out
}

/// Everything at one moment.
pub fn api_state(
    snapshot: &CryptoStateInner,
    feed_health: &FeedHealth,
    kill_switch: &KillSwitchState,
    orders: &OrderManager,
    config: &Config,
    contracts: &Vec<CryptoContract>,
    now: u64,
    wall: Moment,
    today: i64,
) -> (r: ApiState)
    requires
        orders.wf(),
    ensures
        r.snapshot == *snapshot,
        r.feeds == feeds_of(*snapshot, feed_health@, now),
        r.kill_switches == kill_switch.shown(),
        risks(r.risk, *orders, *config, today),
        lists_contracts(r.contracts@, contracts@, wall),
        r.paper_mode == config.paper_mode,
{
    ApiState {
        snapshot: *snapshot,
        feeds: feed_status(snapshot, feed_health, now),
        kill_switches: kill_switch.snapshot(),
        risk: risk_snapshot(orders, config, today),
        contracts: contract_infos(contracts, wall),
        paper_mode: config.paper_mode,
    }
}

/// An order that was refused or cancelled is not shown, any other is.
pub proof fn only_dead_orders_are_hidden(o: OrderRecord)
    ensures
        shown(o) <==> !(o.state is Cancelled || o.state is Rejected),
{
}

/// A feed is shown as connected exactly if it has brought a price above zero, with its age in whole
/// milliseconds where it was ever updated.
pub proof fn feeds_are_shown_with_their_age(price: Float, updated: Option<u64>, now: u64)
    requires
        !price.not_a_number(),
    ensures
        feed_of(price, updated, now).connected <==> price.rank() > 0,
        feed_of(price, updated, now).age_ms is Some <==> updated is Some,
        updated is Some && updated->0 <= now ==> (feed_of(price, updated, now).age_ms matches Some(ms) && ms * 1_000_000
            <= now - updated->0 < ms * 1_000_000 + 1_000_000),
{
}

/// Each feed is shown by its own price and its own update, and the exchange by whether it is fresh.
pub proof fn feeds_are_shown_by_their_own_news(s: CryptoStateInner, last_update: Map<Seq<char>, u64>, now: u64)
    ensures
        ({
            let f = feeds_of(s, last_update, now);
            &&& f.coinbase == feed_of(s.coinbase_spot, s.coinbase_updated, now)
            &&& f.binance_spot == feed_of(s.binance_spot, s.binance_spot_updated, now)
            &&& f.binance_futures == feed_of(s.perp_price, s.futures_updated, now)
            &&& f.deribit == feed_of(s.dvol, s.dvol_updated, now)
            &&& f.kalshi_ws.connected == fresh(last_update, "kalshi_ws"@, now) && f.kalshi_ws.age_ms is None
        }),
{
}

/// What is shown of an order is its own.
pub proof fn orders_are_shown_as_they_are(p: PositionInfo, o: OrderRecord)
    requires
        shows(p, o),
    ensures
        p.ticker@ == o.ticker && p.direction@ == o.direction && p.size == o.requested_qty,
        p.state@ == o.state.name() && p.entry_price == o.entry_price,
        p.model_prob == o.model_prob && p.market_price == o.market_price,
{
}

/// Orders are shown in their order, without those that were cancelled or refused.
pub proof fn orders_are_shown_in_order(list: Seq<OrderRecord>, o: OrderRecord)
    ensures
        shown_orders(Seq::empty()).len() == 0,
        o.state is Cancelled || o.state is Rejected ==> shown_orders(list.push(o)) == shown_orders(list),
        !(o.state is Cancelled || o.state is Rejected) ==> shown_orders(list.push(o)) == shown_orders(list).push(o),
{
    reveal(Seq::filter);
    assert(list.push(o).drop_last() =~= list);
}

/// The use of the limits is told beside the limits: positions, balance and loss of the day.
pub proof fn limits_are_told_beside_their_use(r: RiskSnapshot, orders: OrderManager, config: Config, today: i64)
    requires
        risks(r, orders, config, today),
    ensures
        r.position_count == orders@.positions.len() && r.max_positions == config.max_positions,
        r.daily_pnl_cents == orders@.pnl.net_pnl_cents,
        orders@.pnl.day == today && orders@.pnl.net_pnl_cents < 0 ==> r.daily_loss_cents == -orders@.pnl.net_pnl_cents,
        orders@.pnl.day != today || orders@.pnl.net_pnl_cents >= 0 ==> r.daily_loss_cents == 0,
        r.max_daily_loss_cents == config.max_daily_loss_cents && r.max_exposure_cents == config.max_exposure_cents
            && r.max_trade_size_cents == config.max_trade_size_cents,
{
}

/// Every contract is listed once, in its place, with what remains until its own settlement.
pub proof fn contracts_are_listed_in_place(r: Seq<ContractInfo>, contracts: Seq<CryptoContract>, wall: Moment, i: int)
    requires
        lists_contracts(r, contracts, wall),
        0 <= i < contracts.len(),
    ensures
        r.len() == contracts.len(),
        r[i].ticker@ == contracts[i].ticker@ && r[i].strike == contracts[i].strike && r[i].settlement_time
            == contracts[i].settlement_time,
        r[i].seconds_remaining == remaining(contracts[i].settlement_time, wall),
{
}

} // verus!
