//! Whether the process is ready to trade.
use vstd::prelude::*;

use crate::feed_health::{score, strategies_score_by_their_feeds, system_score, FeedHealth};
use crate::float::Float;

verus! {

/// What readiness rests on.
#[derive(Clone, Copy, Debug, PartialEq, Eq, Structural)]
pub struct ReadinessResult {
    pub ready: bool,
    pub db: bool,
    pub redis: bool,
    pub nats: bool,
    pub feeds: bool,
}

/// The process is ready if all three services answer and the feeds score anything.
pub open spec fn ready_with(db: bool, redis: bool, nats: bool, score: Float) -> ReadinessResult {
    let feeds = (Float { bits: 0 }).lt(score);
    ReadinessResult { ready: db && redis && nats && feeds, db, redis, nats, feeds }
}

/// Whether the process is ready: all three services answer, and neither strategy is without
/// data.
pub fn readiness(db: bool, redis: bool, nats: bool, feed_health: &FeedHealth, now: u64) -> (r: ReadinessResult)
    ensures
        r == ready_with(db, redis, nats, system_score(feed_health@, now)),
{
    let feeds: bool = feed_health.system_health(now).positive();
    ReadinessResult { ready: db && redis && nats && feeds, db, redis, nats, feeds }
}

/// The process is ready exactly if every service answers and both strategies have data: the
/// exchange scores above zero, and one of the two spot venues does.
pub proof fn readiness_needs_everything(db: bool, redis: bool, nats: bool, last: Map<Seq<char>, u64>, now: u64, other: Seq<char>)
    requires
        other != "crypto"@ && other != "weather"@,
    ensures
        ({
            let r = ready_with(db, redis, nats, system_score(last, now));
            let zero = Float { bits: 0 };
            &&& r.ready <==> r.db && r.redis && r.nats && r.feeds
            &&& r.db == db && r.redis == redis && r.nats == nats
            &&& r.feeds <==> zero.lt(score(last, "kalshi_ws"@, now)) && (zero.lt(score(last, "binance_spot"@, now))
                || zero.lt(score(last, "coinbase"@, now)))
        }),
{
    strategies_score_by_their_feeds(last, other, now);
}

} // verus!
