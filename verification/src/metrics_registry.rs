//! Names of the metrics.
use vstd::prelude::*;

verus! {

/// Evaluations, by signal type and outcome.
pub const EVAL_TOTAL: &'static str = "tradebot_eval_total";

/// Orders sent, by signal type, action and result.
pub const ORDERS_TOTAL: &'static str = "tradebot_orders_total";

/// Log entries dropped because the channel was full.
pub const DECISION_LOG_DROPPED: &'static str = "tradebot_decision_log_dropped_total";

/// Seconds that an evaluation took, by signal type.
pub const EVAL_DURATION: &'static str = "tradebot_eval_duration_seconds";

/// Seconds that sending an order took, by signal type.
pub const ORDER_LATENCY: &'static str = "tradebot_order_latency_seconds";

/// Health of each feed from 0 to 1.
pub const FEED_HEALTH_SCORE: &'static str = "tradebot_feed_health_score";

/// Use of the log channel from 0 to 1.
pub const DECISION_LOG_CHANNEL_USAGE: &'static str = "tradebot_decision_log_channel_usage";

/// Supervised tasks that are running.
pub const SUPERVISOR_TASKS_ACTIVE: &'static str = "tradebot_supervisor_tasks_active";

/// Positions that are open.
pub const POSITIONS_OPEN: &'static str = "tradebot_positions_open";

/// State of each kill switch.
pub const KILL_SWITCH_ACTIVE: &'static str = "tradebot_kill_switch_active";

} // verus!
