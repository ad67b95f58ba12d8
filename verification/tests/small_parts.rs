use tradebot::dead_letter::DeadLetterReason;
use tradebot::decision_log::{Batch, DecisionEntry, LogAction, LogEvent, BATCH_SIZE, FLUSH_INTERVAL_SECS};
use tradebot::execution::position::PositionTracker;
use tradebot::float::Float;
use tradebot::metrics_registry::{
    DECISION_LOG_CHANNEL_USAGE, DECISION_LOG_DROPPED, EVAL_DURATION, EVAL_TOTAL, FEED_HEALTH_SCORE,
    KILL_SWITCH_ACTIVE, ORDERS_TOTAL, ORDER_LATENCY, POSITIONS_OPEN, SUPERVISOR_TASKS_ACTIVE,
};
use tradebot::reconnect::{Backoff, Ended, Next, OnClose};
use tradebot::risk::circuit_breaker::CircuitBreaker;
use tradebot::risk::kill_switch::KillSwitch;
use tradebot::risk::manager::RiskManager;
use tradebot::table::Table;
use tradebot::text;

fn float(x: f64) -> Float {
    Float::from_bits(x.to_bits())
}

#[test]
fn test_dead_letter_reason_display() {
    let reason = DeadLetterReason::DeserializationFailure("bad json".into());
    assert!(reason.text().contains("deserialization_failure"));

    let reason = DeadLetterReason::RiskRejection("max positions".into());
    assert!(reason.text().contains("risk_rejection"));

    let reason = DeadLetterReason::OrderSubmissionFailed { ticker: "KORD-T-95".into(), attempts: 3 };
    assert!(reason.text().contains("order_failed"));
    assert!(reason.text().contains("3 attempts"));

    let reason = DeadLetterReason::UnknownSignalType("futures".into());
    assert!(reason.text().contains("unknown_signal_type"));
}

#[test]
fn test_decision_entry_default() {
    let entry = DecisionEntry::default();
    assert_eq!(entry.ticker, "");
    assert_eq!(entry.signal_type, "");
    assert_eq!(entry.outcome, "");
    assert!(entry.rejection_reason.is_none());
    assert!(entry.model_prob.is_none());
}

#[test]
fn test_flush_batch_empty_is_noop() {
    let mut batch = Batch::new();
    assert_eq!(batch.handle(LogEvent::Tick), LogAction::Wait);
    assert_eq!(batch.drain().len(), 0);
    assert_eq!(batch.handle(LogEvent::Closed), LogAction::Stop);
}

#[test]
fn test_batch_size_constant() {
    assert_eq!(BATCH_SIZE, 100);
}

#[test]
fn test_flush_interval_constant() {
    assert_eq!(std::time::Duration::from_secs(FLUSH_INTERVAL_SECS), std::time::Duration::from_secs(1));
}

#[test]
fn full_batches_are_written() {
    let mut batch = Batch::new();
    assert_eq!(batch.room(), BATCH_SIZE);
    for i in 0..BATCH_SIZE {
        let step = batch.handle(LogEvent::Entry(DecisionEntry { ticker: format!("{}", i), ..Default::default() }));
        assert_eq!(step, if i + 1 == BATCH_SIZE { LogAction::Write } else { LogAction::Wait });
    }
    let out = batch.drain();
    assert_eq!(out.len(), BATCH_SIZE);
    assert_eq!(out[7].ticker, "7");
    batch.handle(LogEvent::Entry(DecisionEntry::default()));
    assert_eq!(batch.handle(LogEvent::Tick), LogAction::Write);
    assert_eq!(batch.drain().len(), 1);
    batch.handle(LogEvent::Entry(DecisionEntry::default()));
    assert_eq!(batch.handle(LogEvent::Closed), LogAction::WriteAndStop);
}

#[test]
fn test_metric_names_are_valid() {
    let names = [
        EVAL_TOTAL,
        ORDERS_TOTAL,
        DECISION_LOG_DROPPED,
        EVAL_DURATION,
        ORDER_LATENCY,
        FEED_HEALTH_SCORE,
        DECISION_LOG_CHANNEL_USAGE,
        SUPERVISOR_TASKS_ACTIVE,
        POSITIONS_OPEN,
        KILL_SWITCH_ACTIVE,
    ];
    for name in &names {
        assert!(name.chars().all(|c| c.is_ascii_alphanumeric() || c == '_' || c == ':'));
        assert!(name.starts_with(|c: char| c.is_ascii_alphabetic() || c == '_' || c == ':'));
    }
}

#[test]
fn waits_double_up_to_half_a_minute() {
    let mut b = Backoff::new(OnClose::Stop);
    let mut waits = Vec::new();
    for _ in 0..7 {
        waits.push(b.next(Ended::Failed));
    }
    assert_eq!(waits, [1, 2, 4, 8, 16, 30, 30].map(Next::ConnectAfter));
    assert_eq!(b.next(Ended::Closed), Next::Stop);
    let mut c = Backoff::new(OnClose::Reconnect);
    c.next(Ended::Failed);
    c.next(Ended::Failed);
    assert_eq!(c.next(Ended::Closed), Next::ConnectNow);
    assert_eq!(c.next(Ended::Failed), Next::ConnectAfter(1));
}

#[test]
fn breakers_stay_tripped_until_reset() {
    let mut b = CircuitBreaker::new();
    assert!(!b.is_tripped());
    b.trip(5);
    assert!(b.is_tripped());
    b.reset();
    assert!(!b.is_tripped());
    let mut k = KillSwitch::new();
    assert!(!k.is_active());
    k.activate();
    assert!(k.is_active());
}

#[test]
fn losses_and_trips_refuse_orders() {
    let mut m = RiskManager::new(5, float(100.0));
    assert!(m.allow_order("T", 1));
    let sum = |a: Float, b: Float| float(f64::from_bits(a.bits) + f64::from_bits(b.bits));
    m.record_pnl(float(-99.5), sum);
    assert!(m.allow_order("T", 1));
    m.record_pnl(float(-1.0), sum);
    assert_eq!(m.daily_pnl, float(-100.5));
    assert!(!m.allow_order("T", 1));
    m.record_pnl(float(100.5), sum);
    assert_eq!(m.daily_pnl, float(0.0));
    assert!(m.allow_order("T", 1));
    m.circuit_breaker.trip(1);
    assert!(!m.allow_order("T", 1));
}

#[test]
fn positions_add_up() {
    let mut t = PositionTracker::new();
    assert_eq!(t.get("A"), 0);
    t.update("A", 5);
    t.update("A", -7);
    t.update("B", 1);
    assert_eq!(t.get("A"), -2);
    assert_eq!(t.all().len(), 2);
}

#[test]
fn tables_map_keys_to_their_last_values() {
    let mut t: Table<i64> = Table::new();
    t.insert("a".into(), 1);
    t.insert("b".into(), 2);
    t.insert("a".into(), 3);
    assert_eq!(t.len(), 2);
    assert_eq!(t.get("a"), Some(&3));
    assert!(t.contains_key("b"));
    assert_eq!(t.remove("b"), Some(2));
    assert_eq!(t.remove("b"), None);
    assert_eq!(t.keys(), vec!["a".to_string()]);
    assert_eq!(t.key_at(0), "a");
    assert_eq!(*t.value_at(0), 3);
}

#[test]
fn numbers_and_pieces_of_text() {
    for n in [0u64, 7, 10, 99, 12345, u64::MAX] {
        assert_eq!(text::u64_text(n), format!("{}", n));
        assert_eq!(text::hex_text(n, 12), format!("{:012x}", n));
    }
    for n in [0i64, -1, 42, i64::MIN, i64::MAX] {
        assert_eq!(text::i64_text(n), format!("{}", n));
    }
    assert_eq!(text::usize_text(100), "100");
    assert_eq!(text::cut_at("wss://a/ws/b", "/ws"), "wss://a");
    assert_eq!(text::cut_at("none", "/ws"), "none");
    assert_eq!(text::trim_end("a//", '/'), "a");
    assert!(text::starts_with("https://x", "https://"));
    assert!(!text::starts_with("http", "https://"));
    assert!(text::contains("abcabd", "abd"));
    assert!(!text::contains("ab", "abc"));
    assert!(text::same_text("x", "x"));
    assert_eq!(text::joined("x", "y"), "xy");
}

#[test]
fn float_order_is_that_of_the_machine() {
    let xs = [
        f64::NEG_INFINITY, -1.0e300, -2.5, -0.0, 0.0, 5.0e-324, 0.3, 1.0, 1.0e300, f64::INFINITY, f64::NAN,
    ];
    for x in xs {
        for y in xs {
            assert_eq!(float(x).less(float(y)), x < y);
            assert_eq!(float(x).less_eq(float(y)), x <= y);
            assert_eq!(float(x).larger(float(y)).is_nan(), x.max(y).is_nan());
            if !x.max(y).is_nan() {
                assert!(f64::from_bits(float(x).larger(float(y)).bits) == x.max(y));
                assert!(f64::from_bits(float(x).smaller(float(y)).bits) == x.min(y));
            }
        }
        assert_eq!(float(x).positive(), x > 0.0);
        assert_eq!(float(x).is_zero(), x == 0.0);
        assert_eq!(float(x).is_nan(), x.is_nan());
        if !x.is_nan() {
            assert_eq!(float(x).negative().bits, (-x).to_bits());
            assert_eq!(float(x).absolute().bits, x.abs().to_bits());
            assert_eq!(float(x).doubled().bits, (x * 2.0).to_bits());
        }
    }
}
