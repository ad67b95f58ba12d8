//! The audit log: one entry for every decision, written in batches.
use vstd::prelude::*;
use vstd::string::*;

use crate::float::Float;
use crate::order_manager::order::text_of;

verus! {

/// Entries written at once at most.
pub const BATCH_SIZE: usize = 100;

/// How long an entry waits for others at most, in seconds.
pub const FLUSH_INTERVAL_SECS: u64 = 1;

/// What was decided on a ticker, and on what grounds.
#[derive(Debug)]
pub struct DecisionEntry {
    pub ticker: String,
    pub signal_type: String,
    pub outcome: String,
    pub rejection_reason: Option<String>,
    pub model_prob: Option<Float>,
    pub market_price: Option<Float>,
    pub edge: Option<Float>,
    pub adjusted_edge: Option<Float>,
    pub direction: Option<String>,
    pub minutes_remaining: Option<Float>,
    pub confidence: Option<Float>,
    pub micro_total: Option<Float>,
    pub micro_trade: Option<Float>,
    pub micro_spread: Option<Float>,
    pub micro_depth: Option<Float>,
    pub micro_vwap: Option<Float>,
    pub micro_momentum: Option<Float>,
    pub micro_vol_surge: Option<Float>,
    pub signal_id: Option<i64>,
    pub eval_latency_ms: Option<Float>,
}

/// An entry as mathematics.
pub struct DecisionRecord {
    pub ticker: Seq<char>,
    pub signal_type: Seq<char>,
    pub outcome: Seq<char>,
    pub rejection_reason: Option<Seq<char>>,
    pub model_prob: Option<Float>,
    pub market_price: Option<Float>,
    pub edge: Option<Float>,
    pub adjusted_edge: Option<Float>,
    pub direction: Option<Seq<char>>,
    pub minutes_remaining: Option<Float>,
    pub confidence: Option<Float>,
    pub micro_total: Option<Float>,
    pub micro_trade: Option<Float>,
    pub micro_spread: Option<Float>,
    pub micro_depth: Option<Float>,
    pub micro_vwap: Option<Float>,
    pub micro_momentum: Option<Float>,
    pub micro_vol_surge: Option<Float>,
    pub signal_id: Option<i64>,
    pub eval_latency_ms: Option<Float>,
}

impl View for DecisionEntry {
    type V = DecisionRecord;

    open spec fn view(&self) -> DecisionRecord {
        DecisionRecord {
            ticker: self.ticker@,
            signal_type: self.signal_type@,
            outcome: self.outcome@,
            rejection_reason: text_of(self.rejection_reason),
            model_prob: self.model_prob,
            market_price: self.market_price,
            edge: self.edge,
            adjusted_edge: self.adjusted_edge,
            direction: text_of(self.direction),
            minutes_remaining: self.minutes_remaining,
            confidence: self.confidence,
            micro_total: self.micro_total,
            micro_trade: self.micro_trade,
            micro_spread: self.micro_spread,
            micro_depth: self.micro_depth,
            micro_vwap: self.micro_vwap,
            micro_momentum: self.micro_momentum,
            micro_vol_surge: self.micro_vol_surge,
            signal_id: self.signal_id,
            eval_latency_ms: self.eval_latency_ms,
        }
    }
}

/// An entry that says nothing.
pub open spec fn blank_record() -> DecisionRecord {
    DecisionRecord {
        ticker: Seq::empty(),
        signal_type: Seq::empty(),
        outcome: Seq::empty(),
        rejection_reason: None,
        model_prob: None,
        market_price: None,
        edge: None,
        adjusted_edge: None,
        direction: None,
        minutes_remaining: None,
        confidence: None,
        micro_total: None,
        micro_trade: None,
        micro_spread: None,
        micro_depth: None,
        micro_vwap: None,
        micro_momentum: None,
        micro_vol_surge: None,
        signal_id: None,
        eval_latency_ms: None,
    }
}

impl Default for DecisionEntry {
    fn default() -> (r: Self)
        ensures
            r@ == blank_record(),
    {
        DecisionEntry {
            ticker: String::new(),
            signal_type: String::new(),
            outcome: String::new(),
            rejection_reason: None,
            model_prob: None,
            market_price: None,
            edge: None,
            adjusted_edge: None,
            direction: None,
            minutes_remaining: None,
            confidence: None,
            micro_total: None,
            micro_trade: None,
            micro_spread: None,
            micro_depth: None,
            micro_vwap: None,
            micro_momentum: None,
            micro_vol_surge: None,
            signal_id: None,
            eval_latency_ms: None,
        }
    }
}

/// What brings the writer of the log to act.
pub enum LogEvent {
    /// An entry has come.
    Entry(DecisionEntry),
    /// The interval has passed.
    Tick,
    /// No entry will come any more.
    Closed,
}

/// What the writer of the log is to do.
#[derive(Clone, Copy, Debug, PartialEq, Eq, Structural)]
pub enum LogAction {
    /// Wait for the next event.
    Wait,
    /// Write the batch, then wait.
    Write,
    /// Write the batch, then stop.
    WriteAndStop,
    /// Stop.
    Stop,
}

/// Entries that wait to be written.
pub struct Batch {
    entries: Vec<DecisionEntry>,
}

impl View for Batch {
    type V = Seq<DecisionEntry>;

    closed spec fn view(&self) -> Seq<DecisionEntry> {
        self.entries@
    }
}

/// How many more entries fit beside so many.
pub open spec fn room_for(held: nat) -> int {
    if held < BATCH_SIZE { BATCH_SIZE - held } else { 0 }
}

/// What becomes of a batch with an event, and what is to be done.
pub open spec fn handled(before: Seq<DecisionEntry>, after: Seq<DecisionEntry>, event: LogEvent, r: LogAction) -> bool {
    match event {
        LogEvent::Entry(e) => {
            &&& after == before.push(e)
            &&& r == (if before.len() + 1 >= BATCH_SIZE { LogAction::Write } else { LogAction::Wait })
        },
        LogEvent::Tick => {
            &&& after == before
            &&& r == (if before.len() > 0 { LogAction::Write } else { LogAction::Wait })
        },
        LogEvent::Closed => {
            &&& after == before
            &&& r == (if before.len() > 0 { LogAction::WriteAndStop } else { LogAction::Stop })
        },
    }
}

impl Batch {
    pub fn new() -> (r: Self)
        ensures
            r@ == Seq::<DecisionEntry>::empty(),
    {
        Batch { entries: Vec::new() }
    }

    /// How many more entries fit before the batch is to be written.
    pub fn room(&self) -> (r: usize)
        ensures
            r == room_for(self@.len()),
    {
        if self.entries.len() < BATCH_SIZE { BATCH_SIZE - self.entries.len() } else { 0 }
    }

    /// Takes note of an event and says what is to be done: a full batch is written at once, any
    /// other with the interval; an empty one never.
    pub fn handle(&mut self, event: LogEvent) -> (r: LogAction)
        ensures
            handled(old(self)@, final(self)@, event, r),
    {
        match event {
            LogEvent::Entry(e) => {
                self.entries.push(e);
                if self.entries.len() >= BATCH_SIZE { LogAction::Write } else { LogAction::Wait }
            },
            LogEvent::Tick => if self.entries.len() > 0 { LogAction::Write } else { LogAction::Wait },
            LogEvent::Closed => if self.entries.len() > 0 { LogAction::WriteAndStop } else { LogAction::Stop },
        }
    }

    /// Hands out all entries, in the order in which they came.
    pub fn drain(&mut self) -> (r: Vec<DecisionEntry>)
        ensures
            r@ == old(self)@,
            final(self)@ == Seq::<DecisionEntry>::empty(),
    {
        let mut out: Vec<DecisionEntry> = Vec::new();
        out.append(&mut self.entries);
        assert(out@ =~= old(self)@);
        out
    }
}

/// No entry is lost, and none waits longer than it must: an entry is added behind the others, a
/// batch of a hundred is written at once, a tick and the end write whatever is there, and nothing
/// is written where there is nothing.
pub proof fn entries_are_written_in_time(before: Seq<DecisionEntry>, after: Seq<DecisionEntry>, event: LogEvent, r: LogAction)
    requires
        handled(before, after, event, r),
    ensures
        r is Write || r is WriteAndStop ==> after.len() > 0,
        event is Entry ==> after.len() == before.len() + 1 && after.drop_last() == before,
        event matches LogEvent::Entry(e) ==> after.last() == e,
        event is Entry ==> (r is Write <==> after.len() >= 100) && (r is Wait <==> after.len() < 100),
        !(event is Entry) ==> after == before,
        event is Tick ==> (r is Write <==> before.len() > 0) && (r is Wait <==> before.len() == 0),
        event is Closed ==> (r is WriteAndStop <==> before.len() > 0) && (r is Stop <==> before.len() == 0),
        r is Stop || r is WriteAndStop <==> event is Closed,
{
    if event is Entry {
        assert(after.drop_last() =~= before);
    }
}

/// There is room up to a hundred entries.
pub proof fn a_hundred_entries_fit(held: nat)
    ensures
        held <= 100 ==> held + room_for(held) == 100,
        held >= 100 <==> room_for(held) == 0,
{
}

/// A blank record says nothing.
pub proof fn blank_records_say_nothing(ticker: Seq<char>)
    ensures
        ({
            let r = DecisionRecord { ticker, ..blank_record() };
            &&& r.rejection_reason is None && r.model_prob is None && r.market_price is None && r.edge is None
            &&& r.adjusted_edge is None && r.direction is None && r.minutes_remaining is None && r.confidence is None
            &&& r.micro_total is None && r.micro_trade is None && r.micro_spread is None && r.micro_depth is None
            &&& r.micro_vwap is None && r.micro_momentum is None && r.micro_vol_surge is None
            &&& r.signal_id is None && r.eval_latency_ms is None && r.outcome.len() == 0 && r.signal_type.len() == 0
        }),
{
}

} // verus!
