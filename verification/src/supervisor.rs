//! What follows when a task ends.
use vstd::prelude::*;
use vstd::string::*;

use crate::kill_switch::KillSwitchState;
use crate::table::Table;

verus! {

/// What a task means to trading.
#[derive(Clone, Copy, Debug, PartialEq, Eq, Structural)]
pub enum TaskCriticality {
    /// Its end halts trading and stops the process.
    Critical,
    /// Its end is noted, and trading goes on.
    NonCritical,
}

/// What the supervisor sees.
pub enum TaskEvent<'a> {
    /// No task is left.
    AllGone,
    /// The task of this name has ended, by itself or by a panic.
    Ended(&'a str),
    /// Shutdown was asked for.
    Shutdown,
}

/// What the supervisor does.
#[derive(Clone, Copy, Debug, PartialEq, Eq, Structural)]
pub enum Supervision {
    /// Wait for the next event.
    Continue,
    /// Note the end of a task and wait.
    Note,
    /// Ask for shutdown and wait.
    ShutDown,
    /// Ask for shutdown and return.
    ShutDownAndReturn,
    /// Return.
    Return,
    /// Stop the tasks that are left and return.
    StopAllAndReturn,
}

/// The supervised tasks by name.
pub struct TaskSupervisor {
    tasks: Table<TaskCriticality>,
}

impl View for TaskSupervisor {
    type V = Map<Seq<char>, TaskCriticality>;

    closed spec fn view(&self) -> Map<Seq<char>, TaskCriticality> {
        self.tasks@
    }
}

/// A task is critical unless it is known not to be.
pub open spec fn critical(tasks: Map<Seq<char>, TaskCriticality>, name: Seq<char>) -> bool {
    tasks.contains_key(name) ==> tasks[name] is Critical
}

/// What the supervisor does about an event, and what becomes of the switches.
pub open spec fn supervises(
    r: Supervision,
    tasks: Map<Seq<char>, TaskCriticality>,
    event: TaskEvent,
    shutting_down: bool,
    before: KillSwitchState,
    after: KillSwitchState,
) -> bool {
    match event {
        TaskEvent::AllGone => {
            &&& after == before
            &&& r == (if shutting_down { Supervision::Return } else { Supervision::ShutDownAndReturn })
        },
        TaskEvent::Ended(name) => if shutting_down {
            after == before && r == Supervision::Continue
        } else if critical(tasks, name@) {
            after == (KillSwitchState { kill_all: true, ..before }) && r == Supervision::ShutDown
        } else {
            after == before && r == Supervision::Note
        },
        TaskEvent::Shutdown => after == before && r == Supervision::StopAllAndReturn,
    }
}

impl TaskSupervisor {
    pub closed spec fn wf(&self) -> bool {
        self.tasks.wf()
    }

    pub fn new() -> (r: Self)
        ensures
            r.wf(),
            r@ == Map::<Seq<char>, TaskCriticality>::empty(),
    {
        TaskSupervisor { tasks: Table::new() }
    }

    /// A task is started.
    pub fn spawn(&mut self, name: &str, criticality: TaskCriticality)
        requires
            old(self).wf(),
        ensures
            final(self).wf(),
            final(self)@ == old(self)@.insert(name@, criticality),
    {
        self.tasks.insert(name.to_owned(), criticality);
    }

    /// What is to be done about an event. While the process runs, the end of a critical task
    /// halts all trading; during shutdown nothing more is made of it.
    pub fn handle(&self, event: TaskEvent, shutting_down: bool, switches: &mut KillSwitchState) -> (r: Supervision)
        requires
            self.wf(),
        ensures
            supervises(r, self@, event, shutting_down, *old(switches), *final(switches)),
    {
        match event {
            TaskEvent::AllGone => if shutting_down { Supervision::Return } else { Supervision::ShutDownAndReturn },
            TaskEvent::Ended(name) => {
                if shutting_down {
                    return Supervision::Continue;
                }
                let is_critical: bool = match self.tasks.get(name) {
                    Some(c) => *c == TaskCriticality::Critical,
                    None => true,
                };
                if is_critical {
                    switches.kill_all = true;
                    Supervision::ShutDown
                } else {
                    Supervision::Note
                }
            },
            TaskEvent::Shutdown => Supervision::StopAllAndReturn,
        }
    }
}

/// What is done about orders that are still open at shutdown.
#[derive(Clone, Copy, Debug, PartialEq, Eq, Structural)]
pub enum DrainStep {
    /// None is open any more.
    Done,
    /// They have been waited for long enough.
    GiveUp,
    /// Look again after so many milliseconds.
    LookAgain(u64),
}

/// Nanoseconds that open orders are waited for at shutdown.
pub const DRAIN_LIMIT: u64 = 5_000_000_000;

/// Milliseconds between two looks at them.
pub const DRAIN_PAUSE_MS: u64 = 500;

/// What is done about orders that are still open, `waited` nanoseconds after the wait began.
pub open spec fn draining(open: usize, waited: u64) -> DrainStep {
    if open == 0 {
        DrainStep::Done
    } else if waited > DRAIN_LIMIT {
        DrainStep::GiveUp
    } else {
        DrainStep::LookAgain(DRAIN_PAUSE_MS)
    }
}

/// What is done about orders that are still open.
pub fn drain_step(open: usize, waited: u64) -> (r: DrainStep)
    ensures
        r == draining(open, waited),
{
    if open == 0 {
        DrainStep::Done
    } else if waited > DRAIN_LIMIT {
        DrainStep::GiveUp
    } else {
        DrainStep::LookAgain(DRAIN_PAUSE_MS)
    }
}

/// The end of a task halts all trading and shuts the process down exactly if the task is critical,
/// or not known, and no shutdown is under way. Nothing else touches the switches, and those of the
/// strategies are never touched.
pub proof fn critical_ends_halt_trading(
    r: Supervision,
    tasks: Map<Seq<char>, TaskCriticality>,
    event: TaskEvent,
    shutting_down: bool,
    before: KillSwitchState,
    after: KillSwitchState,
)
    requires
        supervises(r, tasks, event, shutting_down, before, after),
    ensures
        event matches TaskEvent::Ended(name) && !shutting_down && (!tasks.contains_key(name@) || tasks[name@]
            == TaskCriticality::Critical) ==> r is ShutDown && after.kill_all,
        event matches TaskEvent::Ended(name) && !shutting_down && tasks.contains_key(name@) && tasks[name@]
            == TaskCriticality::NonCritical ==> r is Note && after == before,
        event is Ended && shutting_down ==> r is Continue && after == before,
        event is AllGone ==> after == before && (r is ShutDownAndReturn <==> !shutting_down) && (r is Return
            <==> shutting_down),
        event is Shutdown <==> r is StopAllAndReturn,
        after.kill_crypto == before.kill_crypto && after.kill_weather == before.kill_weather,
        before.kill_all ==> after.kill_all,
        r is ShutDown <==> event is Ended && !shutting_down && (event matches TaskEvent::Ended(name) && (
        tasks.contains_key(name@) ==> tasks[name@] is Critical)),
{
}

/// Open orders are looked at every half second until none is open, for five seconds at most.
pub proof fn open_orders_are_waited_for(open: usize, waited: u64)
    ensures
        draining(open, waited) is Done <==> open == 0,
        draining(open, waited) is GiveUp <==> open > 0 && waited > 5_000_000_000,
        draining(open, waited) == DrainStep::LookAgain(500) <==> open > 0 && waited <= 5_000_000_000,
{
}

} // verus!
