//! A small dataflow runtime: elements connected by bounded single-producer /
//! single-consumer channels, adapted into tasks and run from a slot table.
use vstd::prelude::*;

pub mod channel;
pub mod elem;
pub mod scheduler;
pub mod source;

verus! {

/// What travels on a channel.
#[derive(Clone, Copy, Debug)]
pub enum Message<T> {
    /// Nothing was produced this cycle.
    Empty,
    Value(T),
    /// An acknowledgement from one slot to another.
    Ack(usize, usize),
    /// An in-band fault: the index of the stage where it arose, and why.
    Error(usize, &'static str),
}

/// What a task asks of the scheduler after one execution.
#[derive(Clone, Copy, Debug, PartialEq, Eq, Structural)]
pub enum Schedule {
    /// Run again immediately.
    Loop,
    /// Wait until input channel `.0` has advanced past sequence number `.1`.
    OnMessage(usize, usize),
    /// Wait for the given number of microseconds.
    DelayUSec(u64),
    /// Wait until something outside the graph wakes the task.
    OnExternalEvent,
    /// Never run again.
    Stop,
}

/// Why a task is not running right now, as the scheduler sees it.
#[derive(Clone, Copy, Debug, PartialEq, Eq, Structural)]
pub enum TaskState {
    Execute,
    /// Eligible again at the given time (microseconds).
    TimeWait(usize),
    /// Waiting for input channel `.0` to advance past `.1`.
    MessageWait(usize, usize),
    /// Waiting for an outside event, identified by the token.
    ExtEventWait(usize),
    Stop,
}

/// Errors of graph building.
#[derive(Clone, Copy, Debug, PartialEq, Eq, Structural)]
pub enum Error {
    /// The endpoint is already bound.
    Busy,
    /// The slot or channel referenced does not exist.
    NonExistent,
    /// The graph is being torn down.
    Stopping,
    /// The registration was already made.
    AlreadyExists,
}

/// Identity of one channel endpoint: the owning task's name and the local
/// channel index.
#[derive(Clone, Debug)]
pub struct ChannelId {
    pub task_name: String,
    pub id: usize,
}

pub fn new_id(name: String, id: usize) -> (r: ChannelId)
    ensures
        r.task_name@ == name@,
        r.id == id,
{
    ChannelId { task_name: name, id: id }
}

impl ChannelId {
    pub fn task_name(&self) -> (r: &String)
        ensures
            r@ == self.task_name@,
    {
        &self.task_name
    }

    pub fn id(&self) -> (r: usize)
        ensures
            r == self.id,
    {
        self.id
    }
}

/// The time a `DelayUSec(n)` issued at `now` ends, saturating at the
/// largest representable instant.
pub open spec fn delay_end(now: usize, n: u64) -> usize {
    if now + n > usize::MAX {
        usize::MAX
    } else {
        (now + n) as usize
    }
}

/// The state that a schedule directive issued at time `now` leads to.
pub open spec fn spec_next_state(event: Schedule, now: usize) -> TaskState {
    match event {
        Schedule::Loop => TaskState::Execute,
        Schedule::OnMessage(c, s) => TaskState::MessageWait(c, s),
        Schedule::DelayUSec(n) => TaskState::TimeWait(delay_end(now, n)),
        Schedule::OnExternalEvent => TaskState::ExtEventWait(0),
        Schedule::Stop => TaskState::Stop,
    }
}

/// Maps the directive a task returned to the task's next state.
pub fn next_state(event: Schedule, now: usize) -> (r: TaskState)
    ensures
        r == spec_next_state(event, now),
{
    match event {
        Schedule::Loop => TaskState::Execute,
        Schedule::OnMessage(c, s) => TaskState::MessageWait(c, s),
        Schedule::DelayUSec(n) => {
            if n as u128 > (usize::MAX - now) as u128 {
                TaskState::TimeWait(usize::MAX)
            } else {
                TaskState::TimeWait(now + n as usize)
            }
        },
        Schedule::OnExternalEvent => TaskState::ExtEventWait(0),
        Schedule::Stop => TaskState::Stop,
    }
}

/// Receives scheduling and progress events. The runtime only pushes to it.
pub trait Observer {
    fn scheduled(&mut self, task_id: usize, at_usec: usize);
    fn executed(&mut self, task_id: usize, at_usec: usize);
    fn stopped(&mut self, task_id: usize, at_usec: usize);
    fn delayed(&mut self, task_id: usize, reason: &TaskState, at_usec: usize);
    fn message_sent(&mut self, channel_id: usize, last_msg_id: usize, task_id: usize, at_usec: usize);
    fn wait_channel(&mut self, channel_id: usize, last_msg_id: usize, task_id: usize, at_usec: usize);
    fn transition(
        &mut self,
        from: &TaskState,
        event: &Schedule,
        to: &TaskState,
        task_id: usize,
        at_usec: usize,
    );
}

/// The uniform interface the scheduler runs: an element adapted into a task.
pub trait Task {
    /// Runs the element once and says when it wants to run next.
    fn execute<O: Observer>(&mut self, observer: &mut O, task_id: usize, now: usize) -> Schedule;

    fn name(&self) -> &String;

    fn input_count(&self) -> usize;

    fn output_count(&self) -> usize;

    /// The producer bound to input `ch`, if any.
    fn input_id(&self, ch: usize) -> Option<ChannelId>;

    /// The identity of output `ch`, if the task has one.
    fn output_id(&self, ch: usize) -> Option<ChannelId>;

    /// How many messages were sent on output `ch`.
    fn tx_count(&self, ch: usize) -> usize;

    /// The highest producer sequence number observed on input `ch`.
    spec fn spec_observed(&self, ch: usize) -> usize;

    /// The producer's sequence number as input `ch` observes it now.
    fn input_position(&mut self, ch: usize) -> (r: usize)
        ensures
            r == final(self).spec_observed(ch);
}

/// The identity of output `ch` of a task named `name` with `count` outputs.
pub fn output_id_of(name: &String, count: usize, ch: usize) -> (r: Option<ChannelId>)
    ensures
        ch >= count ==> r is None,
        ch < count ==> (r matches Some(id) && id@ == (name@, ch)),
{
    if ch >= count {
        None
    } else {
        Some(new_id(name.clone(), ch))
    }
}

} // verus!
