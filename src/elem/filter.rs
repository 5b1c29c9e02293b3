//! One input, one output.
use vstd::prelude::*;

use crate::channel::{connect, observe, open_output, spec_observe, IdentifiedReceiver, OutputPort, SenderEnd};
use crate::elem::report_execution;
use crate::{output_id_of, ChannelId, Error, Message, Observer, Schedule, Task};

verus! {

/// Processing logic of one input and one output.
pub trait Filter<I, O> {
    fn process(&mut self, input: &mut IdentifiedReceiver<I>, output: &mut OutputPort<O>) -> Result<
        (),
        &'static str,
    >;
}

/// What a filter does after its logic failed: keep going, or stop for good.
#[derive(Clone, Copy, Debug, PartialEq, Eq, Structural)]
pub enum ErrorPolicy {
    Continue,
    Stop,
}

/// The directive a filter returns after its logic gave `res`, with `seen`
/// the input position it has observed: on success it waits for the next
/// input; on failure the policy decides.
pub open spec fn filter_schedule(res: Result<(), &'static str>, policy: ErrorPolicy, seen: usize) -> Schedule {
    match res {
        Ok(_) => Schedule::OnMessage(0, seen),
        Err(_) => if policy == ErrorPolicy::Continue {
            Schedule::Loop
        } else {
            Schedule::Stop
        },
    }
}

pub fn filter_outcome(res: Result<(), &'static str>, policy: ErrorPolicy, seen: usize) -> (r: Schedule)
    ensures
        r == filter_schedule(res, policy, seen),
{
    match res {
        Ok(_) => Schedule::OnMessage(0, seen),
        Err(_) => match policy {
            ErrorPolicy::Continue => Schedule::Loop,
            ErrorPolicy::Stop => Schedule::Stop,
        },
    }
}

#[verifier::reject_recursive_types(I)]
#[verifier::reject_recursive_types(O)]
pub struct FilterWrap<I, O, L> {
    name: String,
    state: L,
    input_rx: IdentifiedReceiver<I>,
    output_tx: OutputPort<O>,
    policy: ErrorPolicy,
    /// The highest sequence number of the producer observed on the input.
    rx_seen: usize,
}

/// Ends one execution of a filter whose logic gave `res`: a failure goes
/// downstream as `Message::Error(task_id, reason)`; the directive is
/// `filter_schedule`.
pub fn finish<O: Send>(
    output: &mut OutputPort<O>,
    res: Result<(), &'static str>,
    policy: ErrorPolicy,
    seen: usize,
    task_id: usize,
) -> (r: Schedule)
    ensures
        r == filter_schedule(res, policy, seen),
        res is Ok ==> *final(output) == *old(output),
        res matches Err(reason) ==> final(output).spec_sent() == old(output).spec_sent().push(
            Message::Error(task_id, reason),
        ) && final(output).spec_seqno() == if old(output).spec_seqno() < usize::MAX {
            (old(output).spec_seqno() + 1) as usize
        } else {
            usize::MAX
        },
{
    match res {
        Err(reason) => output.send(Message::Error(task_id, reason)),
        Ok(_) => {},
    }
    filter_outcome(res, policy, seen)
}

/// Wraps `filter` into a task named `name` whose output queue holds
/// `output_q_size` messages. Returns the task and its unconnected output.
pub fn new<I: Send, O: Send, L: Filter<I, O>>(
    name: &str,
    output_q_size: usize,
    filter: L,
    policy: ErrorPolicy,
) -> (r: (FilterWrap<I, O, L>, SenderEnd<O>))
    ensures
        r.0.spec_name() == name@,
        r.0.spec_policy() == policy,
        r.0.spec_tx_count() == 0,
        r.0.spec_rx_seen() == 0,
        !r.0.spec_input().is_connected(),
        r.0.spec_input().own_id() == (name@, 0usize),
        !r.1.is_connected(),
        r.1.own_id() == (name@, 0usize),
{
    let (output_tx, sender) = open_output(name, 0, output_q_size);
    let w = FilterWrap {
        name: name.to_owned(),
        state: filter,
        input_rx: IdentifiedReceiver::new(name, 0),
        output_tx: output_tx,
        policy: policy,
        rx_seen: 0,
    };
    (w, sender)
}

impl<I: Send, O: Send, L: Filter<I, O>> FilterWrap<I, O, L> {
    pub closed spec fn spec_name(&self) -> Seq<char> {
        self.name@
    }

    pub closed spec fn spec_policy(&self) -> ErrorPolicy {
        self.policy
    }

    pub closed spec fn spec_input(&self) -> IdentifiedReceiver<I> {
        self.input_rx
    }

    pub closed spec fn spec_tx_count(&self) -> usize {
        self.output_tx.spec_seqno()
    }

    /// The highest sequence number of the producer observed on the input.
    pub closed spec fn spec_rx_seen(&self) -> usize {
        self.rx_seen
    }

    pub fn name(&self) -> (r: &String)
        ensures
            r@ == self.spec_name(),
    {
        &self.name
    }

    pub fn input_count(&self) -> (r: usize)
        ensures
            r == 1,
    {
        1
    }

    pub fn output_count(&self) -> (r: usize)
        ensures
            r == 1,
    {
        1
    }

    pub fn input(&self) -> (r: &IdentifiedReceiver<I>)
        ensures
            *r == self.spec_input(),
    {
        &self.input_rx
    }

    /// How many messages were sent on output `ch`; only output 0 exists.
    pub fn get_tx_count(&self, ch: usize) -> (r: usize)
        ensures
            ch == 0 ==> r == self.spec_tx_count(),
            ch != 0 ==> r == 0,
    {
        if ch == 0 {
            self.output_tx.seqno()
        } else {
            0
        }
    }

    /// The producer bound to input `ch`: only input 0 exists.
    pub fn get_input_id(&self, ch: usize) -> (r: Option<ChannelId>)
        ensures
            ch != 0 ==> r is None,
            ch == 0 ==> (r is None <==> self.spec_input().peer() is None),
            r matches Some(p) ==> self.spec_input().peer() == Some(p@),
    {
        if ch == 0 {
            self.input_rx.peer_id()
        } else {
            None
        }
    }

    /// The producer's sequence number as input `ch` observes it: the
    /// largest value read so far, so it never decreases; 0 for an input that
    /// does not exist.
    pub fn get_rx_count(&mut self, ch: usize) -> (r: usize)
        ensures
            final(self).spec_name() == old(self).spec_name(),
            final(self).spec_policy() == old(self).spec_policy(),
            final(self).spec_tx_count() == old(self).spec_tx_count(),
            final(self).spec_input() == old(self).spec_input(),
            old(self).spec_rx_seen() <= final(self).spec_rx_seen(),
            ch != 0 ==> r == 0 && final(self).spec_rx_seen() == old(self).spec_rx_seen(),
            ch == 0 ==> r == final(self).spec_rx_seen(),
            ch == 0 && !old(self).spec_input().is_connected() ==> r == old(self).spec_rx_seen(),
    {
        if ch == 0 {
            let now = self.input_rx.position();
            self.rx_seen = observe(self.rx_seen, now);
            self.rx_seen
        } else {
            0
        }
    }

    /// Binds the producer's output to this filter's input.
    pub fn connect_input(&mut self, tx: &mut SenderEnd<I>) -> (r: Result<(), Error>)
        ensures
            r == crate::channel::connect_outcome(
                old(tx).is_connected(),
                old(self).spec_input().is_connected(),
            ),
            crate::channel::connect_post(
                *old(tx),
                old(self).spec_input(),
                *final(tx),
                final(self).spec_input(),
                r,
            ),
            final(self).spec_name() == old(self).spec_name(),
            final(self).spec_policy() == old(self).spec_policy(),
            final(self).spec_tx_count() == old(self).spec_tx_count(),
            final(self).spec_rx_seen() == old(self).spec_rx_seen(),
    {
        connect(tx, &mut self.input_rx)
    }

    /// Runs the logic once, then `finish`es: a failure goes downstream as
    /// an in-band `Message::Error` tagged with `task_id`, and the policy
    /// decides whether the filter goes on; a success waits for the next
    /// input. The observed input count never decreases.
    pub fn run<Obs: Observer>(&mut self, observer: &mut Obs, task_id: usize, now: usize) -> (r: Schedule)
        ensures
            final(self).spec_name() == old(self).spec_name(),
            final(self).spec_policy() == old(self).spec_policy(),
            old(self).spec_rx_seen() <= final(self).spec_rx_seen(),
            r is Loop ==> old(self).spec_policy() == ErrorPolicy::Continue,
            r is Stop ==> old(self).spec_policy() == ErrorPolicy::Stop,
            r is OnMessage ==> r == Schedule::OnMessage(0, final(self).spec_rx_seen()),
            !(r is DelayUSec) && !(r is OnExternalEvent),
    {
        let before = self.output_tx.seqno();
        let res = self.state.process(&mut self.input_rx, &mut self.output_tx);
        let seen = self.get_rx_count(0);
        let event = finish(&mut self.output_tx, res, self.policy, seen, task_id);
        let after = self.output_tx.seqno();
        report_execution(observer, before, after, event, task_id, now);
        event
    }
}

impl<I: Send, O: Send, L: Filter<I, O>> Task for FilterWrap<I, O, L> {
    fn execute<Obs: Observer>(&mut self, observer: &mut Obs, task_id: usize, now: usize) -> Schedule {
        self.run(observer, task_id, now)
    }

    fn name(&self) -> &String {
        FilterWrap::name(self)
    }

    fn input_count(&self) -> usize {
        FilterWrap::input_count(self)
    }

    fn output_count(&self) -> usize {
        FilterWrap::output_count(self)
    }

    fn input_id(&self, ch: usize) -> Option<ChannelId> {
        self.get_input_id(ch)
    }

    fn output_id(&self, ch: usize) -> Option<ChannelId> {
        output_id_of(&self.name, 1, ch)
    }

    fn tx_count(&self, ch: usize) -> usize {
        self.get_tx_count(ch)
    }

    closed spec fn spec_observed(&self, ch: usize) -> usize {
        if ch == 0 {
            self.rx_seen
        } else {
            0
        }
    }

    fn input_position(&mut self, ch: usize) -> usize {
        self.get_rx_count(ch)
    }
}

} // verus!
