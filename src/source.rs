//! No input, one output: where data enters the graph.
use vstd::prelude::*;

use crate::channel::{open_output, OutputPort, SenderEnd};
use crate::elem::report_execution;
use crate::{output_id_of, ChannelId, Observer, Schedule, Task};

verus! {

/// Logic that originates data: a timer, a sensor, a generator.
pub trait Source<O> {
    fn process(&mut self, output: &mut OutputPort<O>) -> Schedule;
}

#[verifier::reject_recursive_types(O)]
pub struct SourceWrap<O, L> {
    name: String,
    source: L,
    output_tx: OutputPort<O>,
}

/// Wraps `source` into a task named `name` whose output queue holds
/// `output_q_size` messages. Returns the task and its unconnected output.
pub fn new<O: Send, L: Source<O>>(name: &str, output_q_size: usize, source: L) -> (r: (
    SourceWrap<O, L>,
    SenderEnd<O>,
))
    ensures
        r.0.spec_name() == name@,
        r.0.spec_tx_count() == 0,
        !r.1.is_connected(),
        r.1.own_id() == (name@, 0usize),
{
    let (output_tx, sender) = open_output(name, 0, output_q_size);
    (SourceWrap { name: name.to_owned(), source: source, output_tx: output_tx }, sender)
}

impl<O: Send, L: Source<O>> SourceWrap<O, L> {
    pub closed spec fn spec_name(&self) -> Seq<char> {
        self.name@
    }

    pub closed spec fn spec_tx_count(&self) -> usize {
        self.output_tx.spec_seqno()
    }

    pub fn name(&self) -> (r: &String)
        ensures
            r@ == self.spec_name(),
    {
        &self.name
    }

    pub fn input_count(&self) -> (r: usize)
        ensures
            r == 0,
    {
        0
    }

    pub fn output_count(&self) -> (r: usize)
        ensures
            r == 1,
    {
        1
    }

    /// The writing port of the output.
    pub fn output(&self) -> (r: &OutputPort<O>)
        ensures
            r.spec_seqno() == self.spec_tx_count(),
    {
        &self.output_tx
    }

    /// How many messages were sent on output `ch`; only output 0 exists.
    pub fn get_tx_count(&self, ch: usize) -> (r: usize)
        ensures
            ch == 0 ==> r == self.spec_tx_count(),
            ch != 0 ==> r == 0,
    {
        if ch == 0 {
            self.output_tx.seqno()
        } else {
            0
        }
    }

    /// Runs the logic once, reporting the output's advance and any channel
    /// waited on.
    pub fn run<Obs: Observer>(&mut self, observer: &mut Obs, task_id: usize, now: usize) -> (r: Schedule)
        ensures
            final(self).spec_name() == old(self).spec_name(),
    {
        let before = self.output_tx.seqno();
        let event = self.source.process(&mut self.output_tx);
        let after = self.output_tx.seqno();
        report_execution(observer, before, after, event, task_id, now);
        event
    }
}

impl<O: Send, L: Source<O>> Task for SourceWrap<O, L> {
    fn execute<Obs: Observer>(&mut self, observer: &mut Obs, task_id: usize, now: usize) -> Schedule {
        self.run(observer, task_id, now)
    }

    fn name(&self) -> &String {
        SourceWrap::name(self)
    }

    fn input_count(&self) -> usize {
        SourceWrap::input_count(self)
    }

    fn output_count(&self) -> usize {
        SourceWrap::output_count(self)
    }

    fn input_id(&self, ch: usize) -> Option<ChannelId> {
        None
    }

    fn output_id(&self, ch: usize) -> Option<ChannelId> {
        output_id_of(&self.name, 1, ch)
    }

    fn tx_count(&self, ch: usize) -> usize {
        self.get_tx_count(ch)
    }

    closed spec fn spec_observed(&self, ch: usize) -> usize {
        0
    }

    fn input_position(&mut self, ch: usize) -> usize {
        0
    }
}

} // verus!
