//! Two inputs, each of its own payload type, one output.
use vstd::prelude::*;

use crate::channel::{
    connect, connect_outcome, connect_post, observe, open_output, IdentifiedReceiver, OutputPort, SenderEnd,
};
use crate::elem::report_execution;
use crate::{output_id_of, ChannelId, Error, Observer, Schedule, Task};

verus! {

/// Processing logic over two inputs, either of which may be unconnected.
pub trait YMerge<A, B, O> {
    fn process(
        &mut self,
        input_a: &mut IdentifiedReceiver<A>,
        input_b: &mut IdentifiedReceiver<B>,
        output: &mut OutputPort<O>,
    ) -> Schedule;
}

#[verifier::reject_recursive_types(A)]
#[verifier::reject_recursive_types(B)]
#[verifier::reject_recursive_types(O)]
pub struct YMergeWrap<A, B, O, L> {
    name: String,
    state: L,
    input_a_rx: IdentifiedReceiver<A>,
    input_b_rx: IdentifiedReceiver<B>,
    output_tx: OutputPort<O>,
    /// The highest sequence numbers observed on inputs a and b.
    seen_a: usize,
    seen_b: usize,
}

/// Wraps `ymerge` into a task named `name` with two unconnected inputs (0 and
/// 1) and an output queue of `output_q_size` messages. Returns the task and
/// its unconnected output.
pub fn new<A: Send, B: Send, O: Send, L: YMerge<A, B, O>>(
    name: &str,
    output_q_size: usize,
    ymerge: L,
) -> (r: (YMergeWrap<A, B, O, L>, SenderEnd<O>))
    ensures
        r.0.spec_name() == name@,
        !r.0.spec_input_a().is_connected(),
        !r.0.spec_input_b().is_connected(),
        r.0.spec_input_a().own_id() == (name@, 0usize),
        r.0.spec_input_b().own_id() == (name@, 1usize),
        r.0.spec_tx_count() == 0,
        r.0.spec_rx_seen() == (0usize, 0usize),
        !r.1.is_connected(),
        r.1.own_id() == (name@, 0usize),
{
    let (output_tx, sender) = open_output(name, 0, output_q_size);
    let w = YMergeWrap {
        name: name.to_owned(),
        state: ymerge,
        input_a_rx: IdentifiedReceiver::new(name, 0),
        input_b_rx: IdentifiedReceiver::new(name, 1),
        output_tx: output_tx,
        seen_a: 0,
        seen_b: 0,
    };
    (w, sender)
}

impl<A: Send, B: Send, O: Send, L: YMerge<A, B, O>> YMergeWrap<A, B, O, L> {
    pub closed spec fn spec_name(&self) -> Seq<char> {
        self.name@
    }

    pub closed spec fn spec_input_a(&self) -> IdentifiedReceiver<A> {
        self.input_a_rx
    }

    pub closed spec fn spec_input_b(&self) -> IdentifiedReceiver<B> {
        self.input_b_rx
    }

    pub closed spec fn spec_tx_count(&self) -> usize {
        self.output_tx.spec_seqno()
    }

    /// The highest sequence numbers observed on inputs a and b.
    pub closed spec fn spec_rx_seen(&self) -> (usize, usize) {
        (self.seen_a, self.seen_b)
    }

    pub fn name(&self) -> (r: &String)
        ensures
            r@ == self.spec_name(),
    {
        &self.name
    }

    pub fn input_count(&self) -> (r: usize)
        ensures
            r == 2,
    {
        2
    }

    pub fn output_count(&self) -> (r: usize)
        ensures
            r == 1,
    {
        1
    }

    pub fn input_a(&self) -> (r: &IdentifiedReceiver<A>)
        ensures
            *r == self.spec_input_a(),
    {
        &self.input_a_rx
    }

    pub fn input_b(&self) -> (r: &IdentifiedReceiver<B>)
        ensures
            *r == self.spec_input_b(),
    {
        &self.input_b_rx
    }

    /// How many messages were sent on output `ch`; only output 0 exists.
    pub fn get_tx_count(&self, ch: usize) -> (r: usize)
        ensures
            ch == 0 ==> r == self.spec_tx_count(),
            ch != 0 ==> r == 0,
    {
        if ch == 0 {
            self.output_tx.seqno()
        } else {
            0
        }
    }

    /// The producer bound to input `ch`: 0 is input a, 1 is input b, and no
    /// other exists.
    pub fn get_input_id(&self, ch: usize) -> (r: Option<ChannelId>)
        ensures
            ch > 1 ==> r is None,
            ch == 0 ==> (r is None <==> self.spec_input_a().peer() is None) && (r matches Some(p)
                ==> self.spec_input_a().peer() == Some(p@)),
            ch == 1 ==> (r is None <==> self.spec_input_b().peer() is None) && (r matches Some(p)
                ==> self.spec_input_b().peer() == Some(p@)),
    {
        if ch > 1 {
            None
        } else if ch == 0 {
            self.input_a_rx.peer_id()
        } else {
            self.input_b_rx.peer_id()
        }
    }

    /// The producer's sequence number as input `ch` observes it: the
    /// largest value read so far on that input, so it never decreases; 0 for
    /// an input that does not exist.
    pub fn get_rx_count(&mut self, ch: usize) -> (r: usize)
        ensures
            final(self).spec_name() == old(self).spec_name(),
            final(self).spec_tx_count() == old(self).spec_tx_count(),
            final(self).spec_input_a() == old(self).spec_input_a(),
            final(self).spec_input_b() == old(self).spec_input_b(),
            old(self).spec_rx_seen().0 <= final(self).spec_rx_seen().0,
            old(self).spec_rx_seen().1 <= final(self).spec_rx_seen().1,
            ch != 0 ==> final(self).spec_rx_seen().0 == old(self).spec_rx_seen().0,
            ch != 1 ==> final(self).spec_rx_seen().1 == old(self).spec_rx_seen().1,
            ch > 1 ==> r == 0,
            ch == 0 ==> r == final(self).spec_rx_seen().0,
            ch == 1 ==> r == final(self).spec_rx_seen().1,
    {
        if ch == 0 {
            self.seen_a = observe(self.seen_a, self.input_a_rx.position());
            self.seen_a
        } else if ch == 1 {
            self.seen_b = observe(self.seen_b, self.input_b_rx.position());
            self.seen_b
        } else {
            0
        }
    }

    /// Binds a producer's output to input 0.
    pub fn connect_a(&mut self, tx: &mut SenderEnd<A>) -> (r: Result<(), Error>)
        ensures
            r == connect_outcome(old(tx).is_connected(), old(self).spec_input_a().is_connected()),
            connect_post(*old(tx), old(self).spec_input_a(), *final(tx), final(self).spec_input_a(), r),
            final(self).spec_input_b() == old(self).spec_input_b(),
            final(self).spec_name() == old(self).spec_name(),
            final(self).spec_tx_count() == old(self).spec_tx_count(),
            final(self).spec_rx_seen() == old(self).spec_rx_seen(),
    {
        connect(tx, &mut self.input_a_rx)
    }

    /// Binds a producer's output to input 1.
    pub fn connect_b(&mut self, tx: &mut SenderEnd<B>) -> (r: Result<(), Error>)
        ensures
            r == connect_outcome(old(tx).is_connected(), old(self).spec_input_b().is_connected()),
            connect_post(*old(tx), old(self).spec_input_b(), *final(tx), final(self).spec_input_b(), r),
            final(self).spec_input_a() == old(self).spec_input_a(),
            final(self).spec_name() == old(self).spec_name(),
            final(self).spec_tx_count() == old(self).spec_tx_count(),
            final(self).spec_rx_seen() == old(self).spec_rx_seen(),
    {
        connect(tx, &mut self.input_b_rx)
    }

    /// Runs the logic once over both inputs, reporting the output's advance
    /// and any channel waited on. The observed counts are kept.
    pub fn run<Obs: Observer>(&mut self, observer: &mut Obs, task_id: usize, now: usize) -> (r: Schedule)
        ensures
            final(self).spec_name() == old(self).spec_name(),
            final(self).spec_rx_seen() == old(self).spec_rx_seen(),
    {
        let before = self.output_tx.seqno();
        let event = self.state.process(&mut self.input_a_rx, &mut self.input_b_rx, &mut self.output_tx);
        let after = self.output_tx.seqno();
        report_execution(observer, before, after, event, task_id, now);
        event
    }
}

impl<A: Send, B: Send, O: Send, L: YMerge<A, B, O>> Task for YMergeWrap<A, B, O, L> {
    fn execute<Obs: Observer>(&mut self, observer: &mut Obs, task_id: usize, now: usize) -> Schedule {
        self.run(observer, task_id, now)
    }

    fn name(&self) -> &String {
        YMergeWrap::name(self)
    }

    fn input_count(&self) -> usize {
        YMergeWrap::input_count(self)
    }

    fn output_count(&self) -> usize {
        YMergeWrap::output_count(self)
    }

    fn input_id(&self, ch: usize) -> Option<ChannelId> {
        self.get_input_id(ch)
    }

    fn output_id(&self, ch: usize) -> Option<ChannelId> {
        output_id_of(&self.name, 1, ch)
    }

    fn tx_count(&self, ch: usize) -> usize {
        self.get_tx_count(ch)
    }

    closed spec fn spec_observed(&self, ch: usize) -> usize {
        if ch == 0 {
            self.seen_a
        } else if ch == 1 {
            self.seen_b
        } else {
            0
        }
    }

    fn input_position(&mut self, ch: usize) -> usize {
        self.get_rx_count(ch)
    }
}

} // verus!
