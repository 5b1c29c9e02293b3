//! Any number of inputs, one output.
use vstd::prelude::*;

use crate::channel::{
    connect, connect_outcome, connect_post, observe, open_output, IdentifiedReceiver, OutputPort, SenderEnd,
};
use crate::elem::report_execution;
use crate::{output_id_of, ChannelId, Error, Observer, Schedule, Task};

verus! {

/// Processing logic over a fixed row of inputs, any of which may be
/// unconnected, and one output.
pub trait Gather<I, O> {
    fn process(&mut self, inputs: &mut [IdentifiedReceiver<I>], output: &mut OutputPort<O>) -> Schedule;
}

#[verifier::reject_recursive_types(I)]
#[verifier::reject_recursive_types(O)]
pub struct GatherWrap<I, O, L> {
    name: String,
    state: L,
    input_rx_vec: Vec<IdentifiedReceiver<I>>,
    output_tx: OutputPort<O>,
    /// The number of input slots, fixed at construction.
    n_inputs: usize,
    /// Per input slot, the highest sequence number of its producer observed.
    rx_seen: Vec<usize>,
}

/// Wraps `gather` into a task named `name` with `n_channels` unconnected
/// inputs and an output queue of `output_q_size` messages. Returns the task
/// and its unconnected output.
pub fn new<I: Send, O: Send, L: Gather<I, O>>(
    name: &str,
    output_q_size: usize,
    gather: L,
    n_channels: usize,
) -> (r: (GatherWrap<I, O, L>, SenderEnd<O>))
    ensures
        r.0.spec_name() == name@,
        r.0.spec_inputs().len() == n_channels,
        r.0.spec_input_count() == n_channels,
        r.0.spec_rx_seen() == Seq::new(n_channels as nat, |i: int| 0usize),
        forall|i: int|
            0 <= i < n_channels ==> !(#[trigger] r.0.spec_inputs()[i]).is_connected()
                && r.0.spec_inputs()[i].own_id() == (name@, i as usize),
        r.0.spec_tx_count() == 0,
        !r.1.is_connected(),
        r.1.own_id() == (name@, 0usize),
{
    let (output_tx, sender) = open_output(name, 0, output_q_size);
    let mut inputs: Vec<IdentifiedReceiver<I>> = Vec::new();
    let mut seen: Vec<usize> = Vec::new();
    let mut i: usize = 0;
    while i < n_channels
        invariant
            i <= n_channels,
            inputs@.len() == i,
            seen@ == Seq::new(i as nat, |k: int| 0usize),
            forall|j: int|
                0 <= j < i ==> !(#[trigger] inputs@[j]).is_connected() && inputs@[j].own_id() == (
                    name@,
                    j as usize,
                ),
        decreases n_channels - i,
    {
        inputs.push(IdentifiedReceiver::new(name, i));
        seen.push(0);
        assert(seen@ =~= Seq::new((i + 1) as nat, |k: int| 0usize));
        i = i + 1;
    }
    let w = GatherWrap {
        name: name.to_owned(),
        state: gather,
        input_rx_vec: inputs,
        output_tx: output_tx,
        n_inputs: n_channels,
        rx_seen: seen,
    };
    (w, sender)
}

impl<I: Send, O: Send, L: Gather<I, O>> GatherWrap<I, O, L> {
    pub closed spec fn spec_name(&self) -> Seq<char> {
        self.name@
    }

    pub closed spec fn spec_inputs(&self) -> Seq<IdentifiedReceiver<I>> {
        self.input_rx_vec@
    }

    pub closed spec fn spec_tx_count(&self) -> usize {
        self.output_tx.spec_seqno()
    }

    /// The number of input slots the gather was made with.
    pub closed spec fn spec_input_count(&self) -> usize {
        self.n_inputs
    }

    /// Per input slot, the highest sequence number of its producer observed.
    pub closed spec fn spec_rx_seen(&self) -> Seq<usize> {
        self.rx_seen@
    }

    pub fn name(&self) -> (r: &String)
        ensures
            r@ == self.spec_name(),
    {
        &self.name
    }

    /// The number of input slots, connected or not.
    pub fn input_count(&self) -> (r: usize)
        ensures
            r == self.spec_input_count(),
    {
        self.n_inputs
    }

    pub fn output_count(&self) -> (r: usize)
        ensures
            r == 1,
    {
        1
    }

    /// The number of input slots, connected or not.
    pub fn input_slots(&self) -> (r: usize)
        ensures
            r == self.spec_inputs().len(),
    {
        self.input_rx_vec.len()
    }

    /// Input slot `n`: `NonExistent` past the last slot; a vacant slot is an
    /// unconnected receiver.
    pub fn input(&self, n: usize) -> (r: Result<&IdentifiedReceiver<I>, Error>)
        ensures
            n >= self.spec_inputs().len() ==> r == Err::<&IdentifiedReceiver<I>, Error>(Error::NonExistent),
            n < self.spec_inputs().len() ==> (r matches Ok(x) && *x == self.spec_inputs()[n as int]),
    {
        if n >= self.input_rx_vec.len() {
            Err(Error::NonExistent)
        } else {
            Ok(&self.input_rx_vec[n])
        }
    }

    /// How many messages were sent on output `ch`; only output 0 exists.
    pub fn get_tx_count(&self, ch: usize) -> (r: usize)
        ensures
            ch == 0 ==> r == self.spec_tx_count(),
            ch != 0 ==> r == 0,
    {
        if ch == 0 {
            self.output_tx.seqno()
        } else {
            0
        }
    }

    /// The producer bound to input slot `ch`; `None` past the last slot or
    /// for a vacant one.
    pub fn get_input_id(&self, ch: usize) -> (r: Option<ChannelId>)
        ensures
            ch >= self.spec_inputs().len() ==> r is None,
            ch < self.spec_inputs().len() ==> (r is None <==> self.spec_inputs()[ch as int].peer() is None),
            r matches Some(p) ==> self.spec_inputs()[ch as int].peer() == Some(p@),
    {
        if ch >= self.input_rx_vec.len() {
            None
        } else {
            self.input_rx_vec[ch].peer_id()
        }
    }

    /// The producer's sequence number as input slot `ch` observes it: the
    /// largest value read so far on that slot, so it never decreases; 0 past
    /// the last slot.
    pub fn get_rx_count(&mut self, ch: usize) -> (r: usize)
        ensures
            final(self).spec_name() == old(self).spec_name(),
            final(self).spec_tx_count() == old(self).spec_tx_count(),
            final(self).spec_input_count() == old(self).spec_input_count(),
            final(self).spec_inputs() == old(self).spec_inputs(),
            final(self).spec_rx_seen().len() == old(self).spec_rx_seen().len(),
            forall|j: int|
                0 <= j < old(self).spec_rx_seen().len() ==> old(self).spec_rx_seen()[j]
                    <= #[trigger] final(self).spec_rx_seen()[j],
            forall|j: int|
                0 <= j < old(self).spec_rx_seen().len() && j != ch ==> #[trigger] final(self).spec_rx_seen()[j]
                    == old(self).spec_rx_seen()[j],
            ch < old(self).spec_rx_seen().len() ==> r == final(self).spec_rx_seen()[ch as int],
            ch >= old(self).spec_rx_seen().len() ==> r == 0,
    {
        if ch >= self.rx_seen.len() {
            return 0;
        }
        let now = if ch < self.input_rx_vec.len() {
            self.input_rx_vec[ch].position()
        } else {
            0
        };
        let v = observe(self.rx_seen[ch], now);
        self.rx_seen.set(ch, v);
        v
    }

    /// Binds the producer's output to input slot `n`.
    pub fn connect_input(&mut self, n: usize, tx: &mut SenderEnd<I>) -> (r: Result<(), Error>)
        ensures
            final(self).spec_name() == old(self).spec_name(),
            final(self).spec_input_count() == old(self).spec_input_count(),
            final(self).spec_rx_seen() == old(self).spec_rx_seen(),
            final(self).spec_tx_count() == old(self).spec_tx_count(),
            final(self).spec_inputs().len() == old(self).spec_inputs().len(),
            n >= old(self).spec_inputs().len() ==> r == Err::<(), Error>(Error::NonExistent)
                && *final(tx) == *old(tx) && final(self).spec_inputs() == old(self).spec_inputs(),
            n < old(self).spec_inputs().len() ==> {
                &&& r == connect_outcome(
                    old(tx).is_connected(),
                    old(self).spec_inputs()[n as int].is_connected(),
                )
                &&& connect_post(
                    *old(tx),
                    old(self).spec_inputs()[n as int],
                    *final(tx),
                    final(self).spec_inputs()[n as int],
                    r,
                )
                &&& forall|j: int|
                    0 <= j < old(self).spec_inputs().len() && j != n
                        ==> #[trigger] final(self).spec_inputs()[j] == old(self).spec_inputs()[j]
            },
    {
        if n >= self.input_rx_vec.len() {
            return Err(Error::NonExistent);
        }
        connect(tx, &mut self.input_rx_vec[n])
    }

    /// Runs the logic once over all input slots, reporting the output's
    /// advance and any channel waited on. The number of input slots and the
    /// observed counts are kept.
    pub fn run<Obs: Observer>(&mut self, observer: &mut Obs, task_id: usize, now: usize) -> (r: Schedule)
        ensures
            final(self).spec_name() == old(self).spec_name(),
            final(self).spec_input_count() == old(self).spec_input_count(),
            final(self).spec_rx_seen() == old(self).spec_rx_seen(),
    {
        let before = self.output_tx.seqno();
        let event = self.state.process(self.input_rx_vec.as_mut_slice(), &mut self.output_tx);
        let after = self.output_tx.seqno();
        report_execution(observer, before, after, event, task_id, now);
        event
    }
}

impl<I: Send, O: Send, L: Gather<I, O>> Task for GatherWrap<I, O, L> {
    fn execute<Obs: Observer>(&mut self, observer: &mut Obs, task_id: usize, now: usize) -> Schedule {
        self.run(observer, task_id, now)
    }

    fn name(&self) -> &String {
        GatherWrap::name(self)
    }

    fn input_count(&self) -> usize {
        GatherWrap::input_count(self)
    }

    fn output_count(&self) -> usize {
        GatherWrap::output_count(self)
    }

    fn input_id(&self, ch: usize) -> Option<ChannelId> {
        self.get_input_id(ch)
    }

    fn output_id(&self, ch: usize) -> Option<ChannelId> {
        output_id_of(&self.name, 1, ch)
    }

    fn tx_count(&self, ch: usize) -> usize {
        self.get_tx_count(ch)
    }

    closed spec fn spec_observed(&self, ch: usize) -> usize {
        if ch < self.rx_seen@.len() {
            self.rx_seen@[ch as int]
        } else {
            0
        }
    }

    fn input_position(&mut self, ch: usize) -> usize {
        self.get_rx_count(ch)
    }
}

} // verus!
