//! Channel endpoints over lossyq's bounded single-producer / single-consumer
//! queue, and the protocol that pairs a producer's output with a consumer's
//! input exactly once.
use vstd::prelude::*;

use crate::{ChannelId, Error, Message};
use lossyq::spsc::{Receiver, Sender};

verus! {

#[verifier::external_type_specification]
#[verifier::external_body]
#[verifier::reject_recursive_types(T)]
pub struct ExSender<T>(lossyq::spsc::Sender<T>);

#[verifier::external_type_specification]
#[verifier::external_body]
#[verifier::reject_recursive_types(T)]
pub struct ExReceiver<T>(lossyq::spsc::Receiver<T>);

/// Relies on lossyq::spsc::channel: a fresh queue of bounded size, as a
/// writer half and a reader half.
#[verifier::external_body]
fn open_queue<T: Send>(size: usize) -> (Sender<Message<T>>, Receiver<Message<T>>) {
    lossyq::spsc::channel(size)
}

/// Relies on lossyq::spsc::Sender::put: stores the value in the queue,
/// overwriting the oldest unread one when the queue is full.
#[verifier::external_body]
fn put_value<T: Send>(tx: &mut Sender<Message<T>>, m: Message<T>) {
    let mut slot = Some(m);
    tx.put(|v| exchange(v, &mut slot));
}

/// Exchanges the contents of two places: moves a pending message into the
/// queue's free slot.
fn exchange<T>(a: &mut Option<T>, b: &mut Option<T>)
    ensures
        *final(a) == *old(b),
        *final(b) == *old(a),
{
    std::mem::swap(a, b)
}

/// Relies on lossyq::spsc::Receiver::iter: takes out what the writer has
/// stored since the last read, oldest first.
#[verifier::external_body]
fn take_pending<T: Send>(rx: &mut Receiver<Message<T>>) -> Vec<Message<T>> {
    rx.iter().collect()
}

/// Relies on lossyq::spsc::Receiver::seqno: the number of values the writer
/// has stored so far, as the reader sees it now.
#[verifier::external_body]
fn queue_seqno<T: Send>(rx: &Receiver<Message<T>>) -> usize {
    rx.seqno()
}

impl View for ChannelId {
    type V = (Seq<char>, usize);

    open spec fn view(&self) -> (Seq<char>, usize) {
        (self.task_name@, self.id)
    }
}

impl ChannelId {
    /// A copy of this identity.
    pub fn duplicate(&self) -> (r: ChannelId)
        ensures
            r@ == self@,
    {
        ChannelId { task_name: self.task_name.clone(), id: self.id }
    }
}

/// The writing side of a channel, kept by the producing task. It counts the
/// messages it has handed to the queue, and keeps (as ghost state) the list
/// of them in order; the queue itself may drop old ones when full.
#[verifier::reject_recursive_types(T)]
pub struct OutputPort<T> {
    tx: Sender<Message<T>>,
    sent: usize,
    log: Ghost<Seq<Message<T>>>,
}

impl<T: Send> OutputPort<T> {
    /// How many messages were sent on this port, saturating at the largest
    /// `usize`.
    pub closed spec fn spec_seqno(&self) -> usize {
        self.sent
    }

    /// The messages sent on this port, oldest first.
    pub closed spec fn spec_sent(&self) -> Seq<Message<T>> {
        self.log@
    }

    pub fn seqno(&self) -> (r: usize)
        ensures
            r == self.spec_seqno(),
    {
        self.sent
    }

    /// Sends one message. The count advances by one (it stays at its largest
    /// value once reached); a full queue drops its oldest message.
    pub fn send(&mut self, m: Message<T>)
        ensures
            final(self).spec_seqno() == if old(self).spec_seqno() < usize::MAX {
                (old(self).spec_seqno() + 1) as usize
            } else {
                usize::MAX
            },
            final(self).spec_sent() == old(self).spec_sent().push(m),
    {
        put_value(&mut self.tx, m);
        proof {
            self.log@ = self.log@.push(m);
        }
        if self.sent < usize::MAX {
            self.sent = self.sent + 1;
        }
    }
}

/// The producer's handle on its output before a consumer is bound to it: it
/// holds the queue's reading half until `connect` hands it over.
#[verifier::reject_recursive_types(T)]
pub enum SenderEnd<T> {
    NotConnected(ChannelId, Receiver<Message<T>>),
    /// Own identity, then the consumer's.
    Connected(ChannelId, ChannelId),
}

/// A consumer's input. Once connected it holds the queue's reading half.
#[verifier::reject_recursive_types(T)]
pub enum IdentifiedReceiver<T> {
    NotConnected(ChannelId),
    /// Own identity, the producer's, the queue.
    Connected(ChannelId, ChannelId, Receiver<Message<T>>),
}

/// Makes a channel of the given bound for the task `name`'s output `index`:
/// the writing port and the unconnected sender-side handle.
pub fn open_output<T: Send>(name: &str, index: usize, size: usize) -> (r: (OutputPort<T>, SenderEnd<T>))
    ensures
        r.0.spec_seqno() == 0,
        r.0.spec_sent() == Seq::<Message<T>>::empty(),
        !r.1.is_connected(),
        r.1.own_id() == (name@, index),
{
    let (tx, rx) = open_queue(size);
    let id = ChannelId { task_name: name.to_owned(), id: index };
    (OutputPort { tx: tx, sent: 0, log: Ghost(Seq::empty()) }, SenderEnd::NotConnected(id, rx))
}

impl<T: Send> SenderEnd<T> {
    pub open spec fn is_connected(&self) -> bool {
        self is Connected
    }

    pub open spec fn own_id(&self) -> (Seq<char>, usize) {
        match self {
            SenderEnd::NotConnected(id, _) => id@,
            SenderEnd::Connected(id, _) => id@,
        }
    }

    pub open spec fn peer(&self) -> Option<(Seq<char>, usize)> {
        match self {
            SenderEnd::NotConnected(_, _) => None,
            SenderEnd::Connected(_, p) => Some(p@),
        }
    }

    pub fn id(&self) -> (r: &ChannelId)
        ensures
            r@ == self.own_id(),
    {
        match self {
            SenderEnd::NotConnected(id, _) => id,
            SenderEnd::Connected(id, _) => id,
        }
    }

    pub fn peer_id(&self) -> (r: Option<ChannelId>)
        ensures
            r.is_none() <==> self.peer().is_none(),
            r matches Some(p) ==> self.peer() == Some(p@),
    {
        match self {
            SenderEnd::NotConnected(_, _) => None,
            SenderEnd::Connected(_, p) => Some(p.duplicate()),
        }
    }
}

impl<T: Send> IdentifiedReceiver<T> {
    /// An unconnected input of task `name` at position `index`.
    pub fn new(name: &str, index: usize) -> (r: IdentifiedReceiver<T>)
        ensures
            !r.is_connected(),
            r.own_id() == (name@, index),
    {
        IdentifiedReceiver::NotConnected(ChannelId { task_name: name.to_owned(), id: index })
    }

    pub open spec fn is_connected(&self) -> bool {
        self is Connected
    }

    pub open spec fn own_id(&self) -> (Seq<char>, usize) {
        match self {
            IdentifiedReceiver::NotConnected(id) => id@,
            IdentifiedReceiver::Connected(id, _, _) => id@,
        }
    }

    pub open spec fn peer(&self) -> Option<(Seq<char>, usize)> {
        match self {
            IdentifiedReceiver::NotConnected(_) => None,
            IdentifiedReceiver::Connected(_, p, _) => Some(p@),
        }
    }

    pub fn id(&self) -> (r: &ChannelId)
        ensures
            r@ == self.own_id(),
    {
        match self {
            IdentifiedReceiver::NotConnected(id) => id,
            IdentifiedReceiver::Connected(id, _, _) => id,
        }
    }

    /// The producer's identity if connected, else `None`.
    pub fn peer_id(&self) -> (r: Option<ChannelId>)
        ensures
            r.is_none() <==> self.peer().is_none(),
            r matches Some(p) ==> self.peer() == Some(p@),
    {
        match self {
            IdentifiedReceiver::NotConnected(_) => None,
            IdentifiedReceiver::Connected(_, p, _) => Some(p.duplicate()),
        }
    }

    pub fn is_bound(&self) -> (r: bool)
        ensures
            r == self.is_connected(),
    {
        match self {
            IdentifiedReceiver::NotConnected(_) => false,
            IdentifiedReceiver::Connected(_, _, _) => true,
        }
    }

    /// Reads the producer's sequence number as it stands now; 0 when the
    /// input is not connected. Successive reads may differ, as the producer
    /// goes on writing: `observe` keeps the largest value seen.
    pub fn position(&self) -> (r: usize)
        ensures
            !self.is_connected() ==> r == 0,
    {
        match self {
            IdentifiedReceiver::NotConnected(_) => 0,
            IdentifiedReceiver::Connected(_, _, q) => queue_seqno(q),
        }
    }

    /// Takes out the messages waiting on this input, oldest first; none when
    /// the input is not connected.
    pub fn receive(&mut self) -> (r: Vec<Message<T>>)
        ensures
            read_step(*old(self), *final(self)),
            !old(self).is_connected() ==> r@.len() == 0,
    {
        match self {
            IdentifiedReceiver::NotConnected(_) => Vec::new(),
            IdentifiedReceiver::Connected(_, _, q) => take_pending(q),
        }
    }
}

/// One read of an input: identities and connection kept.
pub open spec fn read_step<T: Send>(a: IdentifiedReceiver<T>, b: IdentifiedReceiver<T>) -> bool {
    &&& a.is_connected() == b.is_connected()
    &&& a.own_id() == b.own_id()
    &&& a.peer() == b.peer()
}

/// The observed sequence number after a read that returned `now`, when
/// `seen` was observed before: the larger of the two.
pub open spec fn spec_observe(seen: usize, now: usize) -> usize {
    if now > seen {
        now
    } else {
        seen
    }
}

pub fn observe(seen: usize, now: usize) -> (r: usize)
    ensures
        r == spec_observe(seen, now),
{
    if now > seen {
        now
    } else {
        seen
    }
}

/// The outcome of connecting a sender-side handle to an input, by whether
/// each was connected before.
pub open spec fn connect_outcome(tx_bound: bool, rx_bound: bool) -> Result<(), Error> {
    if tx_bound || rx_bound {
        Err(Error::Busy)
    } else {
        Ok(())
    }
}

/// What a call of `connect` leaves behind, given its result `r`.
pub open spec fn connect_post<T: Send>(
    tx0: SenderEnd<T>,
    rx0: IdentifiedReceiver<T>,
    tx1: SenderEnd<T>,
    rx1: IdentifiedReceiver<T>,
    r: Result<(), Error>,
) -> bool {
    &&& r is Err ==> tx1 == tx0 && rx1 == rx0
    &&& r is Ok ==> {
        &&& tx1.is_connected() && rx1.is_connected()
        &&& tx1.own_id() == tx0.own_id()
        &&& rx1.own_id() == rx0.own_id()
        &&& tx1.peer() == Some(rx0.own_id())
        &&& rx1.peer() == Some(tx0.own_id())
    }
}

/// Binds the input to the producer's queue, recording each side's identity on
/// the other. An endpoint that is already bound is never re-paired: then both
/// stay as they were and `Busy` is returned. That both carry one payload type
/// is checked by the compiler.
pub fn connect<T: Send>(tx: &mut SenderEnd<T>, rx: &mut IdentifiedReceiver<T>) -> (r: Result<(), Error>)
    ensures
        r == connect_outcome(old(tx).is_connected(), old(rx).is_connected()),
        connect_post(*old(tx), *old(rx), *final(tx), *final(rx), r),
{
    if tx.is_bound_sender() || rx.is_bound() {
        return Err(Error::Busy);
    }
    let tx_id = tx.id().duplicate();
    let rx_id = rx.id().duplicate();
    let mut prev = SenderEnd::Connected(tx_id.duplicate(), rx_id.duplicate());
    std::mem::swap(tx, &mut prev);
    match prev {
        SenderEnd::NotConnected(_, q) => {
            *rx = IdentifiedReceiver::Connected(rx_id, tx_id, q);
            Ok(())
        },
        SenderEnd::Connected(_, _) => Err(Error::Busy),
    }
}

impl<T: Send> SenderEnd<T> {
    pub fn is_bound_sender(&self) -> (r: bool)
        ensures
            r == self.is_connected(),
    {
        match self {
            SenderEnd::NotConnected(_, _) => false,
            SenderEnd::Connected(_, _) => true,
        }
    }
}

/// Monotonic progress: whatever values a run of reads returns, the
/// sequence number observed along it never decreases.
pub proof fn lemma_reads_monotone(seen: Seq<usize>, reads: Seq<usize>)
    requires
        seen.len() == reads.len() + 1,
        forall|k: int| 0 <= k < reads.len() ==> #[trigger] seen[k + 1] == spec_observe(seen[k], reads[k]),
    ensures
        forall|a: int, b: int| 0 <= a <= b < seen.len() ==> #[trigger] seen[a] <= #[trigger] seen[b],
{
    assert forall|a: int, b: int| 0 <= a <= b < seen.len() implies #[trigger] seen[a] <= #[trigger] seen[b] by {
        lemma_seen_grows(seen, reads, a, b);
    }
}

proof fn lemma_seen_grows(seen: Seq<usize>, reads: Seq<usize>, a: int, b: int)
    requires
        0 <= a <= b < seen.len(),
        seen.len() == reads.len() + 1,
        forall|k: int| 0 <= k < reads.len() ==> #[trigger] seen[k + 1] == spec_observe(seen[k], reads[k]),
    ensures
        seen[a] <= seen[b],
    decreases b - a,
{
    if a < b {
        lemma_seen_grows(seen, reads, a, b - 1);
        let k = b - 1;
        assert(seen[k + 1] == spec_observe(seen[k], reads[k]));
    }
}

/// Connection exclusivity: two never-connected endpoints connect, and
/// afterwards any further connect that involves either of them fails with
/// `Busy`, whatever the other side.
pub proof fn lemma_connect_exclusive<T: Send>(
    tx0: SenderEnd<T>,
    rx0: IdentifiedReceiver<T>,
    tx1: SenderEnd<T>,
    rx1: IdentifiedReceiver<T>,
)
    requires
        !tx0.is_connected(),
        !rx0.is_connected(),
        connect_post(tx0, rx0, tx1, rx1, connect_outcome(tx0.is_connected(), rx0.is_connected())),
    ensures
        connect_outcome(tx0.is_connected(), rx0.is_connected()) == Ok::<(), Error>(()),
        forall|other: bool| connect_outcome(tx1.is_connected(), other) == Err::<(), Error>(Error::Busy),
        forall|other: bool| connect_outcome(other, rx1.is_connected()) == Err::<(), Error>(Error::Busy),
{
}

} // verus!
