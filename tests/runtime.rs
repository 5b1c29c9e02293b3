use acto_rs::channel::{connect, observe, IdentifiedReceiver, OutputPort, SenderEnd};
use acto_rs::elem::filter::{self, finish, ErrorPolicy, Filter, FilterWrap};
use acto_rs::elem::gather::{self, Gather, GatherWrap};
use acto_rs::elem::ymerge::{self, YMerge};
use acto_rs::scheduler::{self, max_idx, position, SchedulingRule, TaskPage};
use acto_rs::source::{self, Source, SourceWrap};
use acto_rs::{new_id, next_state, ChannelId, Error, Message, Observer, Schedule, Task, TaskState};

#[derive(Default)]
struct Log {
    sent: Vec<(usize, usize, usize)>,
    waits: Vec<(usize, usize, usize)>,
    executed: Vec<usize>,
    stopped: Vec<usize>,
}

impl Observer for Log {
    fn scheduled(&mut self, _task_id: usize, _at_usec: usize) {}
    fn executed(&mut self, task_id: usize, _at_usec: usize) {
        self.executed.push(task_id);
    }
    fn stopped(&mut self, task_id: usize, _at_usec: usize) {
        self.stopped.push(task_id);
    }
    fn delayed(&mut self, _task_id: usize, _reason: &TaskState, _at_usec: usize) {}
    fn message_sent(&mut self, channel_id: usize, last_msg_id: usize, task_id: usize, _at_usec: usize) {
        self.sent.push((channel_id, last_msg_id, task_id));
    }
    fn wait_channel(&mut self, channel_id: usize, last_msg_id: usize, task_id: usize, _at_usec: usize) {
        self.waits.push((channel_id, last_msg_id, task_id));
    }
    fn transition(&mut self, _f: &TaskState, _e: &Schedule, _t: &TaskState, _id: usize, _at: usize) {}
}

/// Emits 0, 1, 2, ... one per run, then stops after `limit` values when
/// `stop_at_end` is set.
struct Counter {
    next: u64,
    limit: u64,
    stop_at_end: bool,
}

impl Source<u64> for Counter {
    fn process(&mut self, output: &mut OutputPort<u64>) -> Schedule {
        if self.next < self.limit {
            output.send(Message::Value(self.next));
            self.next += 1;
        }
        if self.stop_at_end && self.next >= self.limit {
            Schedule::Stop
        } else {
            Schedule::Loop
        }
    }
}

/// Doubles each value; fails on 5.
struct Doubler;

impl Filter<u64, u64> for Doubler {
    fn process(
        &mut self,
        input: &mut IdentifiedReceiver<u64>,
        output: &mut OutputPort<u64>,
    ) -> Result<(), &'static str> {
        for m in input.receive() {
            if let Message::Value(v) = m {
                if v == 5 {
                    return Err("bad value");
                }
                output.send(Message::Value(v * 2));
            }
        }
        Ok(())
    }
}

/// Forwards every value of every connected input and waits on the first
/// connected one.
struct Forward;

impl Gather<u64, u64> for Forward {
    fn process(&mut self, inputs: &mut [IdentifiedReceiver<u64>], output: &mut OutputPort<u64>) -> Schedule {
        let mut wait: Option<(usize, usize)> = None;
        for (i, inp) in inputs.iter_mut().enumerate() {
            if !inp.is_bound() {
                continue;
            }
            for m in inp.receive() {
                output.send(m);
            }
            if wait.is_none() {
                wait = Some((i, inp.position()));
            }
        }
        match wait {
            Some((c, s)) => Schedule::OnMessage(c, s),
            None => Schedule::OnExternalEvent,
        }
    }
}

struct Pair;

impl YMerge<u64, u64, u64> for Pair {
    fn process(
        &mut self,
        a: &mut IdentifiedReceiver<u64>,
        b: &mut IdentifiedReceiver<u64>,
        output: &mut OutputPort<u64>,
    ) -> Schedule {
        for m in a.receive() {
            output.send(m);
        }
        for m in b.receive() {
            output.send(m);
        }
        Schedule::Loop
    }
}

enum Node {
    S(SourceWrap<u64, Counter>),
    F(FilterWrap<u64, u64, Doubler>),
    G(GatherWrap<u64, u64, Forward>),
}

impl Task for Node {
    fn execute<O: Observer>(&mut self, observer: &mut O, task_id: usize, now: usize) -> Schedule {
        match self {
            Node::S(t) => t.execute(observer, task_id, now),
            Node::F(t) => t.execute(observer, task_id, now),
            Node::G(t) => t.execute(observer, task_id, now),
        }
    }
    fn name(&self) -> &String {
        match self {
            Node::S(t) => t.name(),
            Node::F(t) => t.name(),
            Node::G(t) => t.name(),
        }
    }
    fn input_count(&self) -> usize {
        match self {
            Node::S(t) => t.input_count(),
            Node::F(t) => t.input_count(),
            Node::G(t) => t.input_count(),
        }
    }
    fn output_count(&self) -> usize {
        match self {
            Node::S(t) => t.output_count(),
            Node::F(t) => t.output_count(),
            Node::G(t) => t.output_count(),
        }
    }
    fn input_id(&self, ch: usize) -> Option<ChannelId> {
        match self {
            Node::S(t) => t.input_id(ch),
            Node::F(t) => t.input_id(ch),
            Node::G(t) => t.input_id(ch),
        }
    }
    fn output_id(&self, ch: usize) -> Option<ChannelId> {
        match self {
            Node::S(t) => t.output_id(ch),
            Node::F(t) => t.output_id(ch),
            Node::G(t) => t.output_id(ch),
        }
    }
    fn tx_count(&self, ch: usize) -> usize {
        match self {
            Node::S(t) => t.tx_count(ch),
            Node::F(t) => t.tx_count(ch),
            Node::G(t) => t.tx_count(ch),
        }
    }
    fn spec_observed(&self, ch: usize) -> usize {
        match self {
            Node::S(t) => t.spec_observed(ch),
            Node::F(t) => t.spec_observed(ch),
            Node::G(t) => t.spec_observed(ch),
        }
    }
    fn input_position(&mut self, ch: usize) -> usize {
        match self {
            Node::S(t) => t.input_position(ch),
            Node::F(t) => t.input_position(ch),
            Node::G(t) => t.input_position(ch),
        }
    }
}

fn values(ms: Vec<Message<u64>>) -> Vec<u64> {
    ms.into_iter()
        .map(|m| match m {
            Message::Value(v) => v,
            _ => panic!("not a value"),
        })
        .collect()
}

#[test]
fn dummy() {}

#[test]
fn source_filter_pipeline_delivers_doubled_values() {
    let (src, mut src_out) = source::new("src", 4, Counter { next: 0, limit: 3, stop_at_end: false });
    let (mut flt, mut flt_out) = filter::new("dbl", 4, Doubler, ErrorPolicy::Continue);
    assert!(flt.connect_input(&mut src_out).is_ok());
    let mut sink: IdentifiedReceiver<u64> = IdentifiedReceiver::new("sink", 0);
    assert!(connect(&mut flt_out, &mut sink).is_ok());

    let mut page: TaskPage<Node> = TaskPage::with_slots(2);
    assert!(page.store(0, Node::S(src)).is_ok());
    assert!(page.store(1, Node::F(flt)).is_ok());
    let mut log = Log::default();
    assert_eq!(page.eval(0, &mut log), vec![Some(Schedule::Loop), Some(Schedule::OnMessage(0, 1))]);
    assert_eq!(page.eval(1, &mut log), vec![Some(Schedule::Loop), Some(Schedule::OnMessage(0, 2))]);
    assert_eq!(page.eval(2, &mut log), vec![Some(Schedule::Loop), Some(Schedule::OnMessage(0, 3))]);
    assert_eq!(values(sink.receive()), vec![0, 2, 4]);
    assert_eq!(sink.position(), 3);
    match page.acquire(1) {
        Some(Node::F(f)) => assert_eq!(f.tx_count(0), 3),
        _ => panic!("filter missing"),
    }
}

#[test]
fn filter_error_goes_downstream_and_continues() {
    let (mut src_out_port, mut src_end) = acto_rs::channel::open_output::<u64>("feed", 0, 4);
    let (mut flt, mut flt_out) = filter::new("dbl", 4, Doubler, ErrorPolicy::Continue);
    assert!(flt.connect_input(&mut src_end).is_ok());
    let mut sink: IdentifiedReceiver<u64> = IdentifiedReceiver::new("sink", 0);
    assert!(connect(&mut flt_out, &mut sink).is_ok());

    src_out_port.send(Message::Value(5));
    let mut log = Log::default();
    let r = flt.run(&mut log, 7, 0);
    assert!(matches!(r, Schedule::Loop));
    assert_eq!(flt.tx_count(0), 1);
    let got = sink.receive();
    assert_eq!(got.len(), 1);
    match got[0] {
        Message::Error(origin, reason) => {
            assert_eq!(origin, 7);
            assert_eq!(reason, "bad value");
        }
        _ => panic!("expected an error message"),
    }
    assert_eq!(log.sent, vec![(0, 1, 7)]);
}

#[test]
fn filter_error_in_table_carries_its_slot() {
    let (mut feed, mut feed_end) = acto_rs::channel::open_output::<u64>("feed", 0, 4);
    let (mut flt, mut flt_out) = filter::new("dbl", 4, Doubler, ErrorPolicy::Continue);
    assert!(flt.connect_input(&mut feed_end).is_ok());
    let mut sink: IdentifiedReceiver<u64> = IdentifiedReceiver::new("sink", 0);
    assert!(connect(&mut flt_out, &mut sink).is_ok());
    let mut page: TaskPage<FilterWrap<u64, u64, Doubler>> = TaskPage::with_slots(4);
    page.store(3, flt).unwrap();
    feed.send(Message::Value(5));
    let mut log = Log::default();
    assert_eq!(page.eval_slot(3, 0, &mut log), Some(Schedule::Loop));
    assert_eq!(page.slot_state(3), Some(TaskState::Execute));
    match sink.receive().as_slice() {
        [Message::Error(origin, reason)] => {
            assert_eq!(*origin, 3);
            assert_eq!(*reason, "bad value");
        }
        _ => panic!("expected one error message"),
    }
    assert_eq!(log.sent, vec![(0, 1, 3)]);
}

#[test]
fn filter_error_stops_under_stop_policy() {
    let (mut port, mut end) = acto_rs::channel::open_output::<u64>("feed", 0, 4);
    let (mut flt, _out) = filter::new("dbl", 4, Doubler, ErrorPolicy::Stop);
    assert!(flt.connect_input(&mut end).is_ok());
    port.send(Message::Value(5));
    let mut log = Log::default();
    assert!(matches!(flt.run(&mut log, 0, 0), Schedule::Stop));
}

#[test]
fn filter_success_waits_for_next_input() {
    let (mut port, mut end) = acto_rs::channel::open_output::<u64>("feed", 0, 4);
    let (mut flt, _out) = filter::new("dbl", 4, Doubler, ErrorPolicy::Stop);
    assert!(flt.connect_input(&mut end).is_ok());
    port.send(Message::Value(1));
    port.send(Message::Value(2));
    let mut log = Log::default();
    assert_eq!(flt.run(&mut log, 3, 0), Schedule::OnMessage(0, 2));
    assert_eq!(log.waits, vec![(0, 2, 3)]);
}

#[test]
fn gather_waits_then_wakes_on_new_data() {
    let (src, mut src_out) = source::new("src", 4, Counter { next: 0, limit: 10, stop_at_end: false });
    let (mut g, _g_out) = gather::new("g", 4, Forward, 2);
    assert!(g.connect_input(0, &mut src_out).is_ok());
    assert!(g.input(1).unwrap().peer_id().is_none());

    let mut page: TaskPage<Node> = TaskPage::with_slots(2);
    page.store(0, Node::S(src)).unwrap();
    page.store(1, Node::G(g)).unwrap();
    let mut log = Log::default();

    assert!(page.eval_slot(0, 0, &mut log).is_some());
    assert_eq!(page.eval_slot(1, 0, &mut log), Some(Schedule::OnMessage(0, 1)));
    assert_eq!(page.slot_state(1), Some(TaskState::MessageWait(0, 1)));
    assert_eq!(log.waits, vec![(0, 1, 1)]);

    // nothing new: the gather is not run again
    assert_eq!(page.eval_slot(1, 1, &mut log), None);

    // one more value: the next pass sees the advanced counter and runs it
    assert!(page.eval_slot(0, 2, &mut log).is_some());
    assert_eq!(page.eval_slot(1, 2, &mut log), Some(Schedule::OnMessage(0, 2)));
}

#[test]
fn gather_arity_and_out_of_range_input() {
    let (g, _out) = gather::new::<u64, u64, Forward>("g", 4, Forward, 2);
    assert_eq!(g.input_count(), 2);
    assert_eq!(g.input_slots(), 2);
    assert!(matches!(g.input(2), Err(Error::NonExistent)));
    let vacant = g.input(1).unwrap();
    assert!(!vacant.is_bound());
    assert!(g.input_id(1).is_none());
    assert!(g.input_id(2).is_none());
}

#[test]
fn gather_connect_out_of_range_is_nonexistent() {
    let (mut g, _out) = gather::new::<u64, u64, Forward>("g", 4, Forward, 2);
    let (_p, mut end) = acto_rs::channel::open_output::<u64>("feed", 0, 4);
    assert_eq!(g.connect_input(2, &mut end), Err(Error::NonExistent));
    assert_eq!(g.connect_input(1, &mut end), Ok(()));
    let peer = g.input_id(1).unwrap();
    assert_eq!(peer.task_name(), "feed");
    assert_eq!(peer.id(), 0);
}

#[test]
fn connecting_twice_is_busy() {
    let (_p, mut end) = acto_rs::channel::open_output::<u64>("a", 0, 4);
    let mut rx1: IdentifiedReceiver<u64> = IdentifiedReceiver::new("b", 0);
    let mut rx2: IdentifiedReceiver<u64> = IdentifiedReceiver::new("c", 0);
    assert_eq!(connect(&mut end, &mut rx1), Ok(()));
    assert_eq!(connect(&mut end, &mut rx2), Err(Error::Busy));
    let (_q, mut end2) = acto_rs::channel::open_output::<u64>("d", 0, 4);
    assert_eq!(connect(&mut end2, &mut rx1), Err(Error::Busy));
    assert!(!rx2.is_bound());
    let p = rx1.peer_id().unwrap();
    assert_eq!(p.task_name(), "a");
    let q = end.peer_id().unwrap();
    assert_eq!(q.task_name(), "b");
}

#[test]
fn reader_position_never_decreases() {
    let (mut port, mut end) = acto_rs::channel::open_output::<u64>("a", 0, 2);
    let mut rx: IdentifiedReceiver<u64> = IdentifiedReceiver::new("b", 0);
    assert_eq!(rx.position(), 0);
    connect(&mut end, &mut rx).unwrap();
    let mut last = rx.position();
    for v in 0..5 {
        port.send(Message::Value(v));
        let p = rx.position();
        assert!(p >= last);
        last = p;
        let _ = rx.receive();
    }
    assert_eq!(last, 5);
    assert_eq!(port.seqno(), 5);
}

#[test]
fn unconnected_input_receives_nothing() {
    let mut rx: IdentifiedReceiver<u64> = IdentifiedReceiver::new("b", 3);
    assert!(rx.receive().is_empty());
    assert_eq!(rx.id().id(), 3);
    assert_eq!(rx.id().task_name(), "b");
}

#[test]
fn stopped_slot_is_never_run_again() {
    let (src, _out) = source::new("src", 4, Counter { next: 0, limit: 1, stop_at_end: true });
    let mut page: TaskPage<Node> = TaskPage::with_slots(1);
    page.store(0, Node::S(src)).unwrap();
    let mut log = Log::default();
    assert_eq!(page.eval(0, &mut log), vec![Some(Schedule::Stop)]);
    assert_eq!(page.slot_state(0), Some(TaskState::Stop));
    assert_eq!(log.stopped, vec![0]);
    assert_eq!(page.eval(1, &mut log), vec![None]);
    assert_eq!(page.eval_slot(0, 2, &mut log), None);
    assert!(page.acquire(0).is_none());
    assert!(page.is_occupied(0));
    assert_eq!(log.executed, vec![0]);
}

#[test]
fn acquired_slot_cannot_be_acquired_again() {
    let (src, _out) = source::new("src", 4, Counter { next: 0, limit: 1, stop_at_end: false });
    let mut page: TaskPage<Node> = TaskPage::with_slots(2);
    page.store(1, Node::S(src)).unwrap();
    assert!(page.acquire(0).is_none());
    let t = page.acquire(1).unwrap();
    assert!(page.acquire(1).is_none());
    let mut log = Log::default();
    assert_eq!(page.eval(0, &mut log), vec![None, None]);
    page.release(1, t);
    assert!(page.acquire(1).is_some());
}

#[test]
fn delayed_slot_waits_until_its_time() {
    struct Sleeper;
    impl Source<u64> for Sleeper {
        fn process(&mut self, _output: &mut OutputPort<u64>) -> Schedule {
            Schedule::DelayUSec(10)
        }
    }
    let (s, _out) = source::new::<u64, Sleeper>("sleep", 1, Sleeper);
    let mut page: TaskPage<SourceWrap<u64, Sleeper>> = TaskPage::with_slots(1);
    page.store(0, s).unwrap();
    let mut log = Log::default();
    assert_eq!(page.eval_slot(0, 5, &mut log), Some(Schedule::DelayUSec(10)));
    assert_eq!(page.slot_state(0), Some(TaskState::TimeWait(15)));
    assert_eq!(page.eval_slot(0, 14, &mut log), None);
    assert!(page.eval_slot(0, 15, &mut log).is_some());
}

#[test]
fn external_event_waits_for_notify() {
    let (g, _out) = gather::new::<u64, u64, Forward>("g", 4, Forward, 1);
    let mut page: TaskPage<GatherWrap<u64, u64, Forward>> = TaskPage::with_slots(1);
    page.store(0, g).unwrap();
    let mut log = Log::default();
    assert_eq!(page.eval_slot(0, 0, &mut log), Some(Schedule::OnExternalEvent));
    assert_eq!(page.slot_state(0), Some(TaskState::ExtEventWait(0)));
    assert_eq!(page.eval_slot(0, 1, &mut log), None);
    page.notify(0);
    assert_eq!(page.slot_state(0), Some(TaskState::Execute));
    assert!(page.eval_slot(0, 2, &mut log).is_some());
}

#[test]
fn table_rejects_missing_slots() {
    let mut page: TaskPage<Node> = TaskPage::with_slots(2);
    let (src, _out) = source::new("src", 4, Counter { next: 0, limit: 1, stop_at_end: false });
    assert_eq!(page.store(2, Node::S(src)), Err(Error::NonExistent));
    assert_eq!(page.init_info(2, 1, SchedulingRule::Loop), Err(Error::NonExistent));
    assert_eq!(page.init_info(1, 1, SchedulingRule::Periodic(100)), Ok(()));
    assert_eq!(page.register_dependents(5, vec![]), Err(Error::NonExistent));
    assert_eq!(page.register_dependents(1, vec![(new_id(String::from("x"), 0), 0)]), Ok(()));
    assert_eq!(page.slot_state(2), None);
    assert_eq!(page.capacity(), 2);
}

#[test]
fn default_table_has_page_size_slots() {
    let page: TaskPage<Node> = scheduler::new();
    assert_eq!(page.capacity(), 4096);
    assert_eq!(max_idx(), 4095);
    assert_eq!(position(4097), (1, 1));
    assert_eq!(position(4095), (0, 4095));
}

#[test]
fn schedule_maps_to_state() {
    assert_eq!(next_state(Schedule::Loop, 7), TaskState::Execute);
    assert_eq!(next_state(Schedule::OnMessage(1, 9), 7), TaskState::MessageWait(1, 9));
    assert_eq!(next_state(Schedule::DelayUSec(3), 7), TaskState::TimeWait(10));
    assert_eq!(next_state(Schedule::DelayUSec(u64::MAX), usize::MAX - 1), TaskState::TimeWait(usize::MAX));
    assert_eq!(next_state(Schedule::OnExternalEvent, 7), TaskState::ExtEventWait(0));
    assert_eq!(next_state(Schedule::Stop, 7), TaskState::Stop);
}

#[test]
fn ymerge_has_two_inputs_and_merges() {
    let (mut pa, mut ea) = acto_rs::channel::open_output::<u64>("a", 0, 4);
    let (mut pb, mut eb) = acto_rs::channel::open_output::<u64>("b", 0, 4);
    let (mut y, mut y_out) = ymerge::new::<u64, u64, u64, Pair>("y", 4, Pair);
    assert_eq!(y.input_count(), 2);
    assert!(y.input_id(0).is_none());
    assert_eq!(y.connect_a(&mut ea), Ok(()));
    assert_eq!(y.connect_b(&mut eb), Ok(()));
    assert_eq!(y.connect_b(&mut ea), Err(Error::Busy));
    assert_eq!(y.input_id(1).unwrap().task_name(), "b");
    assert!(y.input_id(2).is_none());
    let mut sink: IdentifiedReceiver<u64> = IdentifiedReceiver::new("sink", 0);
    connect(&mut y_out, &mut sink).unwrap();
    pa.send(Message::Value(1));
    pb.send(Message::Value(2));
    let mut log = Log::default();
    assert_eq!(y.run(&mut log, 4, 0), Schedule::Loop);
    assert_eq!(values(sink.receive()), vec![1, 2]);
    assert_eq!(log.sent, vec![(0, 2, 4)]);
    let out = y.output_id(0).unwrap();
    assert_eq!(out.task_name(), "y");
    assert!(y.output_id(1).is_none());
}

#[test]
fn source_output_counts_sends() {
    let (mut s, _out) = source::new("src", 4, Counter { next: 0, limit: 2, stop_at_end: false });
    let mut log = Log::default();
    s.run(&mut log, 0, 0);
    s.run(&mut log, 0, 1);
    s.run(&mut log, 0, 2);
    assert_eq!(s.output().seqno(), 2);
    assert_eq!(log.sent, vec![(0, 1, 0), (0, 2, 0)]);
    assert_eq!(s.name(), "src");
    assert_eq!(s.input_count(), 0);
}

#[test]
fn sender_end_reports_identity() {
    let (_p, end) = acto_rs::channel::open_output::<u64>("out", 2, 1);
    assert_eq!(end.id().task_name(), "out");
    assert_eq!(end.id().id(), 2);
    assert!(end.peer_id().is_none());
    let _unused: Option<SenderEnd<u64>> = None;
}

#[test]
fn finish_sends_error_only_on_failure() {
    let (mut port, mut end) = acto_rs::channel::open_output::<u64>("f", 0, 4);
    let mut sink: IdentifiedReceiver<u64> = IdentifiedReceiver::new("sink", 0);
    connect(&mut end, &mut sink).unwrap();
    assert_eq!(finish(&mut port, Ok(()), ErrorPolicy::Continue, 4, 2), Schedule::OnMessage(0, 4));
    assert_eq!(port.seqno(), 0);
    assert_eq!(finish(&mut port, Err("bad value"), ErrorPolicy::Continue, 4, 2), Schedule::Loop);
    assert_eq!(port.seqno(), 1);
    assert_eq!(finish(&mut port, Err("worse"), ErrorPolicy::Stop, 4, 2), Schedule::Stop);
    assert_eq!(port.seqno(), 2);
    let got = sink.receive();
    assert_eq!(got.len(), 2);
    assert!(matches!(got[0], Message::Error(2, "bad value")));
    assert!(matches!(got[1], Message::Error(2, "worse")));
}

#[test]
fn observe_keeps_the_larger() {
    assert_eq!(observe(3, 5), 5);
    assert_eq!(observe(5, 3), 5);
    assert_eq!(observe(0, 0), 0);
}

#[test]
fn store_keeps_a_stopped_slot_stopped() {
    let (src, _out) = source::new("src", 4, Counter { next: 0, limit: 1, stop_at_end: true });
    let (src2, _out2) = source::new("src2", 4, Counter { next: 0, limit: 1, stop_at_end: false });
    let mut page: TaskPage<Node> = TaskPage::with_slots(1);
    page.store(0, Node::S(src)).unwrap();
    let mut log = Log::default();
    assert_eq!(page.eval(0, &mut log), vec![Some(Schedule::Stop)]);
    page.store(0, Node::S(src2)).unwrap();
    assert_eq!(page.slot_state(0), Some(TaskState::Stop));
    assert_eq!(page.eval(1, &mut log), vec![None]);
}

#[test]
fn filter_observed_input_count_never_decreases() {
    let (mut port, mut end) = acto_rs::channel::open_output::<u64>("feed", 0, 4);
    let (mut flt, _out) = filter::new("dbl", 4, Doubler, ErrorPolicy::Continue);
    assert_eq!(flt.get_rx_count(0), 0);
    flt.connect_input(&mut end).unwrap();
    port.send(Message::Value(1));
    assert_eq!(flt.get_rx_count(0), 1);
    let mut log = Log::default();
    flt.run(&mut log, 0, 0);
    port.send(Message::Value(2));
    assert_eq!(flt.get_rx_count(0), 2);
    assert_eq!(flt.get_rx_count(1), 0);
    assert_eq!(flt.input_count(), 1);
    assert_eq!(flt.output_count(), 1);
}
