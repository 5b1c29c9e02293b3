//! The task table: a fixed row of slots, each holding at most one task and
//! its scheduling record, and the evaluation pass that runs the ready ones.
//!
//! A task is run only between a successful `acquire`, which takes it out of
//! its slot, and the matching `release`, which puts it back: while it is out,
//! nothing else can acquire that slot.
use vstd::prelude::*;

use crate::{next_state, spec_next_state, ChannelId, Error, Observer, Schedule, Task, TaskState};

verus! {

/// The number of slots of a table made by `new`.
pub const PAGE_SLOTS: usize = 4096;

/// How a slot's task was meant to be scheduled when the graph was built.
#[derive(Clone, Copy, Debug, PartialEq, Eq, Structural)]
pub enum SchedulingRule {
    Loop,
    OnMessage,
    Periodic(usize),
    OnExternalEvent,
}

/// A slot's scheduling record.
pub struct ExecInfo {
    pub state: TaskState,
    pub rule: SchedulingRule,
    pub output_count: usize,
    /// Which channel's advance concerns which other slot.
    pub dependents: Vec<(ChannelId, usize)>,
}

impl ExecInfo {
    pub fn new() -> (r: ExecInfo)
        ensures
            r.state == TaskState::Execute,
            r.rule == SchedulingRule::Loop,
            r.output_count == 0,
            r.dependents@ == Seq::<(ChannelId, usize)>::empty(),
    {
        ExecInfo {
            state: TaskState::Execute,
            rule: SchedulingRule::Loop,
            output_count: 0,
            dependents: Vec::new(),
        }
    }
}

/// The highest slot index of a table made by `new`.
pub fn max_idx() -> (r: usize)
    ensures
        r == PAGE_SLOTS - 1,
{
    PAGE_SLOTS - 1
}

/// Splits a global index into its page and its slot within the page.
pub fn position(idx: usize) -> (r: (usize, usize))
    ensures
        r.0 == idx / (PAGE_SLOTS as usize),
        r.1 == idx % (PAGE_SLOTS as usize),
{
    let hi = idx >> 12u32;
    let lo = idx & 0xfffusize;
    assert(idx >> 12u32 == idx / 4096usize) by (bit_vector);
    assert(idx & 0xfffusize == idx % 4096usize) by (bit_vector);
    (hi, lo)
}

/// Whether a slot in `state` may run at `now` as far as time and state go;
/// one waiting on a message still needs its channel to have advanced.
pub open spec fn time_due(state: TaskState, now: usize) -> bool {
    match state {
        TaskState::Execute => true,
        TaskState::TimeWait(t) => t <= now,
        TaskState::MessageWait(_, _) => true,
        TaskState::ExtEventWait(_) => false,
        TaskState::Stop => false,
    }
}

pub struct TaskPage<K> {
    l2: Vec<Option<K>>,
    info: Vec<ExecInfo>,
}

/// A table of `PAGE_SLOTS` empty slots.
pub fn new<K: Task>() -> (r: TaskPage<K>)
    ensures
        r.wf(),
        r.len() == PAGE_SLOTS,
        forall|i: int|
            0 <= i < r.len() ==> #[trigger] r.task(i) is None && r.state(i) == TaskState::Execute && r.record(i)
                == fresh_record(),
{
    TaskPage::with_slots(max_idx() + 1)
}

/// A slot `j` of `page` that was in `state` and did not run: if it waits on
/// a message, its task has observed no advance of that input past the
/// awaited sequence number.
pub open spec fn wait_unmet<K: Task>(page: TaskPage<K>, j: int, state: TaskState) -> bool {
    match state {
        TaskState::MessageWait(c, s) => (page.task(j) matches Some(t) && t.spec_observed(c) <= s),
        _ => true,
    }
}

/// The record of a slot that was never set up: loop rule, no outputs, no
/// dependents.
pub open spec fn fresh_record() -> (SchedulingRule, usize, Seq<(ChannelId, usize)>) {
    (SchedulingRule::Loop, 0, Seq::empty())
}

/// Stopped slots stay stopped, with the same task, from `a` to `b`.
pub open spec fn keeps_stopped<K: Task>(a: TaskPage<K>, b: TaskPage<K>) -> bool {
    &&& a.len() == b.len()
    &&& forall|i: int|
        0 <= i < a.len() && #[trigger] a.state(i) == TaskState::Stop ==> b.state(i) == TaskState::Stop
            && b.task(i) == a.task(i)
}

/// Slots whose task is out (acquired) in `a` are still vacant in `b`.
pub open spec fn keeps_held<K: Task>(a: TaskPage<K>, b: TaskPage<K>) -> bool {
    &&& a.len() == b.len()
    &&& forall|i: int| 0 <= i < a.len() && #[trigger] a.task(i) is None ==> b.task(i) is None
}

/// `b` is `a` with slot `i` alone possibly changed.
pub open spec fn same_except<K: Task>(a: TaskPage<K>, b: TaskPage<K>, i: int) -> bool {
    &&& a.len() == b.len()
    &&& forall|j: int|
        0 <= j < a.len() && j != i ==> #[trigger] b.task(j) == a.task(j) && b.state(j) == a.state(j)
            && b.record(j) == a.record(j)
}

impl<K: Task> TaskPage<K> {
    pub closed spec fn wf(&self) -> bool {
        self.l2@.len() == self.info@.len()
    }

    pub closed spec fn len(&self) -> int {
        self.l2@.len() as int
    }

    /// The task in slot `i`; `None` when the slot is empty or its task is out.
    pub closed spec fn task(&self, i: int) -> Option<K> {
        self.l2@[i]
    }

    pub closed spec fn state(&self, i: int) -> TaskState {
        self.info@[i].state
    }

    /// Slot `i`'s rule, output count and dependents.
    pub closed spec fn record(&self, i: int) -> (SchedulingRule, usize, Seq<(ChannelId, usize)>) {
        (self.info@[i].rule, self.info@[i].output_count, self.info@[i].dependents@)
    }

    /// Whether `acquire(i)` hands out a task.
    pub open spec fn can_acquire(&self, i: int) -> bool {
        0 <= i < self.len() && self.task(i) is Some && self.state(i) != TaskState::Stop
    }

    /// A table of `n` empty slots.
    pub fn with_slots(n: usize) -> (r: TaskPage<K>)
        ensures
            r.wf(),
            r.len() == n,
            forall|i: int|
                0 <= i < n ==> #[trigger] r.task(i) is None && r.state(i) == TaskState::Execute && r.record(i)
                    == fresh_record(),
    {
        let mut l2: Vec<Option<K>> = Vec::with_capacity(n);
        let mut info: Vec<ExecInfo> = Vec::with_capacity(n);
        let mut i: usize = 0;
        while i < n
            invariant
                i <= n,
                l2@.len() == i,
                info@.len() == i,
                forall|j: int|
                    0 <= j < i ==> #[trigger] l2@[j] is None && info@[j].state == TaskState::Execute
                        && info@[j].rule == SchedulingRule::Loop && info@[j].output_count == 0
                        && info@[j].dependents@ == Seq::<(ChannelId, usize)>::empty(),
            decreases n - i,
        {
            l2.push(None);
            info.push(ExecInfo::new());
            i = i + 1;
        }
        TaskPage { l2: l2, info: info }
    }

    pub fn capacity(&self) -> (r: usize)
        requires
            self.wf(),
        ensures
            r == self.len(),
    {
        self.l2.len()
    }

    /// The state of slot `idx`, if it exists.
    pub fn slot_state(&self, idx: usize) -> (r: Option<TaskState>)
        requires
            self.wf(),
        ensures
            idx >= self.len() ==> r is None,
            idx < self.len() ==> r == Some(self.state(idx as int)),
    {
        if idx >= self.l2.len() {
            None
        } else {
            Some(self.info[idx].state)
        }
    }

    /// Whether slot `idx` holds a task now.
    pub fn is_occupied(&self, idx: usize) -> (r: bool)
        requires
            self.wf(),
        ensures
            r == (idx < self.len() && self.task(idx as int) is Some),
    {
        idx < self.l2.len() && self.l2[idx].is_some()
    }

    fn set_state(&mut self, idx: usize, st: TaskState)
        requires
            old(self).wf(),
            idx < old(self).len(),
        ensures
            final(self).wf(),
            same_except(*old(self), *final(self), idx as int),
            final(self).task(idx as int) == old(self).task(idx as int),
            final(self).record(idx as int) == old(self).record(idx as int),
            final(self).state(idx as int) == st,
    {
        let ghost prev = *self;
        self.info[idx].state = st;
        proof {
            lemma_other_slots_kept(prev, *self, idx as int);
        }
    }

    /// Installs `task` in slot `idx`; a task already there is dropped. The
    /// slot's scheduling record, its state included, is left as it is, so a
    /// stopped slot stays stopped. `NonExistent` when there is no such slot.
    pub fn store(&mut self, idx: usize, task: K) -> (r: Result<(), Error>)
        requires
            old(self).wf(),
        ensures
            final(self).wf(),
            idx >= old(self).len() ==> r == Err::<(), Error>(Error::NonExistent) && *final(self) == *old(self),
            idx < old(self).len() ==> {
                &&& r is Ok
                &&& same_except(*old(self), *final(self), idx as int)
                &&& final(self).task(idx as int) == Some(task)
                &&& final(self).state(idx as int) == old(self).state(idx as int)
                &&& final(self).record(idx as int) == old(self).record(idx as int)
            },
    {
        if idx >= self.l2.len() {
            return Err(Error::NonExistent);
        }
        let ghost prev = *self;
        self.l2.set(idx, Some(task));
        proof {
            lemma_other_slots_kept(prev, *self, idx as int);
        }
        Ok(())
    }

    /// Sets slot `idx`'s output count and scheduling rule.
    pub fn init_info(&mut self, idx: usize, output_count: usize, rule: SchedulingRule) -> (r: Result<(), Error>)
        requires
            old(self).wf(),
        ensures
            final(self).wf(),
            idx >= old(self).len() ==> r == Err::<(), Error>(Error::NonExistent) && *final(self) == *old(self),
            idx < old(self).len() ==> {
                &&& r is Ok
                &&& same_except(*old(self), *final(self), idx as int)
                &&& final(self).task(idx as int) == old(self).task(idx as int)
                &&& final(self).state(idx as int) == old(self).state(idx as int)
                &&& final(self).record(idx as int) == (rule, output_count, old(self).record(idx as int).2)
            },
    {
        if idx >= self.info.len() {
            return Err(Error::NonExistent);
        }
        let ghost prev = *self;
        self.info[idx].output_count = output_count;
        self.info[idx].rule = rule;
        proof {
            lemma_other_slots_kept(prev, *self, idx as int);
        }
        Ok(())
    }

    /// Records which slots depend on which of slot `idx`'s channels, after
    /// those already recorded.
    pub fn register_dependents(&mut self, idx: usize, deps: Vec<(ChannelId, usize)>) -> (r: Result<(), Error>)
        requires
            old(self).wf(),
        ensures
            final(self).wf(),
            idx >= old(self).len() ==> r == Err::<(), Error>(Error::NonExistent) && *final(self) == *old(self),
            idx < old(self).len() ==> {
                &&& r is Ok
                &&& same_except(*old(self), *final(self), idx as int)
                &&& final(self).task(idx as int) == old(self).task(idx as int)
                &&& final(self).state(idx as int) == old(self).state(idx as int)
                &&& final(self).record(idx as int).0 == old(self).record(idx as int).0
                &&& final(self).record(idx as int).1 == old(self).record(idx as int).1
                &&& final(self).record(idx as int).2 == old(self).record(idx as int).2 + deps@
            },
    {
        if idx >= self.info.len() {
            return Err(Error::NonExistent);
        }
        let ghost prev = *self;
        let mut deps = deps;
        self.info[idx].dependents.append(&mut deps);
        proof {
            lemma_other_slots_kept(prev, *self, idx as int);
        }
        Ok(())
    }

    /// Wakes slot `idx` if it waits for an outside event.
    pub fn notify(&mut self, idx: usize)
        requires
            old(self).wf(),
        ensures
            final(self).wf(),
            idx >= old(self).len() ==> *final(self) == *old(self),
            idx < old(self).len() ==> {
                &&& same_except(*old(self), *final(self), idx as int)
                &&& final(self).task(idx as int) == old(self).task(idx as int)
                &&& final(self).record(idx as int) == old(self).record(idx as int)
                &&& final(self).state(idx as int) == if old(self).state(idx as int) is ExtEventWait {
                    TaskState::Execute
                } else {
                    old(self).state(idx as int)
                }
            },
            keeps_stopped(*old(self), *final(self)),
            keeps_held(*old(self), *final(self)),
    {
        if idx >= self.info.len() {
            return;
        }
        match self.info[idx].state {
            TaskState::ExtEventWait(_) => self.set_state(idx, TaskState::Execute),
            _ => {},
        }
    }

    /// Takes the task out of slot `idx` for exclusive use. `None` when the
    /// slot does not exist, is empty, its task is already out, or it stopped.
    pub fn acquire(&mut self, idx: usize) -> (r: Option<K>)
        requires
            old(self).wf(),
        ensures
            final(self).wf(),
            r is Some <==> old(self).can_acquire(idx as int),
            r is None ==> *final(self) == *old(self),
            r is Some ==> {
                &&& r == old(self).task(idx as int)
                &&& same_except(*old(self), *final(self), idx as int)
                &&& final(self).task(idx as int) is None
                &&& final(self).state(idx as int) == old(self).state(idx as int)
                &&& final(self).record(idx as int) == old(self).record(idx as int)
            },
            keeps_stopped(*old(self), *final(self)),
            keeps_held(*old(self), *final(self)),
    {
        if idx >= self.l2.len() {
            return None;
        }
        match self.info[idx].state {
            TaskState::Stop => { return None; },
            _ => {},
        }
        if self.l2[idx].is_none() {
            return None;
        }
        let ghost prev = *self;
        let r = self.l2[idx].take();
        proof {
            lemma_other_slots_kept(prev, *self, idx as int);
        }
        r
    }

    /// Puts an acquired task back into its vacant slot `idx`.
    pub fn release(&mut self, idx: usize, task: K)
        requires
            old(self).wf(),
            idx < old(self).len(),
            old(self).task(idx as int) is None,
            old(self).state(idx as int) != TaskState::Stop,
        ensures
            final(self).wf(),
            same_except(*old(self), *final(self), idx as int),
            final(self).task(idx as int) == Some(task),
            final(self).state(idx as int) == old(self).state(idx as int),
            final(self).record(idx as int) == old(self).record(idx as int),
            keeps_stopped(*old(self), *final(self)),
    {
        let ghost prev = *self;
        self.l2.set(idx, Some(task));
        proof {
            lemma_other_slots_kept(prev, *self, idx as int);
        }
    }

    /// Considers slot `idx` at time `now`: if its state lets it run, its
    /// task is acquired; a task waiting on a message runs only once that
    /// input has advanced past the awaited sequence number. A task that runs
    /// gets the slot's index as its id; its directive gives the slot's next
    /// state, and the task is released. Returns the directive, or `None` when
    /// nothing ran.
    pub fn eval_slot<O: Observer>(&mut self, idx: usize, now: usize, observer: &mut O) -> (r: Option<
        Schedule,
    >)
        requires
            old(self).wf(),
        ensures
            final(self).wf(),
            same_except(*old(self), *final(self), idx as int),
            keeps_stopped(*old(self), *final(self)),
            keeps_held(*old(self), *final(self)),
            idx < old(self).len() ==> final(self).record(idx as int) == old(self).record(idx as int),
            idx < old(self).len() ==> (final(self).task(idx as int) is Some <==> old(self).task(
                idx as int,
            ) is Some),
            r is None && idx < old(self).len() ==> final(self).state(idx as int) == old(self).state(idx as int),
            r is None && old(self).can_acquire(idx as int) ==> wait_unmet(
                *final(self),
                idx as int,
                old(self).state(idx as int),
            ),
            !(idx < old(self).len() && old(self).can_acquire(idx as int) && time_due(
                old(self).state(idx as int),
                now,
            )) ==> r is None && final(self).task(idx as int) == old(self).task(idx as int),
            r matches Some(s) ==> {
                &&& idx < old(self).len()
                &&& old(self).can_acquire(idx as int)
                &&& time_due(old(self).state(idx as int), now)
                &&& final(self).state(idx as int) == spec_next_state(s, now)
            },
            idx < old(self).len() && old(self).can_acquire(idx as int) && (old(self).state(idx as int)
                is Execute || old(self).state(idx as int) is TimeWait) && time_due(
                old(self).state(idx as int),
                now,
            ) ==> r is Some,
    {
        if idx >= self.l2.len() {
            return None;
        }
        let st = self.info[idx].state;
        let due = match st {
            TaskState::Execute => true,
            TaskState::TimeWait(t) => t <= now,
            TaskState::MessageWait(_, _) => true,
            TaskState::ExtEventWait(_) => false,
            TaskState::Stop => false,
        };
        if !due {
            return None;
        }
        let taken = self.acquire(idx);
        match taken {
            None => None,
            Some(mut task) => {
                match st {
                    TaskState::MessageWait(ch, seen) => {
                        let at = task.input_position(ch);
                        if at <= seen {
                            self.release(idx, task);
                            return None;
                        }
                    },
                    _ => {},
                }
                observer.scheduled(idx, now);
                let event = task.execute(observer, idx, now);
                let to = next_state(event, now);
                observer.executed(idx, now);
                observer.transition(&st, &event, &to, idx, now);
                match to {
                    TaskState::Stop => observer.stopped(idx, now),
                    TaskState::Execute => {},
                    _ => observer.delayed(idx, &to, now),
                }
                self.release(idx, task);
                self.set_state(idx, to);
                Some(event)
            },
        }
    }

    /// One evaluation pass at time `now`: considers every slot once, in
    /// order. Returns, for each slot, the directive its task returned when it
    /// ran, or `None` when it did not run.
    pub fn eval<O: Observer>(&mut self, now: usize, observer: &mut O) -> (r: Vec<Option<Schedule>>)
        requires
            old(self).wf(),
        ensures
            final(self).wf(),
            r@.len() == old(self).len(),
            keeps_stopped(*old(self), *final(self)),
            keeps_held(*old(self), *final(self)),
            forall|j: int|
                0 <= j < old(self).len() ==> (#[trigger] final(self).task(j) is Some <==> old(self).task(j) is Some)
                    && final(self).record(j) == old(self).record(j),
            forall|j: int|
                0 <= j < old(self).len() && !(old(self).can_acquire(j) && time_due(old(self).state(j), now))
                    ==> #[trigger] final(self).state(j) == old(self).state(j) && final(self).task(j)
                    == old(self).task(j) && r@[j] is None,
            forall|j: int|
                0 <= j < old(self).len() && old(self).can_acquire(j) && (old(self).state(j) is Execute
                    || old(self).state(j) is TimeWait) && time_due(old(self).state(j), now)
                    ==> (#[trigger] r@[j]) is Some,
            forall|j: int|
                0 <= j < old(self).len() ==> match #[trigger] r@[j] {
                    Some(s) => final(self).state(j) == spec_next_state(s, now),
                    None => final(self).state(j) == old(self).state(j),
                },
            forall|j: int|
                0 <= j < old(self).len() && old(self).can_acquire(j) && (#[trigger] r@[j]) is None ==> wait_unmet(
                    *final(self),
                    j,
                    old(self).state(j),
                ),
    {
        let ghost start = *self;
        let n = self.l2.len();
        let mut ran: Vec<Option<Schedule>> = Vec::with_capacity(n);
        let mut i: usize = 0;
        while i < n
            invariant
                self.wf(),
                n == start.len(),
                i <= n,
                ran@.len() == i,
                keeps_stopped(start, *self),
                keeps_held(start, *self),
                forall|j: int|
                    0 <= j < n ==> (#[trigger] self.task(j) is Some <==> start.task(j) is Some)
                        && self.record(j) == start.record(j),
                forall|j: int|
                    i <= j < n ==> #[trigger] self.task(j) == start.task(j) && self.state(j) == start.state(j),
                forall|j: int|
                    0 <= j < n && !(start.can_acquire(j) && time_due(start.state(j), now))
                        ==> #[trigger] self.state(j) == start.state(j) && self.task(j) == start.task(j),
                forall|j: int|
                    0 <= j < i && !(start.can_acquire(j) && time_due(start.state(j), now))
                        ==> (#[trigger] ran@[j]) is None,
                forall|j: int|
                    0 <= j < i && start.can_acquire(j) && (start.state(j) is Execute || start.state(j) is TimeWait)
                        && time_due(start.state(j), now) ==> (#[trigger] ran@[j]) is Some,
                forall|j: int|
                    0 <= j < i ==> match #[trigger] ran@[j] {
                        Some(s) => self.state(j) == spec_next_state(s, now),
                        None => self.state(j) == start.state(j),
                    },
                forall|j: int|
                    0 <= j < i && start.can_acquire(j) && (#[trigger] ran@[j]) is None ==> wait_unmet(
                        *self,
                        j,
                        start.state(j),
                    ),
            decreases n - i,
        {
            let out = self.eval_slot(i, now, observer);
            ran.push(out);
            i = i + 1;
        }
        ran
    }
}

/// After an update of slot `i` alone, every other slot reads as before.
proof fn lemma_other_slots_kept<K: Task>(a: TaskPage<K>, b: TaskPage<K>, i: int)
    requires
        a.wf(),
        a.l2@.len() == b.l2@.len(),
        a.info@.len() == b.info@.len(),
        forall|j: int| 0 <= j < a.l2@.len() && j != i ==> b.l2@[j] == a.l2@[j],
        forall|j: int| 0 <= j < a.info@.len() && j != i ==> b.info@[j] == a.info@[j],
    ensures
        forall|j: int|
            0 <= j < a.len() && j != i ==> #[trigger] b.task(j) == a.task(j) && b.state(j) == a.state(j)
                && b.record(j) == a.record(j),
{
    assert forall|j: int| 0 <= j < a.len() && j != i implies #[trigger] b.task(j) == a.task(j) && b.state(j)
        == a.state(j) && b.record(j) == a.record(j) by {
        assert(b.l2@[j] == a.l2@[j]);
        assert(b.info@[j] == a.info@[j]);
    }
}

/// Mutual exclusion: once slot `i`'s task is out, no run of acquisitions and
/// evaluation passes (each of which keeps vacant slots vacant) makes slot `i`
/// acquirable again; only `release` ends the acquisition.
pub proof fn lemma_mutual_exclusion<K: Task>(pages: Seq<TaskPage<K>>, i: int)
    requires
        pages.len() > 0,
        0 <= i < pages[0].len(),
        pages[0].task(i) is None,
        forall|k: int| 0 <= k < pages.len() - 1 ==> keeps_held(#[trigger] pages[k], pages[k + 1]),
    ensures
        forall|k: int| 0 <= k < pages.len() ==> !(#[trigger] pages[k]).can_acquire(i),
{
    assert forall|k: int| 0 <= k < pages.len() implies !(#[trigger] pages[k]).can_acquire(i) by {
        lemma_held_stays_vacant(pages, i, k);
    }
}

proof fn lemma_held_stays_vacant<K: Task>(pages: Seq<TaskPage<K>>, i: int, k: int)
    requires
        0 <= k < pages.len(),
        0 <= i < pages[0].len(),
        pages[0].task(i) is None,
        forall|m: int| 0 <= m < pages.len() - 1 ==> keeps_held(#[trigger] pages[m], pages[m + 1]),
    ensures
        pages[k].task(i) is None,
        pages[k].len() == pages[0].len(),
    decreases k,
{
    if k > 0 {
        lemma_held_stays_vacant(pages, i, k - 1);
        assert(keeps_held(pages[k - 1], pages[k]));
    }
}

/// Terminal state: once slot `i` is stopped, every later table along a run of
/// steps that keep stopped slots stopped (evaluation passes, single-slot
/// evaluations, acquisitions, releases, wake-ups) still has it stopped, with
/// the very same task: it is never acquired or executed again.
pub proof fn lemma_stop_is_terminal<K: Task>(pages: Seq<TaskPage<K>>, i: int)
    requires
        pages.len() > 0,
        0 <= i < pages[0].len(),
        pages[0].state(i) == TaskState::Stop,
        forall|k: int| 0 <= k < pages.len() - 1 ==> keeps_stopped(#[trigger] pages[k], pages[k + 1]),
    ensures
        forall|k: int|
            0 <= k < pages.len() ==> (#[trigger] pages[k]).state(i) == TaskState::Stop && pages[k].task(i)
                == pages[0].task(i) && !pages[k].can_acquire(i),
{
    assert forall|k: int| 0 <= k < pages.len() implies (#[trigger] pages[k]).state(i) == TaskState::Stop
        && pages[k].task(i) == pages[0].task(i) && !pages[k].can_acquire(i) by {
        lemma_stopped_at(pages, i, k);
    }
}

proof fn lemma_stopped_at<K: Task>(pages: Seq<TaskPage<K>>, i: int, k: int)
    requires
        0 <= k < pages.len(),
        0 <= i < pages[0].len(),
        pages[0].state(i) == TaskState::Stop,
        forall|m: int| 0 <= m < pages.len() - 1 ==> keeps_stopped(#[trigger] pages[m], pages[m + 1]),
    ensures
        pages[k].state(i) == TaskState::Stop,
        pages[k].task(i) == pages[0].task(i),
        pages[k].len() == pages[0].len(),
    decreases k,
{
    if k > 0 {
        lemma_stopped_at(pages, i, k - 1);
        assert(keeps_stopped(pages[k - 1], pages[k]));
    }
}

} // verus!
