//! Element wrappers: they adapt processing logic of each arity into a task,
//! and share the progress bookkeeping around each execution.
use vstd::prelude::*;

use crate::{Observer, Schedule};

pub mod filter;
pub mod gather;
pub mod ymerge;

verus! {

/// The "message sent" report that an execution owes: the new sequence number
/// of output 0 when it moved.
pub open spec fn sent_report(before: usize, after: usize) -> Option<usize> {
    if before != after {
        Some(after)
    } else {
        None
    }
}

/// The "waiting on channel" report that a returned directive owes.
pub open spec fn wait_report(event: Schedule) -> Option<(usize, usize)> {
    match event {
        Schedule::OnMessage(c, s) => Some((c, s)),
        _ => None,
    }
}

/// Reports to the observer what one execution did: the output's advance,
/// when its sequence number moved from `before` to `after`, and the channel
/// waited on, when the task asked to wait for one. Returns what was reported.
pub fn report_execution<O: Observer>(
    observer: &mut O,
    before: usize,
    after: usize,
    event: Schedule,
    task_id: usize,
    now: usize,
) -> (r: (Option<usize>, Option<(usize, usize)>))
    ensures
        r == (sent_report(before, after), wait_report(event)),
{
    let sent = if before != after {
        observer.message_sent(0, after, task_id, now);
        Some(after)
    } else {
        None
    };
    let wait = match event {
        Schedule::OnMessage(c, s) => {
            observer.wait_channel(c, s, task_id, now);
            Some((c, s))
        },
        _ => None,
    };
    (sent, wait)
}

} // verus!
