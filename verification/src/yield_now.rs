//! The plain cooperative yield.

use crate::api::co_suspend;
use crate::bridge::in_coroutine;
use crate::cancel::trigger_cancel_panic;
use crate::proto::Request;
use crate::proto::Response;
use crate::sched::Scheduler;
use crate::sched::Status;
use vstd::prelude::*;

verus! {

/// The event source of a plain yield: it asks nothing of the kernel, so
/// subscribing the yielded coroutine simply puts it back on the ready queue.
pub struct Yield {}

impl Yield {
    /// Re-queue the coroutine that yielded: it stays ready and runs again
    /// when its turn comes.
    pub fn subscribe(&self, sched: &mut Scheduler, co: usize)
        requires
            old(sched).wf(),
            co < old(sched).cos@.len(),
            old(sched).cos@[co as int].status == Status::Running,
        ensures
            final(sched).wf(),
            final(sched).cos@ == old(sched).cos@.update(
                co as int,
                (crate::sched::CoState { status: Status::Ready, ..old(sched).cos@[co as int] }),
            ),
            final(sched).ready@ == old(sched).ready@.push(co),
            final(sched).outcomes@ == old(sched).outcomes@,
            final(sched).timers@ == old(sched).timers@,
    {
        sched.requeue(co);
    }
}

/// Give up the rest of the timeslice: the coroutine goes to the back of the
/// ready queue and every other ready coroutine runs before it continues.
/// Outside a coroutine this is a no-op. A yield is a suspension point: a
/// pending enabled cancel unwinds the coroutine here.
pub fn yield_now() {
    if !in_coroutine() {
        return ;
    }
    match co_suspend(Request::Yield) {
        Response::Cancel => trigger_cancel_panic(),
        _ => {}
    }
}

} // verus!
