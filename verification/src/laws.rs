//! The laws of the scheduling core, stated and proved over the transition
//! relations of [`crate::sched`].

use crate::proto::Outcome;
use crate::sched::cancel_post;
use crate::sched::fire_one_shape;
use crate::sched::deliver_of;
use crate::sched::finish_post;
use crate::sched::park_decision_of;
use crate::sched::spec_suspended;
use crate::sched::take_join_post;
use crate::sched::unpark_post;
use crate::sched::Deliver;
use crate::sched::ParkDecision;
use crate::sched::Scheduler;
use crate::sched::Status;
use vstd::prelude::*;

verus! {

/// No lost wakeup: an unpark that strictly precedes a park leaves a token,
/// so that park returns at once instead of suspending. `s0` is the state in
/// which the running coroutine `c` is unparked; in the resulting state `s1`
/// its park request is answered immediately — provided no cancel fires, which
/// takes precedence over any park.
pub proof fn lemma_no_lost_wakeup(s0: Scheduler, s1: Scheduler, c: int)
    requires
        s0.wf(),
        0 <= c < s0.cos@.len(),
        s0.cos@[c].status == Status::Running,
        !s0.cos@[c].cancel.spec_fires(),
        unpark_post(s0, s1, c),
    ensures
        s1.cos@[c].token,
        park_decision_of(s1.cos@[c]) == ParkDecision::Immediate,
{
}

/// Unparks are coalesced, never counted: a second unpark of a coroutine
/// that is not parked changes nothing beyond the first — one token is kept,
/// and exactly the next park returns at once.
pub proof fn lemma_unpark_coalesced(s0: Scheduler, s1: Scheduler, s2: Scheduler, c: int)
    requires
        s0.wf(),
        0 <= c < s0.cos@.len(),
        s0.cos@[c].status != Status::Parked,
        unpark_post(s0, s1, c),
        unpark_post(s1, s2, c),
    ensures
        s2.cos@ == s1.cos@,
        s2.ready@ == s1.ready@,
        s2.timers@ == s1.timers@,
        s2.outcomes@ == s1.outcomes@,
{
    assert(s1.cos@[c].status != Status::Parked);
    assert(s2.cos@ =~= s1.cos@);
}

/// Cancellation is idempotent: a second cancel of the same coroutine changes
/// nothing — the request stays latched, and the target is not scheduled a
/// second time.
pub proof fn lemma_cancel_idempotent(s0: Scheduler, s1: Scheduler, s2: Scheduler, c: int)
    requires
        s0.wf(),
        0 <= c < s0.cos@.len(),
        cancel_post(s0, s1, c),
        cancel_post(s1, s2, c),
    ensures
        s2.cos@ == s1.cos@,
        s2.ready@ == s1.ready@,
        s2.timers@ == s1.timers@,
        s2.outcomes@ == s1.outcomes@,
{
    assert(!spec_suspended(s1.cos@[c].status));
    assert(s1.cos@[c].cancel.spec_requested());
    assert(s2.cos@ =~= s1.cos@);
}

/// A cancel aimed at a suspended coroutine (parked, sleeping or waiting on a
/// join) with cancellation enabled wakes it at once and is what the
/// scheduler then delivers: the coroutine unwinds at its suspension point
/// rather than resuming normally. With the driver resuming every ready
/// coroutine, the join of a cancelled coroutine thus resolves in bounded
/// time once the coroutine suspended.
pub proof fn lemma_cancel_wakes_and_delivers(s0: Scheduler, s1: Scheduler, c: int)
    requires
        s0.wf(),
        0 <= c < s0.cos@.len(),
        spec_suspended(s0.cos@[c].status),
        !s0.cos@[c].cancel.spec_disabled(),
        s0.cos@[c].started,
        cancel_post(s0, s1, c),
    ensures
        s1.ready@ == s0.ready@.push(c as usize),
        s1.cos@[c].status == Status::Ready,
        deliver_of(s1.cos@[c]) == Deliver::Cancel,
{
}

/// What a coroutine's termination records is what its join slot holds: after
/// `finish(c, o)` the slot of `c` holds exactly `o` — a normal return's
/// value, a panic's payload, or the cancel mark — and a coroutine waiting to
/// join `c` is scheduled, still directed at `c`.
pub proof fn lemma_finish_records_outcome(s0: Scheduler, s1: Scheduler, c: int, o: Outcome)
    requires
        s0.wf(),
        0 <= c < s0.cos@.len(),
        s0.cos@[c].status == Status::Running,
        finish_post(s0, s1, c, o),
    ensures
        s1.outcomes@[c] == Some(o),
        s1.cos@[c].status == Status::Finished,
        s0.cos@[c].waiter matches Some(w) && w < s0.cos@.len() && s0.cos@[w as int].status
            == Status::JoinWait && s0.cos@[w as int].waiting_on == Some(c as usize) ==> {
            &&& s1.ready@ == s0.ready@.push(s0.cos@[c].waiter->Some_0)
            &&& s1.cos@[s0.cos@[c].waiter->Some_0 as int].waiting_on == Some(c as usize)
        },
{
}

/// A join hands out the recorded outcome unchanged and exactly once: a woken
/// waiter whose target's slot holds `o` receives `o`, the slot is emptied
/// and the target reaped. Together with `lemma_finish_records_outcome` this
/// gives the delivery half of "a coroutine that terminates normally with `v`
/// joins as `Ok(v)`, one that panics with `p` joins as that payload".
pub proof fn lemma_join_delivers_outcome(
    s0: Scheduler,
    s1: Scheduler,
    w: usize,
    t: usize,
    o: Outcome,
    r: Option<Outcome>,
)
    requires
        s0.wf(),
        w < s0.cos@.len(),
        t < s0.cos@.len(),
        t != w,
        s0.cos@[w as int].waiting_on == Some(t),
        s0.outcomes@[t as int] == Some(o),
        take_join_post(s0, s1, w as int, r),
    ensures
        r == Some(o),
        s1.outcomes@[t as int] is None,
        s1.cos@[t as int].status == Status::Reaped,
{
}

/// A wakeup by unpark is never mistaken for a timeout: a parked coroutine
/// woken by an unpark is delivered a normal resumption, while one woken by
/// its timer is delivered the timeout indication — the two wakeups stay
/// distinguishable at the coroutine's park.
pub proof fn lemma_wakeup_kinds_distinguished(s0: Scheduler, s1: Scheduler, c: int)
    requires
        s0.wf(),
        0 <= c < s0.cos@.len(),
        s0.cos@[c].status == Status::Parked,
        s0.cos@[c].started,
        !s0.cos@[c].cancel.spec_requested(),
        s0.cos@[c].waiting_on is None,
        unpark_post(s0, s1, c),
    ensures
        deliver_of(s1.cos@[c]) == Deliver::Normal,
{
}

/// A timed wakeup is delivered only at or after its deadline: a firing that
/// marks a coroutine timed-woken removes a timer whose deadline the clock
/// has reached, and marks exactly the coroutine that timer named. A timed
/// park or a sleep is therefore never cut short by its own timer.
pub proof fn lemma_timed_wake_is_due(s0: Scheduler, s1: Scheduler, now: u64, i: int, c: int)
    requires
        s0.wf(),
        fire_one_shape(s0, s1, now, i),
        0 <= c < s0.cos@.len(),
        s1.cos@[c].timed_wake,
        !s0.cos@[c].timed_wake,
    ensures
        s0.timers@[i].deadline <= now,
        c == s0.timers@[i].id,
        s1.cos@[c].status == Status::Ready,
        s1.cos@[c].started && !s1.cos@[c].cancel.spec_fires() && s1.cos@[c].waiting_on is None
            ==> deliver_of(s1.cos@[c]) == Deliver::TimedOut,
{
}

} // verus!
