//! The verified scheduling core.
//!
//! One [`Scheduler`] value models everything the runtime decides over plain
//! values: the state of each coroutine, the ready queue, the timer list and
//! the join slots. The driver (`runtime`) resumes coroutine stacks through
//! the trusted bridge and consults this core for every decision, so the
//! scheduling rules — park coalescing, cancel idempotence and delivery,
//! timer wakeups, join delivery — are stated and proved here.

use crate::cancel::Cancel;
use crate::cancel::CancelIoImpl;
use crate::cancel::CancelImpl;
use crate::proto::Outcome;
use vstd::prelude::*;

verus! {

/// Where a coroutine stands. A coroutine is in exactly one state.
#[derive(Clone, Copy, PartialEq, Eq, Structural, Debug)]
pub enum Status {
    /// Queued to run (also before its first run).
    Ready,
    /// On the worker, between a resume and the next suspension.
    Running,
    /// Suspended in its park slot; an unpark, a timer or a cancel wakes it.
    Parked,
    /// Suspended on a slot no unpark can reach; only its timer or a cancel
    /// wakes it.
    Sleeping,
    /// Suspended until the coroutine it joins finishes.
    JoinWait,
    /// Terminated; its outcome waits in the join slot.
    Finished,
    /// Terminated and joined; nothing of it remains.
    Reaped,
}

/// The scheduling state of one coroutine.
#[derive(Clone, Copy)]
pub struct CoState {
    pub status: Status,
    /// The cancel controller word and side slots.
    pub cancel: Cancel,
    /// A pending unpark token: an unpark arrived while the coroutine was not
    /// parked, and the next park returns at once.
    pub token: bool,
    /// Bumped on every wakeup, so that a timer registered for an earlier
    /// suspension fires as a harmless no-op.
    pub epoch: u64,
    /// The pending wakeup was a timer firing, not an unpark.
    pub timed_wake: bool,
    /// The coroutine ran at least once, so it stands at a suspension point
    /// and can observe cancellation when resumed.
    pub started: bool,
    /// The coroutine this one waits to join.
    pub waiting_on: Option<usize>,
    /// The coroutine waiting to join this one.
    pub waiter: Option<usize>,
}

/// One registered timeout: at `deadline` (milliseconds on the driver's
/// clock), wake coroutine `id` — unless it was woken since registration,
/// which the epoch records.
#[derive(Clone, Copy, PartialEq, Eq, Structural, Debug)]
pub struct Timer {
    pub deadline: u64,
    pub id: usize,
    pub epoch: u64,
}

/// What the driver must hand a coroutine it resumes.
#[derive(Clone, Copy, PartialEq, Eq, Structural, Debug)]
pub enum Deliver {
    /// First run: start the body.
    Start,
    /// A plain wakeup or the end of a yield.
    Normal,
    /// The suspension's timer fired.
    TimedOut,
    /// The coroutine waited on a join that completed: deliver the outcome.
    JoinDone,
    /// Cancellation fires: the coroutine must unwind.
    Cancel,
}

/// The answer to a park request.
#[derive(Clone, Copy, PartialEq, Eq, Structural, Debug)]
pub enum ParkDecision {
    /// A token was pending: the park returns at once.
    Immediate,
    /// The coroutine is parked; resume it only on a wakeup.
    Suspend,
    /// Cancellation fires instead: the coroutine must unwind.
    Cancel,
}

/// The answer to a join request from a running coroutine.
pub enum JoinDecision {
    /// The target already finished: here is its outcome.
    Done(Outcome),
    /// The target still runs; the requester now waits for it.
    Wait,
    /// The target does not exist or was already joined.
    Invalid,
    /// Cancellation fires instead: the requester must unwind.
    Cancel,
}

/// The scheduling state machine.
pub struct Scheduler {
    /// Per-coroutine state, indexed by coroutine identifier.
    pub cos: Vec<CoState>,
    /// Per-coroutine join slot, indexed alike.
    pub outcomes: Vec<Option<Outcome>>,
    /// Identifiers of ready coroutines, in run order.
    pub ready: Vec<usize>,
    /// Registered timeouts.
    pub timers: Vec<Timer>,
}

/// The state of a coroutine the moment it is spawned.
pub open spec fn spawned_co(pre_cancel: bool, pre_token: bool) -> CoState {
    CoState {
        status: Status::Ready,
        cancel: (CancelImpl { state: if pre_cancel { 1 } else { 0 }, io: CancelIoImpl, co: None }),
        token: pre_token,
        epoch: 0,
        timed_wake: false,
        started: false,
        waiting_on: None,
        waiter: None,
    }
}

/// An epoch bump; wraps, since only inequality with stale timers matters.
pub open spec fn spec_epoch_bump(e: u64) -> u64 {
    if e == u64::MAX {
        0
    } else {
        (e + 1) as u64
    }
}

/// The coroutine is suspended somewhere a wakeup can reach.
pub open spec fn spec_suspended(s: Status) -> bool {
    s == Status::Parked || s == Status::Sleeping || s == Status::JoinWait
}

/// The state of a suspended coroutine after a wakeup: ready, one epoch
/// further, park side slot cleared, with the kind of wakeup recorded.
pub open spec fn woken_co(co: CoState, timed: bool) -> CoState {
    CoState {
        status: Status::Ready,
        epoch: spec_epoch_bump(co.epoch),
        timed_wake: timed,
        cancel: (CancelImpl { co: None, ..co.cancel }),
        ..co
    }
}

/// What the driver must deliver when it resumes this coroutine.
pub open spec fn deliver_of(co: CoState) -> Deliver {
    if !co.started {
        Deliver::Start
    } else if co.cancel.spec_fires() {
        Deliver::Cancel
    } else if co.waiting_on is Some {
        Deliver::JoinDone
    } else if co.timed_wake {
        Deliver::TimedOut
    } else {
        Deliver::Normal
    }
}

/// Deadline arithmetic, saturated at the top of the clock.
pub open spec fn spec_deadline(now: u64, ms: u64) -> u64 {
    if now + ms <= u64::MAX {
        (now + ms) as u64
    } else {
        u64::MAX
    }
}

/// The decision a park request receives, given the requester's state.
pub open spec fn park_decision_of(co: CoState) -> ParkDecision {
    if co.cancel.spec_fires() {
        ParkDecision::Cancel
    } else if co.token {
        ParkDecision::Immediate
    } else {
        ParkDecision::Suspend
    }
}

/// How one cancel request transforms the target's per-coroutine state: the
/// cancel bit is set (once), and the park side slot is taken.
pub open spec fn cancelled_co(co: CoState) -> CoState {
    CoState {
        cancel: (CancelImpl {
            state: if co.cancel.spec_requested() {
                co.cancel.state
            } else {
                (co.cancel.state + 1) as usize
            },
            co: None,
            ..co.cancel
        }),
        ..co
    }
}

/// The full effect of `cancel_co` on the scheduler: the target's cancel bit
/// is set, and a suspended target is woken so it observes the cancel.
pub open spec fn cancel_post(pre: Scheduler, post: Scheduler, c: int) -> bool {
    let co = pre.cos@[c];
    &&& post.timers@ == pre.timers@
    &&& post.outcomes@ == pre.outcomes@
    &&& if spec_suspended(co.status) {
        &&& post.cos@ == pre.cos@.update(c, woken_co(cancelled_co(co), false))
        &&& post.ready@ == pre.ready@.push(c as usize)
    } else {
        &&& post.cos@ == pre.cos@.update(c, cancelled_co(co))
        &&& post.ready@ == pre.ready@
    }
}

/// The full effect of `unpark` on the scheduler: a parked target is woken,
/// any other keeps a token for its next park.
pub open spec fn unpark_post(pre: Scheduler, post: Scheduler, c: int) -> bool {
    let co = pre.cos@[c];
    &&& post.timers@ == pre.timers@
    &&& post.outcomes@ == pre.outcomes@
    &&& if co.status == Status::Parked {
        &&& post.cos@ == pre.cos@.update(c, woken_co(co, false))
        &&& post.ready@ == pre.ready@.push(c as usize)
    } else {
        &&& post.cos@ == pre.cos@.update(c, CoState { token: true, ..co })
        &&& post.ready@ == pre.ready@
    }
}

/// One due-timer firing: the timer at `i` was due; a coroutine still in the
/// suspension the timer was registered for is woken with a timed wakeup, a
/// stale timer is dropped with no further effect.
pub open spec fn fire_one_shape(pre: Scheduler, post: Scheduler, now: u64, i: int) -> bool {
    let t = pre.timers@[i];
    let c = t.id;
    &&& 0 <= i < pre.timers@.len()
    &&& t.deadline <= now
    &&& post.timers@ == pre.timers@.remove(i)
    &&& post.outcomes@ == pre.outcomes@
    &&& if c < pre.cos@.len() && pre.cos@[c as int].epoch == t.epoch && (pre.cos@[c as int].status
        == Status::Parked || pre.cos@[c as int].status == Status::Sleeping) {
        &&& post.cos@ == pre.cos@.update(c as int, woken_co(pre.cos@[c as int], true))
        &&& post.ready@ == pre.ready@.push(c)
    } else {
        &&& post.cos@ == pre.cos@
        &&& post.ready@ == pre.ready@
    }
}

/// The full effect of `finish` on the scheduler: the outcome is recorded in
/// the join slot, the coroutine is finished, and the coroutine waiting to
/// join it (if any) is woken.
pub open spec fn finish_post(pre: Scheduler, post: Scheduler, c: int, o: Outcome) -> bool {
    let co = pre.cos@[c];
    let fin = CoState { status: Status::Finished, ..co };
    let w = co.waiter->Some_0;
    &&& post.timers@ == pre.timers@
    &&& post.outcomes@ == pre.outcomes@.update(c, Some(o))
    &&& if co.waiter is Some && w < pre.cos@.len() && pre.cos@[w as int].status
        == Status::JoinWait && pre.cos@[w as int].waiting_on == Some(c as usize) {
        &&& post.cos@ == pre.cos@.update(c, fin).update(w as int, woken_co(pre.cos@[w as int], false))
        &&& post.ready@ == pre.ready@.push(w)
    } else {
        &&& post.cos@ == pre.cos@.update(c, fin)
        &&& post.ready@ == pre.ready@
    }
}

/// The full effect of `take_join` on the scheduler: the woken waiter `c`
/// collects the outcome of the coroutine it waited on, which is reaped.
pub open spec fn take_join_post(pre: Scheduler, post: Scheduler, c: int, r: Option<Outcome>) -> bool {
    let co = pre.cos@[c];
    let t = co.waiting_on->Some_0;
    &&& post.ready@ == pre.ready@
    &&& post.timers@ == pre.timers@
    &&& if co.waiting_on is Some && t < pre.cos@.len() && t != c && pre.outcomes@[t as int] is Some {
        &&& r == pre.outcomes@[t as int]
        &&& post.outcomes@ == pre.outcomes@.update(t as int, None::<Outcome>)
        &&& post.cos@ == pre.cos@.update(
            t as int,
            CoState { status: Status::Reaped, ..pre.cos@[t as int] },
        ).update(c, CoState { waiting_on: None, ..co })
    } else {
        &&& r is None
        &&& post.outcomes@ == pre.outcomes@
        &&& post.cos@ == pre.cos@.update(c, CoState { waiting_on: None, ..co })
    }
}

impl Scheduler {
    /// Everything the operations rely on: the two per-coroutine tables have
    /// one entry per coroutine, the ready queue holds valid identifiers of
    /// ready coroutines without duplicates, and timers point at coroutines.
    pub open spec fn wf(self) -> bool {
        &&& self.outcomes@.len() == self.cos@.len()
        &&& forall|i: int|
            0 <= i < self.ready@.len() ==> (#[trigger] self.ready@[i]) < self.cos@.len()
        &&& forall|i: int|
            0 <= i < self.ready@.len() ==> self.cos@[#[trigger] self.ready@[i] as int].status
                == Status::Ready
        &&& forall|i: int, j: int|
            0 <= i < j < self.ready@.len() ==> self.ready@[i] != self.ready@[j]
        &&& forall|i: int|
            0 <= i < self.timers@.len() ==> (#[trigger] self.timers@[i]).id < self.cos@.len()
        &&& forall|c: int|
            0 <= c < self.cos@.len() ==> ((#[trigger] self.outcomes@[c]) is Some
                ==> self.cos@[c].status == Status::Finished)
    }

    pub fn new() -> (s: Scheduler)
        ensures
            s.wf(),
            s.cos@.len() == 0,
            s.ready@.len() == 0,
            s.timers@.len() == 0,
    {
        Scheduler { cos: Vec::new(), outcomes: Vec::new(), ready: Vec::new(), timers: Vec::new() }
    }

    /// Admit a new coroutine: it is ready, not yet started, with the given
    /// pre-recorded cancel request and unpark token.
    pub fn add_co(&mut self, pre_cancel: bool, pre_token: bool) -> (id: usize)
        requires
            old(self).wf(),
        ensures
            final(self).wf(),
            id == old(self).cos@.len(),
            final(self).cos@ == old(self).cos@.push(spawned_co(pre_cancel, pre_token)),
            final(self).outcomes@ == old(self).outcomes@.push(None::<Outcome>),
            final(self).ready@ == old(self).ready@.push(id),
            final(self).timers@ == old(self).timers@,
    {
        let id = self.cos.len();
        self.cos.push(
            CoState {
                status: Status::Ready,
                cancel: (CancelImpl {
                    state: if pre_cancel {
                        1
                    } else {
                        0
                    },
                    io: CancelIoImpl,
                    co: None,
                }),
                token: pre_token,
                epoch: 0,
                timed_wake: false,
                started: false,
                waiting_on: None,
                waiter: None,
            },
        );
        self.outcomes.push(None);
        self.ready.push(id);
        proof {
            assert forall|i: int| 0 <= i < self.ready@.len() implies (#[trigger] self.ready@[i])
                < self.cos@.len() by {
                if i < self.ready@.len() - 1 {
                    assert(self.ready@[i] == old(self).ready@[i]);
                }
            }
        }
        id
    }

    /// Take the next ready coroutine, mark it running and started, and say
    /// what to deliver to it. The timed-wake mark is consumed.
    pub fn pop_ready(&mut self) -> (r: Option<(usize, Deliver)>)
        requires
            old(self).wf(),
        ensures
            final(self).wf(),
            old(self).ready@.len() == 0 ==> r is None && *final(self) == *old(self),
            old(self).ready@.len() > 0 ==> {
                let id = old(self).ready@[0];
                let co = old(self).cos@[id as int];
                &&& r == Some((id, deliver_of(co)))
                &&& final(self).ready@ == old(self).ready@.remove(0)
                &&& final(self).cos@ == old(self).cos@.update(
                    id as int,
                    CoState { status: Status::Running, timed_wake: false, started: true, ..co },
                )
                &&& final(self).outcomes@ == old(self).outcomes@
                &&& final(self).timers@ == old(self).timers@
            },
    {
        if self.ready.len() == 0 {
            return None;
        }
        let id = self.ready.remove(0);
        let co = self.cos[id];
        let d = if !co.started {
            Deliver::Start
        } else if co.cancel.is_canceled() {
            Deliver::Cancel
        } else if co.waiting_on.is_some() {
            Deliver::JoinDone
        } else if co.timed_wake {
            Deliver::TimedOut
        } else {
            Deliver::Normal
        };
        let mut c2 = co;
        c2.status = Status::Running;
        c2.timed_wake = false;
        c2.started = true;
        self.cos[id] = c2;
        Some((id, d))
    }

    /// A running coroutine yields: it goes back to the end of the ready
    /// queue.
    pub fn requeue(&mut self, id: usize)
        requires
            old(self).wf(),
            id < old(self).cos@.len(),
            old(self).cos@[id as int].status == Status::Running,
        ensures
            final(self).wf(),
            final(self).cos@ == old(self).cos@.update(
                id as int,
                CoState { status: Status::Ready, ..old(self).cos@[id as int] },
            ),
            final(self).ready@ == old(self).ready@.push(id),
            final(self).outcomes@ == old(self).outcomes@,
            final(self).timers@ == old(self).timers@,
    {
        let mut co = self.cos[id];
        co.status = Status::Ready;
        self.cos[id] = co;
        self.ready.push(id);
    }

    /// A running coroutine asks to park. A pending token answers it at once;
    /// a firing cancel unwinds it; otherwise it is parked and its park slot
    /// is registered with its cancel controller.
    pub fn co_park(&mut self, id: usize) -> (d: ParkDecision)
        requires
            old(self).wf(),
            id < old(self).cos@.len(),
            old(self).cos@[id as int].status == Status::Running,
        ensures
            final(self).wf(),
            final(self).ready@ == old(self).ready@,
            final(self).outcomes@ == old(self).outcomes@,
            final(self).timers@ == old(self).timers@,
            d == park_decision_of(old(self).cos@[id as int]),
            ({
                let co = old(self).cos@[id as int];
                if co.cancel.spec_fires() {
                    d == ParkDecision::Cancel && final(self).cos@ == old(self).cos@
                } else if co.token {
                    d == ParkDecision::Immediate && final(self).cos@ == old(self).cos@.update(
                        id as int,
                        CoState { token: false, ..co },
                    )
                } else {
                    d == ParkDecision::Suspend && final(self).cos@ == old(self).cos@.update(
                        id as int,
                        CoState {
                            status: Status::Parked,
                            cancel: (CancelImpl { co: Some(id), ..co.cancel }),
                            ..co
                        },
                    )
                }
            }),
    {
        let co = self.cos[id];
        if co.cancel.is_canceled() {
            ParkDecision::Cancel
        } else if co.token {
            let mut c2 = co;
            c2.token = false;
            self.cos[id] = c2;
            ParkDecision::Immediate
        } else {
            let mut c2 = co;
            c2.status = Status::Parked;
            c2.cancel.set_co(id);
            self.cos[id] = c2;
            ParkDecision::Suspend
        }
    }

    /// A running coroutine asks to park with a timeout of `ms`, the clock
    /// standing at `now`: as a park, but a suspension also registers a timer
    /// at the saturated deadline for the coroutine's current epoch.
    pub fn co_park_timeout(&mut self, id: usize, ms: u64, now: u64) -> (d: ParkDecision)
        requires
            old(self).wf(),
            id < old(self).cos@.len(),
            old(self).cos@[id as int].status == Status::Running,
        ensures
            final(self).wf(),
            final(self).ready@ == old(self).ready@,
            final(self).outcomes@ == old(self).outcomes@,
            ({
                let co = old(self).cos@[id as int];
                if co.cancel.spec_fires() {
                    d == ParkDecision::Cancel && final(self).cos@ == old(self).cos@ && final(self).timers@ == old(self).timers@
                } else if co.token {
                    d == ParkDecision::Immediate && final(self).cos@ == old(self).cos@.update(
                        id as int,
                        CoState { token: false, ..co },
                    ) && final(self).timers@ == old(self).timers@
                } else {
                    d == ParkDecision::Suspend && final(self).cos@ == old(self).cos@.update(
                        id as int,
                        CoState {
                            status: Status::Parked,
                            cancel: (CancelImpl { co: Some(id), ..co.cancel }),
                            ..co
                        },
                    ) && final(self).timers@ == old(self).timers@.push(
                        Timer { deadline: spec_deadline(now, ms), id, epoch: co.epoch },
                    )
                }
            }),
    {
        let d = self.co_park(id);
        if let ParkDecision::Suspend = d {
            let deadline = if ms <= u64::MAX - now {
                now + ms
            } else {
                u64::MAX
            };
            let epoch = self.cos[id].epoch;
            self.timers.push(Timer { deadline, id, epoch });
        }
        d
    }

    /// A running coroutine goes to sleep for `ms`: it suspends on a slot no
    /// unpark can reach, woken only by its timer (or a cancel). A firing
    /// cancel unwinds it instead; a pending token is left for the next park.
    pub fn co_sleep(&mut self, id: usize, ms: u64, now: u64) -> (d: ParkDecision)
        requires
            old(self).wf(),
            id < old(self).cos@.len(),
            old(self).cos@[id as int].status == Status::Running,
        ensures
            final(self).wf(),
            final(self).ready@ == old(self).ready@,
            final(self).outcomes@ == old(self).outcomes@,
            ({
                let co = old(self).cos@[id as int];
                if co.cancel.spec_fires() {
                    d == ParkDecision::Cancel && final(self).cos@ == old(self).cos@ && final(self).timers@ == old(self).timers@
                } else {
                    d == ParkDecision::Suspend && final(self).cos@ == old(self).cos@.update(
                        id as int,
                        CoState {
                            status: Status::Sleeping,
                            cancel: (CancelImpl { co: Some(id), ..co.cancel }),
                            ..co
                        },
                    ) && final(self).timers@ == old(self).timers@.push(
                        Timer { deadline: spec_deadline(now, ms), id, epoch: co.epoch },
                    )
                }
            }),
    {
        let co = self.cos[id];
        if co.cancel.is_canceled() {
            ParkDecision::Cancel
        } else {
            let mut c2 = co;
            c2.status = Status::Sleeping;
            c2.cancel.set_co(id);
            self.cos[id] = c2;
            let deadline = if ms <= u64::MAX - now {
                now + ms
            } else {
                u64::MAX
            };
            self.timers.push(Timer { deadline, id, epoch: co.epoch });
            ParkDecision::Suspend
        }
    }

    /// Unpark a coroutine: wake it if it is parked, otherwise leave it a
    /// token so its next park returns at once. Never blocks the caller.
    pub fn unpark(&mut self, target: usize)
        requires
            old(self).wf(),
            target < old(self).cos@.len(),
        ensures
            final(self).wf(),
            unpark_post(*old(self), *final(self), target as int),
    {
        let co = self.cos[target];
        if let Status::Parked = co.status {
            let mut c2 = co;
            c2.status = Status::Ready;
            c2.epoch = if c2.epoch == u64::MAX {
                0
            } else {
                c2.epoch + 1
            };
            c2.timed_wake = false;
            c2.cancel.clear_co();
            self.cos[target] = c2;
            self.ready.push(target);
        } else {
            let mut c2 = co;
            c2.token = true;
            self.cos[target] = c2;
        }
    }

    /// Request cancellation of a coroutine: latch the request and wake the
    /// target if it is suspended, so it observes the cancel at its
    /// suspension point. Idempotent; never blocks the caller.
    pub fn cancel_co(&mut self, target: usize)
        requires
            old(self).wf(),
            target < old(self).cos@.len(),
        ensures
            final(self).wf(),
            cancel_post(*old(self), *final(self), target as int),
    {
        let mut co = self.cos[target];
        let _woken = co.cancel.cancel();
        let suspended = match co.status {
            Status::Parked => true,
            Status::Sleeping => true,
            Status::JoinWait => true,
            _ => false,
        };
        if suspended {
            co.status = Status::Ready;
            co.epoch = if co.epoch == u64::MAX {
                0
            } else {
                co.epoch + 1
            };
            co.timed_wake = false;
            self.cos[target] = co;
            self.ready.push(target);
        } else {
            self.cos[target] = co;
        }
    }

    /// A running coroutine terminated: record how it ended in its join slot
    /// and wake the coroutine waiting to join it, if one does.
    pub fn finish(&mut self, id: usize, o: Outcome)
        requires
            old(self).wf(),
            id < old(self).cos@.len(),
            old(self).cos@[id as int].status == Status::Running,
        ensures
            final(self).wf(),
            finish_post(*old(self), *final(self), id as int, o),
    {
        let co = self.cos[id];
        let mut fin = co;
        fin.status = Status::Finished;
        self.cos[id] = fin;
        self.outcomes[id] = Some(o);
        if let Some(w) = co.waiter {
            if w < self.cos.len() {
                let wc = self.cos[w];
                let waits_here = match wc.waiting_on {
                    Some(t) => t == id,
                    None => false,
                };
                if waits_here {
                    if let Status::JoinWait = wc.status {
                        let mut w2 = wc;
                        w2.status = Status::Ready;
                        w2.epoch = if w2.epoch == u64::MAX {
                            0
                        } else {
                            w2.epoch + 1
                        };
                        w2.timed_wake = false;
                        w2.cancel.clear_co();
                        self.cos[w] = w2;
                        self.ready.push(w);
                    }
                }
            }
        }
    }

    /// A running coroutine asks to join `target`. A finished target is
    /// reaped and its outcome handed over; a live one records the requester,
    /// which then waits. A firing cancel unwinds the requester instead.
    pub fn co_join(&mut self, id: usize, target: usize) -> (d: JoinDecision)
        requires
            old(self).wf(),
            id < old(self).cos@.len(),
            old(self).cos@[id as int].status == Status::Running,
        ensures
            final(self).wf(),
            final(self).ready@ == old(self).ready@,
            final(self).timers@ == old(self).timers@,
            ({
                let co = old(self).cos@[id as int];
                if co.cancel.spec_fires() {
                    &&& d is Cancel
                    &&& final(self).cos@ == old(self).cos@
                    &&& final(self).outcomes@ == old(self).outcomes@
                } else if target < old(self).cos@.len() && target != id && old(self).outcomes@[target as int] is Some {
                    &&& d == JoinDecision::Done(old(self).outcomes@[target as int]->Some_0)
                    &&& final(self).cos@ == old(self).cos@.update(
                        target as int,
                        CoState { status: Status::Reaped, ..old(self).cos@[target as int] },
                    )
                    &&& final(self).outcomes@ == old(self).outcomes@.update(
                        target as int,
                        None::<Outcome>,
                    )
                } else if target < old(self).cos@.len() && target != id && !spec_joined_away(
                    old(self).cos@[target as int].status,
                ) {
                    &&& d is Wait
                    &&& final(self).cos@ == old(self).cos@.update(
                        id as int,
                        CoState { status: Status::JoinWait, waiting_on: Some(target), ..co },
                    ).update(
                        target as int,
                        CoState { waiter: Some(id), ..old(self).cos@[target as int] },
                    )
                    &&& final(self).outcomes@ == old(self).outcomes@
                } else {
                    &&& d is Invalid
                    &&& final(self).cos@ == old(self).cos@
                    &&& final(self).outcomes@ == old(self).outcomes@
                }
            }),
    {
        let co = self.cos[id];
        if co.cancel.is_canceled() {
            return JoinDecision::Cancel;
        }
        if target >= self.cos.len() || target == id {
            return JoinDecision::Invalid;
        }
        let has_outcome = self.outcomes[target].is_some();
        if has_outcome {
            let mut o: Option<Outcome> = None;
            core::mem::swap(&mut o, &mut self.outcomes[target]);
            let mut t2 = self.cos[target];
            t2.status = Status::Reaped;
            self.cos[target] = t2;
            proof {
                assert forall|i: int|
                    0 <= i < self.ready@.len() implies self.cos@[#[trigger] self.ready@[i] as int].status
                    == Status::Ready by {
                    assert(old(self).cos@[old(self).ready@[i] as int].status == Status::Ready);
                }
            }
            match o {
                Some(outc) => JoinDecision::Done(outc),
                None => JoinDecision::Invalid,
            }
        } else {
            let tc = self.cos[target];
            let joined_away = match tc.status {
                Status::Reaped => true,
                Status::Finished => true,
                _ => false,
            };
            if joined_away {
                return JoinDecision::Invalid;
            }
            let mut c2 = co;
            c2.status = Status::JoinWait;
            c2.waiting_on = Some(target);
            self.cos[id] = c2;
            let mut t2 = self.cos[target];
            t2.waiter = Some(id);
            self.cos[target] = t2;
            proof {
                assert forall|i: int|
                    0 <= i < self.ready@.len() implies self.cos@[#[trigger] self.ready@[i] as int].status
                    == Status::Ready by {
                    assert(old(self).cos@[old(self).ready@[i] as int].status == Status::Ready);
                }
            }
            JoinDecision::Wait
        }
    }

    /// A woken join-waiter collects the outcome it waited for; the target is
    /// reaped. `None` when there is nothing to collect.
    pub fn take_join(&mut self, id: usize) -> (r: Option<Outcome>)
        requires
            old(self).wf(),
            id < old(self).cos@.len(),
            old(self).cos@[id as int].status == Status::Running,
        ensures
            final(self).wf(),
            take_join_post(*old(self), *final(self), id as int, r),
    {
        let co = self.cos[id];
        let mut c2 = co;
        c2.waiting_on = None;
        match co.waiting_on {
            Some(t) if t < self.cos.len() && t != id => {
                let has_outcome = self.outcomes[t].is_some();
                if has_outcome {
                    let mut o: Option<Outcome> = None;
                    core::mem::swap(&mut o, &mut self.outcomes[t]);
                    let mut t2 = self.cos[t];
                    t2.status = Status::Reaped;
                    self.cos[t] = t2;
                    self.cos[id] = c2;
                    proof {
                        assert forall|i: int|
                            0 <= i < self.ready@.len() implies self.cos@[#[trigger] self.ready@[i] as int].status
                            == Status::Ready by {
                            assert(old(self).cos@[old(self).ready@[i] as int].status
                                == Status::Ready);
                        }
                    }
                    o
                } else {
                    self.cos[id] = c2;
                    None
                }
            }
            _ => {
                self.cos[id] = c2;
                None
            }
        }
    }

    /// The driver (outside any coroutine) collects a finished coroutine's
    /// outcome; the coroutine is reaped. `None` while it still runs.
    pub fn take_outcome(&mut self, id: usize) -> (r: Option<Outcome>)
        requires
            old(self).wf(),
            id < old(self).cos@.len(),
        ensures
            final(self).wf(),
            final(self).ready@ == old(self).ready@,
            final(self).timers@ == old(self).timers@,
            r == old(self).outcomes@[id as int],
            final(self).outcomes@ == old(self).outcomes@.update(id as int, None::<Outcome>),
            r is Some ==> final(self).cos@ == old(self).cos@.update(
                id as int,
                CoState { status: Status::Reaped, ..old(self).cos@[id as int] },
            ),
            r is None ==> final(self).cos@ == old(self).cos@,
    {
        let mut o: Option<Outcome> = None;
        core::mem::swap(&mut o, &mut self.outcomes[id]);
        if o.is_some() {
            let mut c2 = self.cos[id];
            c2.status = Status::Reaped;
            self.cos[id] = c2;
            proof {
                assert forall|i: int|
                    0 <= i < self.ready@.len() implies self.cos@[#[trigger] self.ready@[i] as int].status
                    == Status::Ready by {
                    assert(old(self).cos@[old(self).ready@[i] as int].status == Status::Ready);
                }
            }
        }
        o
    }

    /// Fire the earliest due timer, if any: drop it from the list, and wake
    /// the coroutine it points at when that coroutine is still in the
    /// suspension the timer was registered for. Always firing the earliest
    /// deadline first, timers fire in non-decreasing deadline order. Reports
    /// whether a timer was due.
    pub fn fire_one(&mut self, now: u64) -> (fired: bool)
        requires
            old(self).wf(),
        ensures
            final(self).wf(),
            !fired ==> *final(self) == *old(self) && (forall|i: int|
                0 <= i < old(self).timers@.len() ==> (#[trigger] old(self).timers@[i]).deadline
                    > now),
            fired ==> exists|i: int|
                fire_one_shape(*old(self), *final(self), now, i) && (forall|j: int|
                    0 <= j < old(self).timers@.len() ==> old(self).timers@[i].deadline
                        <= (#[trigger] old(self).timers@[j]).deadline),
    {
        let ghost pre = *self;
        if self.timers.len() == 0 {
            return false;
        }
        let mut i: usize = 0;
        let mut k: usize = 1;
        while k < self.timers.len()
            invariant
                *self == pre,
                i < k,
                k <= self.timers@.len(),
                forall|j: int|
                    0 <= j < k ==> self.timers@[i as int].deadline
                        <= (#[trigger] self.timers@[j]).deadline,
            decreases self.timers@.len() - k,
        {
            if self.timers[k].deadline < self.timers[i].deadline {
                i = k;
            }
            k = k + 1;
        }
        if self.timers[i].deadline > now {
            proof {
                assert forall|j: int|
                    0 <= j < self.timers@.len() implies (#[trigger] self.timers@[j]).deadline
                    > now by {
                    assert(self.timers@[i as int].deadline <= self.timers@[j].deadline);
                }
            }
            return false;
        }
        let t = self.timers.remove(i);
        let c = t.id;
        let co = self.cos[c];
        let in_slot = match co.status {
            Status::Parked => true,
            Status::Sleeping => true,
            _ => false,
        };
        if co.epoch == t.epoch && in_slot {
            let mut c2 = co;
            c2.status = Status::Ready;
            c2.epoch = if c2.epoch == u64::MAX {
                0
            } else {
                c2.epoch + 1
            };
            c2.timed_wake = true;
            c2.cancel.clear_co();
            self.cos[c] = c2;
            self.ready.push(c);
        }
        proof {
            assert(fire_one_shape(pre, *self, now, i as int));
        }
        true
    }

    /// The earliest registered deadline, due or not.
    pub fn next_deadline(&self) -> (r: Option<u64>)
        ensures
            r is None <==> self.timers@.len() == 0,
            r matches Some(d) ==> (forall|i: int|
                0 <= i < self.timers@.len() ==> d <= (#[trigger] self.timers@[i]).deadline)
                && (exists|i: int|
                0 <= i < self.timers@.len() && (#[trigger] self.timers@[i]).deadline == d),
    {
        if self.timers.len() == 0 {
            return None;
        }
        let mut best: u64 = self.timers[0].deadline;
        let mut i: usize = 1;
        while i < self.timers.len()
            invariant
                1 <= i <= self.timers@.len(),
                self.timers@.len() > 0,
                forall|j: int| 0 <= j < i ==> best <= (#[trigger] self.timers@[j]).deadline,
                exists|j: int|
                    0 <= j < i && (#[trigger] self.timers@[j]).deadline == best,
            decreases self.timers@.len() - i,
        {
            if self.timers[i].deadline < best {
                best = self.timers[i].deadline;
            }
            i = i + 1;
        }
        Some(best)
    }

    /// Whether every coroutine terminated (finished or already joined).
    pub fn all_done(&self) -> (r: bool)
        ensures
            r == (forall|c: int|
                0 <= c < self.cos@.len() ==> spec_joined_away(
                    (#[trigger] self.cos@[c]).status,
                )),
    {
        let mut i: usize = 0;
        while i < self.cos.len()
            invariant
                i <= self.cos@.len(),
                forall|c: int| 0 <= c < i ==> spec_joined_away((#[trigger] self.cos@[c]).status),
            decreases self.cos@.len() - i,
        {
            let done = match self.cos[i].status {
                Status::Finished => true,
                Status::Reaped => true,
                _ => false,
            };
            if !done {
                return false;
            }
            i = i + 1;
        }
        true
    }
}

/// The coroutine terminated: its outcome is recorded or was collected.
pub open spec fn spec_joined_away(s: Status) -> bool {
    s == Status::Finished || s == Status::Reaped
}

} // verus!
