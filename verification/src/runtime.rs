//! The driver: owns the coroutine stacks and runs the scheduling core.
//!
//! A [`Runtime`] is created by whoever blocks on coroutines — a join from
//! plain thread context, or a scope — and drives them to completion on the
//! calling thread. All decisions are delegated to the verified
//! [`Scheduler`]; the driver's own job is to resume the chosen coroutine
//! through the trusted bridge and feed what it yields back into the core.
//!
//! The drive loops carry an explicit (astronomically large) fuel bound, so
//! each loop provably consumes it; a coroutine set that deadlocks under a
//! plain join gives the loop up when the fuel is gone.

use crate::bridge::elapsed_ms;
use crate::bridge::gen_raw_send;
use crate::bridge::gen_take_panic;
use crate::bridge::make_gen;
use crate::bridge::mark_coroutine;
use crate::bridge::now;
use crate::bridge::Clock;
use crate::bridge::CoBody;
use crate::bridge::CoGen;
use crate::proto::Outcome;
use crate::proto::Request;
use crate::proto::Response;
use crate::sched::spec_joined_away;
use crate::sched::Deliver;
use crate::sched::JoinDecision;
use crate::sched::ParkDecision;
use crate::sched::Scheduler;
use crate::sched::Status;
use vstd::prelude::*;

verus! {

/// The default coroutine stack size, in machine words.
pub const DEFAULT_STACK_WORDS: usize = 0x4000;

/// One single-threaded coroutine runtime: the verified core plus the owned
/// stacks of its coroutines, indexed alike.
pub struct Runtime<'a> {
    /// The verified scheduling state machine.
    pub core: Scheduler,
    /// The suspended stacks; a finished coroutine's slot is emptied.
    pub gens: Vec<Option<CoGen<'a>>>,
    /// The optional name of each coroutine, indexed alike.
    pub names: Vec<Option<String>>,
    /// The driver's clock origin: deadlines count milliseconds from here.
    pub epoch: Clock,
}

impl<'a> Runtime<'a> {
    /// The core is consistent and has one stack slot per coroutine.
    pub open spec fn wf(self) -> bool {
        &&& self.core.wf()
        &&& self.gens@.len() == self.core.cos@.len()
        &&& self.names@.len() == self.core.cos@.len()
    }

    pub fn new() -> (rt: Runtime<'a>)
        ensures
            rt.wf(),
            rt.core.cos@.len() == 0,
    {
        Runtime { core: Scheduler::new(), gens: Vec::new(), names: Vec::new(), epoch: now() }
    }

    /// Milliseconds since this runtime started: the clock its deadlines use.
    fn now_ms(&self) -> u64 {
        elapsed_ms(&self.epoch)
    }

    /// Admit an already-built coroutine, with its pre-recorded cancel
    /// request, unpark token and name; it is scheduled to run.
    pub fn adopt(&mut self, g: CoGen<'a>, pre_cancel: bool, pre_token: bool, name: Option<
        String,
    >) -> (id: usize)
        requires
            old(self).wf(),
        ensures
            final(self).wf(),
            id == old(self).core.cos@.len(),
            final(self).core.cos@ == old(self).core.cos@.push(
                crate::sched::spawned_co(pre_cancel, pre_token),
            ),
            final(self).core.outcomes@ == old(self).core.outcomes@.push(None::<Outcome>),
            final(self).core.ready@ == old(self).core.ready@.push(id),
            final(self).core.timers@ == old(self).core.timers@,
            final(self).names@ == old(self).names@.push(name),
    {
        let id = self.core.add_co(pre_cancel, pre_token);
        self.gens.push(Some(g));
        self.names.push(name);
        id
    }

    /// Build a coroutine from its body and admit it.
    pub fn spawn_body(&mut self, body: CoBody<'a>, stack_words: usize, name: Option<String>) -> (id:
        usize)
        requires
            old(self).wf(),
        ensures
            final(self).wf(),
            id == old(self).core.cos@.len(),
            final(self).core.cos@ == old(self).core.cos@.push(crate::sched::spawned_co(false, false)),
            final(self).core.ready@ == old(self).core.ready@.push(id),
            final(self).core.timers@ == old(self).core.timers@,
            final(self).names@ == old(self).names@.push(name),
    {
        let mut g = make_gen(body, stack_words);
        mark_coroutine(&mut g);
        self.adopt(g, false, false, name)
    }

    /// The name the coroutine was spawned with, if any.
    pub fn co_name(&self, id: usize) -> (r: &Option<String>)
        requires
            self.wf(),
            id < self.core.cos@.len(),
        ensures
            r == &self.names@[id as int],
    {
        &self.names[id]
    }

    /// Resume one coroutine and serve its requests until it suspends or
    /// terminates.
    fn converse(&mut self, id: usize, d: Deliver)
        requires
            old(self).wf(),
            id < old(self).core.cos@.len(),
            old(self).core.cos@[id as int].status == Status::Running,
        ensures
            final(self).wf(),
            final(self).core.cos@.len() >= old(self).core.cos@.len(),
    {
        let mut slot: Option<CoGen<'a>> = None;
        core::mem::swap(&mut slot, &mut self.gens[id]);
        let mut g = match slot {
            Some(g) => g,
            None => {
                // the stack is gone: nothing can run; record the coroutine
                // as cancelled so joiners are not left waiting
                self.core.finish(id, Outcome::Cancelled);
                return ;
            }
        };
        let mut resp: Option<Response> = match d {
            Deliver::Start => None,
            Deliver::Normal => Some(Response::Resume),
            Deliver::TimedOut => Some(Response::TimedOut),
            Deliver::Cancel => Some(Response::Cancel),
            Deliver::JoinDone => {
                let o = self.core.take_join(id);
                Some(Response::Joined(o))
            }
        };
        let mut fuel: u64 = u64::MAX;
        loop
            invariant
                self.wf(),
                id < self.core.cos@.len(),
                self.core.cos@[id as int].status == Status::Running,
                self.core.cos@.len() >= old(self).core.cos@.len(),
            decreases fuel,
        {
            if fuel == 0 {
                // give the conversation up: park the stack and requeue
                self.gens[id] = Some(g);
                self.core.requeue(id);
                return ;
            }
            fuel = fuel - 1;
            match gen_raw_send(&mut g, resp) {
                None => {
                    // the coroutine stopped without a final value: either a
                    // panic was captured, or it unwound on a cancel
                    let p = gen_take_panic(&mut g);
                    match p {
                        Some(payload) => self.core.finish(id, Outcome::Panicked(payload)),
                        None => self.core.finish(id, Outcome::Cancelled),
                    }
                    return ;
                }
                Some(req) => match req {
                    Request::Fin(b) => {
                        self.core.finish(id, Outcome::Normal(b));
                        return ;
                    }
                    Request::Yield => {
                        self.gens[id] = Some(g);
                        let y = crate::yield_now::Yield {  };
                        y.subscribe(&mut self.core, id);
                        return ;
                    }
                    Request::Park => match self.core.co_park(id) {
                        ParkDecision::Immediate => {
                            resp = Some(Response::Resume);
                        }
                        ParkDecision::Suspend => {
                            self.gens[id] = Some(g);
                            return ;
                        }
                        ParkDecision::Cancel => {
                            resp = Some(Response::Cancel);
                        }
                    },
                    Request::ParkTimeout(ms) => {
                        // the clock is read in whole milliseconds, rounded
                        // down; register one millisecond late so truncation
                        // never shortens the wait below `ms`
                        let n = self.now_ms();
                        let n = if n < u64::MAX {
                            n + 1
                        } else {
                            n
                        };
                        match self.core.co_park_timeout(id, ms, n) {
                            ParkDecision::Immediate => {
                                resp = Some(Response::Resume);
                            }
                            ParkDecision::Suspend => {
                                self.gens[id] = Some(g);
                                return ;
                            }
                            ParkDecision::Cancel => {
                                resp = Some(Response::Cancel);
                            }
                        }
                    }
                    Request::Sleep(ms) => {
                        let n = self.now_ms();
                        let n = if n < u64::MAX {
                            n + 1
                        } else {
                            n
                        };
                        match self.core.co_sleep(id, ms, n) {
                            ParkDecision::Suspend => {
                                self.gens[id] = Some(g);
                                return ;
                            }
                            _ => {
                                resp = Some(Response::Cancel);
                            }
                        }
                    }
                    Request::Spawn(body, stack_words, name) => {
                        let nid = self.spawn_body(body, stack_words, name);
                        resp = Some(Response::Spawned(nid));
                    }
                    Request::Join(t) => match self.core.co_join(id, t) {
                        JoinDecision::Done(o) => {
                            resp = Some(Response::Joined(Some(o)));
                        }
                        JoinDecision::Wait => {
                            self.gens[id] = Some(g);
                            return ;
                        }
                        JoinDecision::Invalid => {
                            resp = Some(Response::Joined(None));
                        }
                        JoinDecision::Cancel => {
                            resp = Some(Response::Cancel);
                        }
                    },
                    Request::Unpark(t) => {
                        if t < self.core.cos.len() {
                            self.core.unpark(t);
                        }
                        resp = Some(Response::Resume);
                    }
                    Request::CancelCo(t) => {
                        if t < self.core.cos.len() {
                            self.core.cancel_co(t);
                        }
                        resp = Some(Response::Resume);
                    }
                    Request::Current => {
                        resp = Some(Response::Id(id));
                    }
                },
            }
        }
    }

    /// Run one scheduling step: fire one due timer if any (so that yielding
    /// coroutines never starve the timers), then resume the next ready
    /// coroutine; report `false` once nothing can ever run again.
    fn step(&mut self) -> (alive: bool)
        requires
            old(self).wf(),
        ensures
            final(self).wf(),
            final(self).core.cos@.len() >= old(self).core.cos@.len(),
            !alive ==> final(self).core.ready@.len() == 0 && final(self).core.timers@.len() == 0,
    {
        if self.core.timers.len() > 0 {
            let n = self.now_ms();
            let _fired = self.core.fire_one(n);
        }
        match self.core.pop_ready() {
            Some((id, d)) => {
                self.converse(id, d);
                true
            }
            None => {
                // nothing ready: the driver busy-waits on the clock until
                // the earliest deadline, or gives up when no timer remains
                self.core.timers.len() > 0
            }
        }
    }

    /// Drive until coroutine `target` has finished, and hand out its
    /// outcome. `None` when every coroutine is stuck (or the target was
    /// already joined): the join is then abandoned.
    pub fn drive(&mut self, target: usize) -> (r: Option<Outcome>)
        requires
            old(self).wf(),
            target < old(self).core.cos@.len(),
        ensures
            final(self).wf(),
            r is Some ==> final(self).core.cos@[target as int].status == Status::Reaped,
    {
        let mut fuel: u64 = u64::MAX;
        loop
            invariant
                self.wf(),
                target < self.core.cos@.len(),
            decreases fuel,
        {
            if fuel == 0 {
                return None;
            }
            fuel = fuel - 1;
            let o = self.core.take_outcome(target);
            if o.is_some() {
                return o;
            }
            if !self.step() {
                return None;
            }
        }
    }

    /// Cancel every coroutine; used when a scope finds all of its coroutines
    /// suspended with nothing left to wake them.
    fn cancel_all(&mut self)
        requires
            old(self).wf(),
        ensures
            final(self).wf(),
    {
        let mut c: usize = 0;
        while c < self.core.cos.len()
            invariant
                self.wf(),
            decreases self.core.cos@.len() - c,
        {
            self.core.cancel_co(c);
            c = c + 1;
        }
    }

    /// Drive until every coroutine has terminated. Coroutines that would
    /// otherwise stay suspended forever are cancelled, so that a scope can
    /// account for every handle it produced. Reports completion; it is
    /// withheld only when the fuel bound was consumed.
    pub fn run_all(&mut self) -> (complete: bool)
        requires
            old(self).wf(),
        ensures
            final(self).wf(),
            complete ==> forall|c: int|
                0 <= c < final(self).core.cos@.len() ==> spec_joined_away(
                    (#[trigger] final(self).core.cos@[c]).status,
                ),
    {
        let mut fuel: u64 = u64::MAX;
        loop
            invariant
                self.wf(),
            decreases fuel,
        {
            if fuel == 0 {
                return false;
            }
            fuel = fuel - 1;
            if self.core.all_done() {
                return true;
            }
            if !self.step() {
                // every remaining coroutine is suspended with nothing left
                // to wake it: deliver them the cancel so each unwinds and
                // finishes
                self.cancel_all();
            }
        }
    }
}

} // verus!
