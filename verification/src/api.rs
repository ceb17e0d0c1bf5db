//! The public surface: spawn and builders, join handles, scopes, and the
//! cooperative primitives park, timed park, sleep and current.

use crate::bridge::co_body_new;
use crate::bridge::co_fetch;
use crate::bridge::co_yield;
use crate::bridge::duration_ms;
use crate::bridge::elapsed_ms;
use crate::bridge::in_coroutine;
use crate::bridge::make_gen;
use crate::bridge::mark_coroutine;
use crate::bridge::now;
use crate::bridge::AnyBox;
use crate::bridge::CoGen;
use crate::cancel::trigger_cancel_panic;
use crate::proto::Outcome;
use crate::proto::Request;
use crate::proto::Response;
use crate::runtime::Runtime;
use crate::runtime::DEFAULT_STACK_WORDS;
use crate::sched::spawned_co;
use crate::sched::spec_joined_away;
use crate::sched::CoState;
use vstd::prelude::*;

verus! {

/// Suspend the current coroutine on a request and read the scheduler's
/// answer. Must only be called from inside a coroutine. A resumption without
/// a response comes from a drop or a raw cancel of the suspended generator,
/// never from the scheduler: it is answered as a cancel, so the caller
/// unwinds instead of running on.
pub(crate) fn co_suspend(req: Request) -> Response {
    co_yield(req);
    match co_fetch() {
        Some(r) => r,
        None => Response::Cancel,
    }
}

/// How a join ended without a value.
pub enum JoinError {
    /// The coroutine panicked; here is the captured payload.
    Panic(AnyBox),
    /// The coroutine was cancelled and unwound.
    Cancelled,
    /// No scheduler can answer for this coroutine any more (it was handed
    /// out of its runtime, or the join was attempted from plain thread
    /// context on a live coroutine).
    Detached,
}

impl JoinError {
    /// The payload of the panic that ended the coroutine, when it has type
    /// `T`.
    pub fn downcast_ref<T: 'static>(&self) -> Option<&T> {
        match self {
            JoinError::Panic(b) => b.downcast_ref::<T>(),
            _ => None,
        }
    }

    /// Whether the coroutine ended by a panic of its body.
    pub fn is_panic(&self) -> (r: bool)
        ensures
            r == (self is Panic),
    {
        matches!(self, JoinError::Panic(_))
    }

    /// Whether the coroutine ended by cancellation.
    pub fn is_cancelled(&self) -> (r: bool)
        ensures
            r == (self is Cancelled),
    {
        matches!(self, JoinError::Cancelled)
    }
}

/// Turn a recorded outcome into what join returns: the typed value of a
/// normal termination, or the join error.
fn outcome_to_result<T: Send + 'static>(o: Outcome) -> (r: Result<T, JoinError>)
    ensures
        (o is Cancelled) ==> (r matches Err(e) && e is Cancelled),
        (o is Panicked) ==> (r matches Err(e) && e is Panic),
        (o is Normal) ==> (r is Ok || (r matches Err(e) && e is Panic)),
{
    match o {
        Outcome::Normal(b) => match b.downcast::<T>() {
            Ok(v) => Ok(v),
            Err(b2) => Err(JoinError::Panic(b2)),
        },
        Outcome::Panicked(p) => Err(JoinError::Panic(p)),
        Outcome::Cancelled => Err(JoinError::Cancelled),
    }
}

/// Requests recorded on a coroutine that was not yet handed to a scheduler.
pub struct PreFlags {
    /// Cancellation was requested before the first run.
    pub cancel: bool,
    /// An unpark token arrived before the first run.
    pub token: bool,
}

enum Handle {
    /// Spawned outside any scheduler: the handle owns the coroutine, its
    /// name, and the requests recorded before its first run; joining it
    /// drives a fresh runtime on the calling thread.
    Pending { gen: CoGen<'static>, flags: PreFlags, name: Option<String> },
    /// Spawned from inside a running scheduler: the handle names the
    /// coroutine there.
    Live(usize),
}

/// The owner's reference to a spawned coroutine: join it to collect its
/// value or its panic.
pub struct JoinHandle<T> {
    inner: Handle,
    _res: core::marker::PhantomData<T>,
}

/// A shared reference to a coroutine of the currently running scheduler,
/// used to unpark or cancel it from another coroutine.
#[derive(Clone, Copy, PartialEq, Eq, Structural, Debug)]
pub enum CoroutineRef {
    /// A coroutine of the scheduler the caller runs under.
    Live(usize),
    /// No coroutine can be named (the caller was no coroutine, or the handle
    /// was not yet scheduled).
    Detached,
}

impl CoroutineRef {
    /// Wake the coroutine from a park, or leave it a token so its next park
    /// returns at once. Coalesced, never counted; never blocks.
    pub fn unpark(&self) {
        if let CoroutineRef::Live(id) = self {
            if in_coroutine() {
                match co_suspend(Request::Unpark(*id)) {
                    Response::Cancel => trigger_cancel_panic(),
                    _ => {}
                }
            }
        }
    }

    /// Request cancellation: the coroutine unwinds at its next suspension
    /// point (or at once, if it is suspended). Idempotent; never blocks.
    pub fn cancel(&self) {
        if let CoroutineRef::Live(id) = self {
            if in_coroutine() {
                match co_suspend(Request::CancelCo(*id)) {
                    Response::Cancel => trigger_cancel_panic(),
                    _ => {}
                }
            }
        }
    }
}

impl<T> JoinHandle<T> {
    /// The handle still owns its coroutine: spawned outside any scheduler
    /// and not yet joined.
    pub closed spec fn spec_is_pending(&self) -> bool {
        self.inner is Pending
    }

    /// The cancel request recorded for the coroutine's first run.
    pub closed spec fn spec_pre_cancel(&self) -> bool {
        match self.inner {
            Handle::Pending { flags, .. } => flags.cancel,
            Handle::Live(_) => false,
        }
    }

    /// The unpark token recorded for the coroutine's first run.
    pub closed spec fn spec_pre_token(&self) -> bool {
        match self.inner {
            Handle::Pending { flags, .. } => flags.token,
            Handle::Live(_) => false,
        }
    }
}

impl<T: Send + 'static> JoinHandle<T> {
    /// Wait until the coroutine terminated and collect how: its value, its
    /// panic payload, or the cancel mark. A handle spawned outside any
    /// scheduler drives one on this thread until the coroutine finished.
    pub fn join(self) -> Result<T, JoinError> {
        match self.inner {
            Handle::Live(id) => {
                if in_coroutine() {
                    match co_suspend(Request::Join(id)) {
                        Response::Joined(Some(o)) => outcome_to_result::<T>(o),
                        Response::Joined(None) => Err(JoinError::Detached),
                        Response::Cancel => {
                            trigger_cancel_panic();
                            Err(JoinError::Cancelled)
                        }
                        _ => Err(JoinError::Detached),
                    }
                } else {
                    Err(JoinError::Detached)
                }
            }
            Handle::Pending { gen, flags, name } => {
                let mut rt = Runtime::new();
                let id = rt.adopt(gen, flags.cancel, flags.token, name);
                match rt.drive(id) {
                    Some(o) => outcome_to_result::<T>(o),
                    None => Err(JoinError::Detached),
                }
            }
        }
    }

    /// A reference to the coroutine, for unpark and cancel from inside a
    /// scheduler. For a coroutine not yet handed to a scheduler use the
    /// handle's own `cancel` and `unpark`, which record the request for its
    /// first run.
    pub fn coroutine(&self) -> CoroutineRef {
        match &self.inner {
            Handle::Live(id) => CoroutineRef::Live(*id),
            Handle::Pending { .. } => CoroutineRef::Detached,
        }
    }

    /// Request cancellation of the coroutine. On a handle not yet scheduled
    /// the request is latched and delivered at its first suspension point;
    /// the recorded unpark token is untouched.
    pub fn cancel(&mut self)
        ensures
            final(self).spec_is_pending() == old(self).spec_is_pending(),
            old(self).spec_is_pending() ==> final(self).spec_pre_cancel(),
            old(self).spec_is_pending() ==> final(self).spec_pre_token() == old(
                self,
            ).spec_pre_token(),
    {
        match &mut self.inner {
            Handle::Pending { flags, .. } => {
                flags.cancel = true;
            }
            Handle::Live(id) => {
                if in_coroutine() {
                    match co_suspend(Request::CancelCo(*id)) {
                        Response::Cancel => trigger_cancel_panic(),
                        _ => {}
                    }
                }
            }
        }
    }

    /// Unpark the coroutine. On a handle not yet scheduled the token is
    /// recorded, so the coroutine's first park returns at once; the recorded
    /// cancel request is untouched.
    pub fn unpark(&mut self)
        ensures
            final(self).spec_is_pending() == old(self).spec_is_pending(),
            old(self).spec_is_pending() ==> final(self).spec_pre_token(),
            old(self).spec_is_pending() ==> final(self).spec_pre_cancel() == old(
                self,
            ).spec_pre_cancel(),
    {
        match &mut self.inner {
            Handle::Pending { flags, .. } => {
                flags.token = true;
            }
            Handle::Live(id) => {
                if in_coroutine() {
                    match co_suspend(Request::Unpark(*id)) {
                        Response::Cancel => trigger_cancel_panic(),
                        _ => {}
                    }
                }
            }
        }
    }
}

/// Configuration of a coroutine to spawn: an optional name and a stack size
/// in machine words.
pub struct Builder {
    name: Option<String>,
    stack_words: Option<usize>,
}

impl Builder {
    /// The configured name.
    pub closed spec fn spec_name(&self) -> Option<String> {
        self.name
    }

    /// The configured stack size, in machine words.
    pub closed spec fn spec_stack_words(&self) -> Option<usize> {
        self.stack_words
    }

    pub fn new() -> (b: Builder)
        ensures
            b.spec_name() is None,
            b.spec_stack_words() is None,
    {
        Builder { name: None, stack_words: None }
    }

    /// Name the coroutine. The name travels with the spawn request and is
    /// kept by the scheduler; it does not affect scheduling.
    pub fn name(self, name: String) -> (b: Builder)
        ensures
            b.spec_name() == Some(name),
            b.spec_stack_words() == self.spec_stack_words(),
    {
        Builder { name: Some(name), stack_words: self.stack_words }
    }

    /// Set the coroutine's stack size, in machine words.
    pub fn stack_size(self, words: usize) -> (b: Builder)
        ensures
            b.spec_stack_words() == Some(words),
            b.spec_name() == self.spec_name(),
    {
        Builder { name: self.name, stack_words: Some(words) }
    }

    /// Spawn a coroutine running `f`. From inside a coroutine the new one
    /// joins the running scheduler; from plain thread context the handle
    /// owns it until the handle is joined.
    pub fn spawn<F, T>(self, f: F) -> JoinHandle<T> where
        F: FnOnce() -> T + Send + 'static,
        T: Send + 'static,
    {
        let words = match self.stack_words {
            Some(w) => w,
            None => DEFAULT_STACK_WORDS,
        };
        let body = co_body_new(f);
        if in_coroutine() {
            match co_suspend(Request::Spawn(body, words, self.name)) {
                Response::Spawned(id) => JoinHandle {
                    inner: Handle::Live(id),
                    _res: core::marker::PhantomData,
                },
                Response::Cancel => {
                    trigger_cancel_panic();
                    JoinHandle { inner: Handle::Live(usize::MAX), _res: core::marker::PhantomData }
                }
                _ => JoinHandle { inner: Handle::Live(usize::MAX), _res: core::marker::PhantomData },
            }
        } else {
            let mut g = make_gen(body, words);
            mark_coroutine(&mut g);
            JoinHandle {
                inner: Handle::Pending {
                    gen: g,
                    flags: (PreFlags { cancel: false, token: false }),
                    name: self.name,
                },
                _res: core::marker::PhantomData,
            }
        }
    }
}

/// Spawn a coroutine running `f` with the default stack size.
pub fn spawn<F, T>(f: F) -> JoinHandle<T> where
    F: FnOnce() -> T + Send + 'static,
    T: Send + 'static,
{
    Builder::new().spawn(f)
}

/// A scope for coroutines that borrow from the enclosing stack frame: every
/// coroutine spawned in it is driven to termination before the scope
/// returns.
pub struct Scope<'a> {
    rt: Runtime<'a>,
}

impl<'a> Scope<'a> {
    #[verifier::type_invariant]
    spec fn inv(self) -> bool {
        self.rt.wf()
    }

    /// The per-coroutine states of the scope's scheduler.
    pub closed spec fn spec_cos(&self) -> Seq<CoState> {
        self.rt.core.cos@
    }

    /// The ready queue of the scope's scheduler.
    pub closed spec fn spec_ready(&self) -> Seq<usize> {
        self.rt.core.ready@
    }

    /// Spawn a coroutine that may borrow anything the scope outlives: the
    /// scope's scheduler gains exactly one ready, not-yet-started coroutine,
    /// and the returned handle names it.
    pub fn spawn<F, T>(&mut self, f: F) -> (h: ScopedJoinHandle<T>) where
        F: FnOnce() -> T + Send + 'a,
        T: Send + 'static,

        ensures
            h.spec_id() == old(self).spec_cos().len(),
            final(self).spec_cos() == old(self).spec_cos().push(spawned_co(false, false)),
            final(self).spec_ready() == old(self).spec_ready().push(h.spec_id()),
    {
        proof {
            use_type_invariant(&*self);
        }
        let body = co_body_new(f);
        let mut rt = Runtime::new();
        core::mem::swap(&mut rt, &mut self.rt);
        let id = rt.spawn_body(body, DEFAULT_STACK_WORDS, None);
        core::mem::swap(&mut rt, &mut self.rt);
        ScopedJoinHandle { id, _res: core::marker::PhantomData }
    }

    /// Drive every coroutine of the scope to termination: when completion is
    /// reported, every coroutine the scope ever admitted has terminated and
    /// been accounted for. Completion is withheld only when the driver's
    /// fuel bound ran out. Idempotent: once everything terminated it returns
    /// at once.
    fn finish_all(&mut self) -> (complete: bool)
        ensures
            complete ==> forall|c: int|
                0 <= c < final(self).spec_cos().len() ==> spec_joined_away(
                    (#[trigger] final(self).spec_cos()[c]).status,
                ),
    {
        proof {
            use_type_invariant(&*self);
        }
        let mut rt = Runtime::new();
        core::mem::swap(&mut rt, &mut self.rt);
        let complete = rt.run_all();
        core::mem::swap(&mut rt, &mut self.rt);
        complete
    }
}

impl<'a> Drop for Scope<'a> {
    /// The scope joins its coroutines even when the scope body unwinds: the
    /// drop drives the same join-all as the normal path, where it finds
    /// everything already terminated and returns at once. Trusted because a
    /// verified drop must be proved non-unwinding, which the bridge calls
    /// inside the join cannot promise.
    #[verifier::external_body]
    fn drop(&mut self)
        opens_invariants none
        no_unwind
    {
        let _complete = self.finish_all();
    }
}

/// The handle of a scoped coroutine; the scope itself joins it.
pub struct ScopedJoinHandle<T> {
    id: usize,
    _res: core::marker::PhantomData<T>,
}

impl<T> ScopedJoinHandle<T> {
    /// The identifier of the coroutine in its scope's scheduler.
    pub closed spec fn spec_id(&self) -> usize {
        self.id
    }

    /// A reference to the coroutine, for unpark and cancel from inside the
    /// scope's scheduler.
    pub fn coroutine(&self) -> (r: CoroutineRef)
        ensures
            r == CoroutineRef::Live(self.spec_id()),
    {
        CoroutineRef::Live(self.id)
    }
}

/// Relies on `FnOnce::call_once`: runs the user's scope body with a mutable
/// borrow of the scope.
#[verifier::external_body]
fn run_scope_body<'a, F, R>(f: F, s: &mut Scope<'a>) -> (r: R) where F: FnOnce(&mut Scope<'a>) -> R {
    f(s)
}

/// Run `f` with a coroutine scope: coroutines spawned through the scope may
/// borrow from the caller's frame, and all of them have terminated — joined
/// by the scope — when `scope` returns. The same join-all also runs from the
/// scope's drop, so it is performed even when `f` panics and the scope
/// unwinds.
pub fn scope<'a, F, R>(f: F) -> R where F: FnOnce(&mut Scope<'a>) -> R {
    let mut s = Scope { rt: Runtime::new() };
    let r = run_scope_body(f, &mut s);
    let _complete = s.finish_all();
    r
}

/// Park the current coroutine until an unpark wakes it; a pending unpark
/// token (an unpark that came first) is consumed and the park returns at
/// once — wakeups are never lost. A suspension point: a pending enabled
/// cancel unwinds here. Outside a coroutine this is a no-op.
pub fn park() {
    if !in_coroutine() {
        return ;
    }
    match co_suspend(Request::Park) {
        Response::Cancel => trigger_cancel_panic(),
        _ => {}
    }
}

/// As `park`, but a timer wakes the coroutine after `dur` if no unpark came
/// first. Outside a coroutine the calling thread waits out the duration.
pub fn park_timeout(dur: core::time::Duration) {
    let ms = duration_ms(&dur);
    if in_coroutine() {
        match co_suspend(Request::ParkTimeout(ms)) {
            Response::Cancel => trigger_cancel_panic(),
            _ => {}
        }
    } else {
        wait_out_ms(ms);
    }
}

/// Suspend the current coroutine for at least `dur`: it sleeps on a slot no
/// unpark can reach, woken only by its timer (or by a cancel, which unwinds
/// it). Outside a coroutine the calling thread waits out the duration.
pub fn sleep(dur: core::time::Duration) {
    let ms = duration_ms(&dur);
    if in_coroutine() {
        match co_suspend(Request::Sleep(ms)) {
            Response::Cancel => trigger_cancel_panic(),
            _ => {}
        }
    } else {
        wait_out_ms(ms);
    }
}

/// A reference to the current coroutine, or `Detached` outside one.
pub fn current() -> CoroutineRef {
    if !in_coroutine() {
        return CoroutineRef::Detached;
    }
    match co_suspend(Request::Current) {
        Response::Id(id) => CoroutineRef::Live(id),
        Response::Cancel => {
            trigger_cancel_panic();
            CoroutineRef::Detached
        }
        _ => CoroutineRef::Detached,
    }
}

/// Hold the calling thread for `ms` milliseconds by polling the monotonic
/// clock.
fn wait_out_ms(ms: u64) {
    let start = now();
    let mut fuel: u64 = u64::MAX;
    loop
        invariant
            true,
        decreases fuel,
    {
        if fuel == 0 {
            return ;
        }
        fuel = fuel - 1;
        if elapsed_ms(&start) >= ms {
            return ;
        }
    }
}

} // verus!
