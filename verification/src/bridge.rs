//! Trusted bridge to the `generator` crate and to the system clock.
//!
//! Everything that swaps stacks, captures panics, or reads the wall clock
//! lives here, behind small wrappers whose contracts the rest of the library
//! is verified against. The scheduler itself never touches a stack or the
//! clock directly: it decides over plain values and calls these wrappers.

use crate::proto::Request;
use crate::proto::Response;
use vstd::prelude::*;

verus! {

/// An opaque boxed value: the result of a coroutine body or the payload of a
/// captured panic, carried through the scheduler without being inspected.
#[verifier::external_body]
pub struct AnyBox {
    inner: Box<dyn core::any::Any + Send>,
}

impl AnyBox {
    /// Relies on `Box::new`: boxes the value unchanged.
    #[verifier::external_body]
    pub fn new<T: Send + 'static>(v: T) -> (r: AnyBox) {
        AnyBox { inner: Box::new(v) }
    }

    /// Relies on `Box::downcast`: returns the boxed value when it has type
    /// `T`, and the untouched box otherwise.
    #[verifier::external_body]
    pub fn downcast<T: Send + 'static>(self) -> (r: Result<T, AnyBox>) {
        match self.inner.downcast::<T>() {
            Ok(v) => Ok(*v),
            Err(inner) => Err(AnyBox { inner }),
        }
    }

    /// Relies on `<dyn Any>::downcast_ref`: returns a reference to the boxed
    /// value when it has type `T`.
    #[verifier::external_body]
    pub fn downcast_ref<T: 'static>(&self) -> (r: Option<&T>) {
        self.inner.downcast_ref::<T>()
    }
}

/// The body of a coroutine that was not started yet, boxed so that one
/// scheduler can own bodies of every result type: running it produces the
/// boxed result.
#[verifier::external_body]
pub struct CoBody<'a> {
    f: Box<dyn FnOnce() -> AnyBox + Send + 'a>,
}

/// Relies on `Box::new`: wraps a coroutine body so that running the wrapper
/// runs the body and boxes its result.
#[verifier::external_body]
pub fn co_body_new<'a, T, F>(f: F) -> (r: CoBody<'a>) where
    T: Send + 'static,
    F: FnOnce() -> T + Send + 'a,
{
    CoBody { f: Box::new(move || AnyBox::new(f())) }
}

/// The suspended execution of one coroutine: a generator that yields
/// requests and is resumed with responses. It holds `generator::Generator`
/// opaquely: that type cannot be declared to the verifier, because the
/// underlying ADT (`GeneratorObj`, which carries a const generic) is not
/// publicly nameable, only its alias is.
#[verifier::external_body]
pub struct CoGen<'a> {
    g: generator::Generator<'a, Response, Request>,
}

/// Relies on `Gn::new_opt`: builds the generator of a coroutine with the
/// given stack size in words; running it runs the body, and its final value
/// carries the body's boxed result. A panic of the body is caught inside the
/// generator and kept for `gen_take_panic`. (`new_opt`, unlike the scoped
/// constructor, wires the context's send/yield slots, which the coroutine
/// yield primitives go through.)
#[verifier::external_body]
pub fn make_gen<'a>(body: CoBody<'a>, stack_words: usize) -> (g: CoGen<'a>) {
    CoGen {
        g: generator::Gn::<Response>::new_opt(stack_words, move || Request::Fin((body.f)())),
    }
}

/// Relies on `GeneratorObj::set_local_data`: marks the generator as a
/// coroutine. The mark keeps a panic of the body inside the generator
/// (instead of propagating it to the scheduler) and lets the coroutine yield
/// primitives find this context from anywhere on its stack. Must be called
/// before the first resume.
#[verifier::external_body]
pub fn mark_coroutine<'a>(g: &mut CoGen<'a>) {
    g.g.set_local_data(std::ptr::dangling_mut());
}

/// Relies on `GeneratorObj::raw_send`: resumes the coroutine, passing the
/// response (`None` for the first start), and returns what it yields or
/// finally returns. `None` means it stopped without a value: a panic or a
/// cancel unwind ended it, or it was already done.
#[verifier::external_body]
pub fn gen_raw_send<'a>(g: &mut CoGen<'a>, resp: Option<Response>) -> (r: Option<Request>) {
    g.g.raw_send(resp)
}

/// Relies on `GeneratorObj::get_panic_data`: takes the payload of a panic
/// that ended the coroutine, if one was captured. The reserved cancel and
/// termination payloads are filtered inside the generator and never stored,
/// so a cancelled coroutine yields `None` here.
#[verifier::external_body]
pub fn gen_take_panic<'a>(g: &mut CoGen<'a>) -> (r: Option<AnyBox>) {
    g.g.get_panic_data().map(|inner| AnyBox { inner })
}

/// Relies on `generator::get_local_data`: it is non-null exactly when a
/// context marked by `mark_coroutine` stands on the current stack chain — a
/// coroutine of this runtime, rather than a raw generator of the stack-swap
/// crate, whose contexts read null. The coroutine yield primitives must only
/// be used where this is true.
#[verifier::external_body]
pub fn in_coroutine() -> (r: bool) {
    !generator::get_local_data().is_null()
}

/// Relies on `generator::co_yield_with`: suspends the current coroutine and
/// hands the request to the scheduler that resumed it. Must only be called
/// from inside a running coroutine.
#[verifier::external_body]
pub fn co_yield(req: Request) {
    generator::co_yield_with(req);
}

/// Relies on `generator::co_get_yield`: reads the scheduler's response after
/// the coroutine was resumed, or `None` when there is no response (the
/// coroutine was resumed by a drop or a raw cancel rather than by its
/// scheduler). What a missing response means is decided by the caller.
#[verifier::external_body]
pub fn co_fetch() -> (r: Option<Response>) {
    generator::co_get_yield::<Response>()
}

/// A point of the monotonic clock, held opaquely.
#[verifier::external_body]
pub struct Clock {
    t: std::time::Instant,
}

/// Relies on `Instant::now`: the current point of the monotonic clock.
#[verifier::external_body]
pub fn now() -> (r: Clock) {
    Clock { t: std::time::Instant::now() }
}

/// Relies on `Instant::elapsed`: whole milliseconds since `t`, saturated to
/// `u64`.
#[verifier::external_body]
pub fn elapsed_ms(t: &Clock) -> (r: u64) {
    u64::try_from(t.t.elapsed().as_millis()).unwrap_or(u64::MAX)
}

/// Relies on `Duration::as_millis`: whole milliseconds, saturated to `u64`.
#[verifier::external_body]
pub fn duration_ms(d: &core::time::Duration) -> (r: u64) {
    u64::try_from(d.as_millis()).unwrap_or(u64::MAX)
}

} // verus!
