//! Per-coroutine cancellation control.
//!
//! Each coroutine owns one cancel word. Bit 0 of the word records that
//! cancellation was requested; the higher bits form a disable counter, so
//! nested critical sections compose. While the counter is non-zero a pending
//! request stays latched and takes effect only once every region was left.
//!
//! Beside the word live two side slots for whatever currently represents the
//! coroutine's suspension: an outstanding kernel I/O registration (`io`, kept
//! behind the [`CancelIo`] contract) or the coroutine's park slot (`co`,
//! recorded by the identifier of the parked coroutine). At most one of the
//! two is populated at a time.

use vstd::prelude::*;

verus! {

/// Platform hook that can cancel an outstanding kernel I/O operation.
///
/// Implementations record the I/O registration of a suspended coroutine with
/// `set`, forget it with `clear`, and try to cancel it with `cancel`. The
/// model tracks only whether a registration is currently held.
pub trait CancelIo: Sized {
    type Data;

    /// Whether an I/O registration is currently held.
    spec fn spec_is_set(&self) -> bool;

    fn new() -> (r: Self)
        ensures
            !r.spec_is_set(),
    ;

    /// Record the I/O registration of the suspended coroutine. A hook that
    /// cannot cancel I/O (such as [`CancelIoImpl`]) may record nothing.
    fn set(&mut self, io_data: Self::Data);

    /// Forget the registration after the I/O completed.
    fn clear(&mut self)
        ensures
            !final(self).spec_is_set(),
    ;

    /// Ask the kernel to cancel the registered I/O, consuming the
    /// registration. Returns `Some(ok)` exactly when a registration was held,
    /// where `ok` tells whether the kernel accepted the request.
    fn cancel(&mut self) -> (r: Option<bool>)
        ensures
            r.is_some() == old(self).spec_is_set(),
            !final(self).spec_is_set(),
    ;
}

/// The no-op I/O cancel hook: used when kernel-side I/O cancellation is not
/// compiled in. It never holds a registration.
#[derive(Clone, Copy)]
pub struct CancelIoImpl;

impl CancelIo for CancelIoImpl {
    type Data = ();

    open spec fn spec_is_set(&self) -> bool {
        false
    }

    fn new() -> (r: Self) {
        CancelIoImpl
    }

    fn set(&mut self, _io_data: ()) {
    }

    fn clear(&mut self) {
    }

    fn cancel(&mut self) -> (r: Option<bool>) {
        None
    }
}

/// The cancel controller of one coroutine.
///
/// `state` encodes the whole word: `state % 2` is the cancel-requested bit,
/// `state / 2` is the disable counter. A request fires only when the word is
/// exactly 1: requested and not disabled.
#[derive(Clone, Copy)]
pub struct CancelImpl<T: CancelIo> {
    /// The cancel word: bit 0 is cancel-requested, higher bits disable.
    pub state: usize,
    /// The outstanding-I/O side slot.
    pub io: T,
    /// The park side slot: the identifier of the parked coroutine, if the
    /// suspension is a park rather than an I/O.
    pub co: Option<usize>,
}

/// The controller with the no-op I/O hook.
pub type Cancel = CancelImpl<CancelIoImpl>;

impl<T: CancelIo> CancelImpl<T> {
    /// Cancellation was requested (whether or not it is disabled).
    pub open spec fn spec_requested(&self) -> bool {
        self.state % 2 == 1
    }

    /// The disable counter is non-zero.
    pub open spec fn spec_disabled(&self) -> bool {
        self.state >= 2
    }

    /// A pending request takes effect: requested and not disabled.
    pub open spec fn spec_fires(&self) -> bool {
        self.state == 1
    }

    pub fn new() -> (r: Self)
        ensures
            r.state == 0,
            !r.io.spec_is_set(),
            r.co == None::<usize>,
    {
        CancelImpl { state: 0, io: T::new(), co: None }
    }

    /// Whether the cancel request fires: requested and not disabled.
    pub fn is_canceled(&self) -> (r: bool)
        ensures
            r == self.spec_fires(),
    {
        self.state == 1
    }

    /// Whether cancellation is currently disabled.
    pub fn is_disabled(&self) -> (r: bool)
        ensures
            r == self.spec_disabled(),
    {
        self.state >= 2
    }

    /// Enter a region in which cancellation stays latched but inert.
    pub fn disable_cancel(&mut self)
        requires
            old(self).state + 2 <= usize::MAX,
        ensures
            final(self).state == old(self).state + 2,
            final(self).spec_requested() == old(self).spec_requested(),
            final(self).io == old(self).io,
            final(self).co == old(self).co,
    {
        self.state = self.state + 2;
    }

    /// Leave a disabled region; a latched request becomes effective once the
    /// counter reaches zero again.
    pub fn enable_cancel(&mut self)
        requires
            old(self).state >= 2,
        ensures
            final(self).state == old(self).state - 2,
            final(self).spec_requested() == old(self).spec_requested(),
            final(self).io == old(self).io,
            final(self).co == old(self).co,
    {
        self.state = self.state - 2;
    }

    /// Whether the caller must now unwind with the cancel payload: a request
    /// is pending and not disabled. Callers inside a coroutine act on `true`
    /// by triggering the cancel unwind.
    pub fn check_cancel(&self) -> (r: bool)
        ensures
            r == self.spec_fires(),
    {
        self.state == 1
    }

    /// Request cancellation. Sets the cancel bit, tries the I/O side slot
    /// first, and otherwise takes the park side slot so the caller can wake
    /// and reschedule the parked coroutine. Returns the parked coroutine to
    /// wake, if any.
    pub fn cancel(&mut self) -> (woken: Option<usize>)
        ensures
            final(self).spec_requested(),
            final(self).state == if old(self).spec_requested() {
                old(self).state as int
            } else {
                old(self).state + 1
            },
            !final(self).io.spec_is_set(),
            final(self).co == if old(self).io.spec_is_set() {
                old(self).co
            } else {
                None::<usize>
            },
            woken == if old(self).io.spec_is_set() {
                None::<usize>
            } else {
                old(self).co
            },
    {
        if self.state % 2 == 0 {
            self.state = self.state + 1;
        }
        match self.io.cancel() {
            Some(_accepted) => {
                // the kernel drives the wakeup: the completion or the next
                // poll delivers the cancel to the suspended coroutine
                None
            }
            None => {
                let woken = self.co;
                self.co = None;
                woken
            }
        }
    }

    /// Clear the cancel bit so the controller can be reused; the disable
    /// counter is kept.
    pub fn clear_cancel_bit(&mut self)
        ensures
            final(self).state == 2 * (old(self).state / 2),
            final(self).io == old(self).io,
            final(self).co == old(self).co,
    {
        if self.state % 2 == 1 {
            self.state = self.state - 1;
        }
    }

    /// Record an outstanding I/O registration; called after the I/O request
    /// was registered. Must not be combined with a populated park slot.
    pub fn set_io(&mut self, io: T::Data)
        ensures
            final(self).state == old(self).state,
            final(self).co == old(self).co,
    {
        self.io.set(io);
    }

    /// Record the park slot of the suspended coroutine. Must not be combined
    /// with a populated I/O slot.
    pub fn set_co(&mut self, co: usize)
        ensures
            final(self).co == Some(co),
            final(self).state == old(self).state,
            final(self).io == old(self).io,
    {
        self.co = Some(co);
    }

    /// Take the park side slot back, on resume from a park.
    pub fn clear_co(&mut self)
        ensures
            final(self).co == None::<usize>,
            final(self).state == old(self).state,
            final(self).io == old(self).io,
    {
        self.co = None;
    }

    /// Forget the I/O registration, after the I/O completed.
    pub fn clear(&mut self)
        ensures
            !final(self).io.spec_is_set(),
            final(self).state == old(self).state,
            final(self).co == old(self).co,
    {
        self.io.clear();
    }
}

impl<T: CancelIo> Default for CancelImpl<T> {
    fn default() -> (r: Self)
        ensures
            r.state == 0,
            r.co == None::<usize>,
    {
        Self::new()
    }
}

/// Unwind the current coroutine with the distinguished cancel payload.
///
/// Relies on `generator::done`: it raises the crate's reserved termination
/// panic, which unwinds the coroutine's stack (running every drop) and
/// finishes the underlying generator without storing a panic payload, so the
/// scheduler records the coroutine as cancelled. Must only be called from
/// inside a running coroutine; the runtime calls it when a suspension
/// request is answered with a cancel.
#[verifier::external_body]
pub fn trigger_cancel_panic() {
    generator::done::<()>();
}

} // verus!
