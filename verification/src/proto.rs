//! The conversation between a running coroutine and its scheduler.
//!
//! A coroutine hands control back by yielding a [`Request`]; the scheduler
//! acts on it and resumes the coroutine with a [`Response`]. A request that
//! suspends (park, timed park, sleep, a join of an unfinished coroutine) is
//! answered only when the coroutine is next scheduled; a service request
//! (spawn, unpark, cancel, current) is answered at once.

use crate::bridge::AnyBox;
use crate::bridge::CoBody;
use vstd::prelude::*;

verus! {

/// What a coroutine asks of the scheduler when it hands control back.
pub enum Request {
    /// The body returned: here is its boxed result. This is the final yield
    /// of every coroutine that terminates normally.
    Fin(AnyBox),
    /// Give up the rest of the timeslice; stay ready.
    Yield,
    /// Park until unparked (or immediately, on a pending unpark token).
    Park,
    /// Park, but let a timer wake the coroutine after this many
    /// milliseconds.
    ParkTimeout(u64),
    /// Suspend on a slot no unpark can reach, woken only by the timer.
    Sleep(u64),
    /// Start a new coroutine: its body, its stack size in words, its name.
    Spawn(CoBody<'static>, usize, Option<String>),
    /// Wait until the named coroutine finished and take its outcome.
    Join(usize),
    /// Wake the named coroutine from a park, or leave it an unpark token.
    Unpark(usize),
    /// Request cancellation of the named coroutine.
    CancelCo(usize),
    /// Ask for the identifier of the requesting coroutine.
    Current,
}

/// What the scheduler answers when it resumes a coroutine.
pub enum Response {
    /// Continue normally (a park was answered by an unpark, a service
    /// request was done).
    Resume,
    /// A timed park's timer fired before any unpark.
    TimedOut,
    /// Cancellation was requested and is enabled: unwind now.
    Cancel,
    /// The spawned coroutine got this identifier.
    Spawned(usize),
    /// The joined coroutine finished with this outcome; `None` when the
    /// identifier named no joinable coroutine.
    Joined(Option<Outcome>),
    /// The requesting coroutine's identifier.
    Id(usize),
}

/// How a finished coroutine ended: these are the values a join delivers.
pub enum Outcome {
    /// The body returned this boxed value.
    Normal(AnyBox),
    /// The body panicked with this captured payload.
    Panicked(AnyBox),
    /// The coroutine was cancelled and unwound.
    Cancelled,
}

} // verus!
