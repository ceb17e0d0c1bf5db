//! A stackful coroutine runtime: cooperative tasks with their own stacks,
//! park/unpark with coalesced wakeups, timed parking and sleep, asynchronous
//! cancellation, and join handles that deliver a result or a captured panic.
//!
//! The scheduling state machine (ready queue, park slots, timers, cancel
//! words, join slots) is verified; the stack switching itself is performed by
//! the `generator` crate behind a small trusted bridge.

pub mod api;
pub mod bridge;
pub mod cancel;
pub mod eventsource;
pub mod laws;
pub mod proto;
pub mod runtime;
pub mod sched;
pub mod yield_now;

pub use api::current;
pub use api::park;
pub use api::park_timeout;
pub use api::scope;
pub use api::sleep;
pub use api::spawn;
pub use api::Builder;
pub use api::CoroutineRef;
pub use api::JoinError;
pub use api::JoinHandle;
pub use api::Scope;
pub use api::ScopedJoinHandle;
pub use cancel::trigger_cancel_panic;
pub use cancel::Cancel;
pub use cancel::CancelImpl;
pub use cancel::CancelIo;
pub use cancel::CancelIoImpl;
pub use yield_now::yield_now;
pub use yield_now::Yield;
