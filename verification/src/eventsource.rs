//! The event-source protocols of the I/O layer, as verified decision logic.
//!
//! An I/O operation suspends the coroutine and resumes it when the kernel
//! reports readiness (one kernel family) or completion (the other). The
//! system calls themselves are performed by the unverified edge around the
//! library; every decision those loops take — which errors are transient,
//! when to retry, when to suspend, what a completion status means, whether a
//! fired timeout may still touch its I/O — is a function from plain values
//! to plain values, stated and verified here.

use vstd::prelude::*;

verus! {

/// The platform C library's error numbers for this target, as `libc`
/// defines them: the codes the retry protocols inspect.
pub const EAGAIN: i32 = 11;

/// Equal to [`EAGAIN`] on this target; both spellings are matched, as the
/// kernel interface documents either.
pub const EWOULDBLOCK: i32 = 11;

/// A connect was started and is in progress.
pub const EINPROGRESS: i32 = 115;

/// A connect is already in progress.
pub const EALREADY: i32 = 114;

/// The socket is already connected: a retried connect has succeeded.
pub const EISCONN: i32 = 106;

/// Every connect carries this default timeout, in milliseconds.
pub const CONNECT_TIMEOUT_MS: u64 = 2000;

/// The outcome of one non-blocking system call attempt: the transferred
/// byte count, or the raw error number.
#[derive(Clone, Copy, PartialEq, Eq, Structural, Debug)]
pub enum Attempt {
    Ready(usize),
    Fail(i32),
}

/// What one pass of a readiness read/write retry loop does next.
#[derive(Clone, Copy, PartialEq, Eq, Structural, Debug)]
pub enum ReadPass {
    /// The call transferred this many bytes: return them.
    Done(usize),
    /// A real error: return it to the caller.
    Fail(i32),
    /// The call would block, but readiness arrived meanwhile: try at once.
    RetryNow,
    /// The call would block and no readiness is pending: suspend until the
    /// selector reports the descriptor ready.
    Suspend,
}

/// The error is transient for a read or write: the retry loop consumes it.
pub open spec fn spec_transient_rw(e: i32) -> bool {
    e == EAGAIN || e == EWOULDBLOCK
}

/// The decision of one readiness retry pass, as a function of the attempt's
/// outcome and the readiness flag re-read after it.
pub open spec fn spec_read_pass(attempt: Attempt, flag_after: bool) -> ReadPass {
    match attempt {
        Attempt::Ready(n) => ReadPass::Done(n),
        Attempt::Fail(e) => if spec_transient_rw(e) {
            if flag_after {
                ReadPass::RetryNow
            } else {
                ReadPass::Suspend
            }
        } else {
            ReadPass::Fail(e)
        },
    }
}

/// One pass of the readiness retry loop for reads and writes, taken after
/// the loop cleared the readiness flag and attempted the system call;
/// `flag_after` is the readiness flag as re-read after the attempt. Only a
/// would-block error is consumed; every other error ends the operation.
pub fn read_pass(attempt: Attempt, flag_after: bool) -> (s: ReadPass)
    ensures
        s == spec_read_pass(attempt, flag_after),
{
    match attempt {
        Attempt::Ready(n) => ReadPass::Done(n),
        Attempt::Fail(e) => {
            if e == EAGAIN || e == EWOULDBLOCK {
                if flag_after {
                    ReadPass::RetryNow
                } else {
                    ReadPass::Suspend
                }
            } else {
                ReadPass::Fail(e)
            }
        }
    }
}

/// What one pass of the connect retry loop does next.
#[derive(Clone, Copy, PartialEq, Eq, Structural, Debug)]
pub enum ConnectPass {
    /// The stream is connected: hand it to the caller.
    Connected,
    /// A real error: return it.
    Fail(i32),
    /// Still in progress, but readiness arrived meanwhile: try at once.
    RetryNow,
    /// Still in progress: suspend until the selector reports the socket.
    Suspend,
}

/// The error is transient for a connect: the retry loop consumes it.
pub open spec fn spec_transient_connect(e: i32) -> bool {
    e == EINPROGRESS || e == EALREADY
}

/// The decision of one connect retry pass, as a function of the attempt's
/// error and the readiness flag re-read after it.
pub open spec fn spec_connect_pass(attempt_err: Option<i32>, flag_after: bool) -> ConnectPass {
    match attempt_err {
        None => ConnectPass::Connected,
        Some(e) => if e == EISCONN {
            ConnectPass::Connected
        } else if spec_transient_connect(e) {
            if flag_after {
                ConnectPass::RetryNow
            } else {
                ConnectPass::Suspend
            }
        } else {
            ConnectPass::Fail(e)
        },
    }
}

/// One pass of the connect retry loop. A connect that reports the socket
/// already connected has succeeded; in-progress reports are consumed; every
/// other error ends the operation.
pub fn connect_pass(attempt_err: Option<i32>, flag_after: bool) -> (s: ConnectPass)
    ensures
        s == spec_connect_pass(attempt_err, flag_after),
        attempt_err is None ==> s == ConnectPass::Connected,
        attempt_err == Some(EISCONN) ==> s == ConnectPass::Connected,
{
    match attempt_err {
        None => ConnectPass::Connected,
        Some(e) => {
            if e == EISCONN {
                ConnectPass::Connected
            } else if e == EINPROGRESS || e == EALREADY {
                if flag_after {
                    ConnectPass::RetryNow
                } else {
                    ConnectPass::Suspend
                }
            } else {
                ConnectPass::Fail(e)
            }
        }
    }
}

/// The test at the top of every retry pass: an error delivered by the
/// wakeup path (a timed-out I/O timer, or a kernel error carried by the
/// completion) ends the operation with that error before anything is
/// attempted again.
pub fn io_pending_result(pending_err: Option<i32>) -> (r: Result<(), i32>)
    ensures
        pending_err is None <==> r is Ok,
        pending_err is Some ==> r == Result::<(), i32>::Err(pending_err->Some_0),
{
    match pending_err {
        None => Ok(()),
        Some(e) => Err(e),
    }
}

/// What the completion subscribe path does after issuing the overlapped
/// system call with the coroutine already stored in the event descriptor.
#[derive(Clone, Copy, PartialEq, Eq, Structural, Debug)]
pub enum IssueAction {
    /// The call was accepted: await the completion packet; the selector
    /// resumes the coroutine.
    Await,
    /// The call failed synchronously: take the coroutine back and schedule
    /// it at once with the error.
    DeliverError(i32),
}

/// The decision after issuing an overlapped operation: a synchronous failure
/// is delivered to the coroutine directly, anything else awaits the
/// completion port.
pub fn overlapped_issue(issue_err: Option<i32>) -> (a: IssueAction)
    ensures
        issue_err is None ==> a == IssueAction::Await,
        issue_err is Some ==> a == IssueAction::DeliverError(issue_err->Some_0),
{
    match issue_err {
        None => IssueAction::Await,
        Some(e) => IssueAction::DeliverError(e),
    }
}

/// What the readiness subscribe path does once the yielded coroutine has
/// been stored into the event descriptor's slot.
#[derive(Clone, Copy, PartialEq, Eq, Structural, Debug)]
pub enum SubscribeAction {
    /// The event already fired while the coroutine yielded: schedule it
    /// again at once, taking it back out of the slot.
    Reschedule,
    /// No event yet: leave the coroutine in the slot for the selector, and
    /// register the descriptor with the cancel controller.
    Wait,
    /// As `Wait`, but a cancel request arrived meanwhile: after registering,
    /// deliver the cancel so the coroutine is not stranded.
    WaitThenCancel,
}

/// The subscribe decision as a function of the two flags it reads.
pub open spec fn spec_readiness_subscribe(flag_set: bool, cancel_requested: bool) -> SubscribeAction {
    if flag_set {
        SubscribeAction::Reschedule
    } else if cancel_requested {
        SubscribeAction::WaitThenCancel
    } else {
        SubscribeAction::Wait
    }
}

/// The subscribe decision of the readiness event source: `flag_set` is the
/// readiness flag as read after the coroutine was stored, `cancel_requested`
/// the target's cancel bit re-read after registering the descriptor.
pub fn readiness_subscribe(flag_set: bool, cancel_requested: bool) -> (a: SubscribeAction)
    ensures
        a == spec_readiness_subscribe(flag_set, cancel_requested),
        flag_set ==> a == SubscribeAction::Reschedule,
        !flag_set && !cancel_requested ==> a == SubscribeAction::Wait,
        !flag_set && cancel_requested ==> a == SubscribeAction::WaitThenCancel,
{
    if flag_set {
        SubscribeAction::Reschedule
    } else if cancel_requested {
        SubscribeAction::WaitThenCancel
    } else {
        SubscribeAction::Wait
    }
}

/// A readiness event is never lost across the yield: a transient error with
/// the flag raised retries at once and never suspends; one with the flag
/// clear suspends, and if the event then arrives before subscribe re-reads
/// the flag, the coroutine is rescheduled at once — whatever the cancel bit
/// says — instead of being left in the slot.
pub proof fn lemma_no_lost_readiness_event(e: i32, cancel_requested: bool)
    requires
        spec_transient_rw(e),
    ensures
        spec_read_pass(Attempt::Fail(e), true) == ReadPass::RetryNow,
        spec_read_pass(Attempt::Fail(e), false) == ReadPass::Suspend,
        spec_readiness_subscribe(true, cancel_requested) == SubscribeAction::Reschedule,
{
}

/// The kernel completion status word of a finished overlapped operation,
/// reduced to what the selector distinguishes. These are the system's own
/// values: no error, the cancelled status, and the aborted error.
pub const NO_ERROR: u32 = 0;

/// The NTSTATUS a cancelled overlapped operation completes with.
pub const STATUS_CANCELLED: u32 = 0xC000_0120;

/// The error a cancelled I/O operation may report instead.
pub const ERROR_OPERATION_ABORTED: u32 = 995;

/// What the completion selector does with one dequeued completion packet.
#[derive(Clone, Copy, PartialEq, Eq, Structural, Debug)]
pub enum CompletionAction {
    /// A packet with no overlapped block is the wakeup the runtime posts to
    /// itself: collect newly queued work, resume nobody.
    CollectWakeup,
    /// The operation was cancelled by its timer: resume the coroutine with a
    /// timed-out error — cancellation of the I/O by timeout is never
    /// confused with cancellation of the coroutine.
    ResumeTimedOut,
    /// The operation completed: resume the coroutine normally; it reads the
    /// transferred size from the overlapped block.
    ResumeOk,
    /// Any other status: convert it to the system error and resume the
    /// coroutine with that error.
    ResumeOsError,
}

/// The completion dispatch of the selector loop: `overlapped_null` says the
/// packet carried no overlapped block, `status` is the status word read from
/// the block otherwise.
pub fn completion_action(overlapped_null: bool, status: u32) -> (a: CompletionAction)
    ensures
        overlapped_null ==> a == CompletionAction::CollectWakeup,
        !overlapped_null && (status == STATUS_CANCELLED || status == ERROR_OPERATION_ABORTED)
            ==> a == CompletionAction::ResumeTimedOut,
        !overlapped_null && status == NO_ERROR ==> a == CompletionAction::ResumeOk,
        !overlapped_null && status != NO_ERROR && status != STATUS_CANCELLED && status
            != ERROR_OPERATION_ABORTED ==> a == CompletionAction::ResumeOsError,
{
    if overlapped_null {
        CompletionAction::CollectWakeup
    } else if status == STATUS_CANCELLED || status == ERROR_OPERATION_ABORTED {
        CompletionAction::ResumeTimedOut
    } else if status == NO_ERROR {
        CompletionAction::ResumeOk
    } else {
        CompletionAction::ResumeOsError
    }
}

/// Whether a fired I/O timeout may still cancel its operation: only when the
/// selector has not yet nulled the timer's back-pointer. After the selector
/// dequeued the completion it nulls the pointer, so a later fire touches
/// nothing: the fire-after-resume is a harmless no-op.
pub fn timeout_fire_cancels(back_ptr_null: bool) -> (cancel_io: bool)
    ensures
        cancel_io == !back_ptr_null,
{
    !back_ptr_null
}

/// The completion worker that owns a handle: the handle shifted right two
/// bits, split over the workers.
pub fn completion_worker_of(handle: usize, workers: usize) -> (id: usize)
    requires
        workers > 0,
    ensures
        id == ((handle as int) / 4) % (workers as int),
        id < workers,
{
    (handle / 4) % workers
}

} // verus!
