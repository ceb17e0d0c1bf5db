use coroutine::eventsource::completion_action;
use coroutine::eventsource::overlapped_issue;
use coroutine::eventsource::IssueAction;
use coroutine::eventsource::completion_worker_of;
use coroutine::eventsource::connect_pass;
use coroutine::eventsource::read_pass;
use coroutine::eventsource::readiness_subscribe;
use coroutine::eventsource::timeout_fire_cancels;
use coroutine::eventsource::Attempt;
use coroutine::eventsource::CompletionAction;
use coroutine::eventsource::ConnectPass;
use coroutine::eventsource::ReadPass;
use coroutine::eventsource::SubscribeAction;
use coroutine::eventsource::CONNECT_TIMEOUT_MS;
use coroutine::eventsource::EAGAIN;
use coroutine::eventsource::EALREADY;
use coroutine::eventsource::EINPROGRESS;
use coroutine::eventsource::EISCONN;
use coroutine::eventsource::ERROR_OPERATION_ABORTED;
use coroutine::eventsource::STATUS_CANCELLED;

#[test]
fn errno_constants_match_libc() {
    assert_eq!(EAGAIN, libc::EAGAIN);
    assert_eq!(coroutine::eventsource::EWOULDBLOCK, libc::EWOULDBLOCK);
    assert_eq!(EINPROGRESS, libc::EINPROGRESS);
    assert_eq!(EALREADY, libc::EALREADY);
    assert_eq!(EISCONN, libc::EISCONN);
}

#[test]
fn read_retry_consumes_only_would_block() {
    assert_eq!(read_pass(Attempt::Ready(17), false), ReadPass::Done(17));
    assert_eq!(read_pass(Attempt::Ready(0), true), ReadPass::Done(0));
    // would-block with no pending readiness: suspend
    assert_eq!(read_pass(Attempt::Fail(EAGAIN), false), ReadPass::Suspend);
    // would-block but the event raced in: retry at once, never suspend
    assert_eq!(read_pass(Attempt::Fail(EAGAIN), true), ReadPass::RetryNow);
    // a real error is returned verbatim, readiness or not
    let econnreset = 104;
    assert_eq!(read_pass(Attempt::Fail(econnreset), true), ReadPass::Fail(econnreset));
    assert_eq!(read_pass(Attempt::Fail(econnreset), false), ReadPass::Fail(econnreset));
}

#[test]
fn connect_retry_protocol() {
    assert_eq!(connect_pass(None, false), ConnectPass::Connected);
    assert_eq!(connect_pass(Some(EISCONN), false), ConnectPass::Connected);
    assert_eq!(connect_pass(Some(EINPROGRESS), false), ConnectPass::Suspend);
    assert_eq!(connect_pass(Some(EALREADY), false), ConnectPass::Suspend);
    assert_eq!(connect_pass(Some(EINPROGRESS), true), ConnectPass::RetryNow);
    let econnrefused = 111;
    assert_eq!(connect_pass(Some(econnrefused), true), ConnectPass::Fail(econnrefused));
    assert_eq!(CONNECT_TIMEOUT_MS, 2000);
}

#[test]
fn subscribe_reschedules_on_raced_event() {
    assert_eq!(readiness_subscribe(true, false), SubscribeAction::Reschedule);
    assert_eq!(readiness_subscribe(true, true), SubscribeAction::Reschedule);
    assert_eq!(readiness_subscribe(false, false), SubscribeAction::Wait);
    assert_eq!(readiness_subscribe(false, true), SubscribeAction::WaitThenCancel);
}

#[test]
fn completion_dispatch() {
    assert_eq!(completion_action(true, 0), CompletionAction::CollectWakeup);
    assert_eq!(completion_action(false, 0), CompletionAction::ResumeOk);
    assert_eq!(completion_action(false, STATUS_CANCELLED), CompletionAction::ResumeTimedOut);
    assert_eq!(
        completion_action(false, ERROR_OPERATION_ABORTED),
        CompletionAction::ResumeTimedOut
    );
    assert_eq!(completion_action(false, 0xC000_0005), CompletionAction::ResumeOsError);
}

#[test]
fn timeout_fire_respects_nulled_back_pointer() {
    assert!(timeout_fire_cancels(false));
    assert!(!timeout_fire_cancels(true));
}

#[test]
fn completion_worker_hash() {
    assert_eq!(completion_worker_of(0, 4), 0);
    assert_eq!(completion_worker_of(40, 4), 2);
    assert_eq!(completion_worker_of(41, 4), 2);
    assert_eq!(completion_worker_of(56, 4), 2);
    assert_eq!(completion_worker_of(7, 1), 0);
}

#[test]
fn io_pending_error_ends_the_operation() {
    assert_eq!(coroutine::eventsource::io_pending_result(None), Ok(()));
    let etimedout = 110;
    assert_eq!(coroutine::eventsource::io_pending_result(Some(etimedout)), Err(etimedout));
}

#[test]
fn overlapped_issue_delivers_synchronous_failure() {
    assert_eq!(overlapped_issue(None), IssueAction::Await);
    assert_eq!(overlapped_issue(Some(5)), IssueAction::DeliverError(5));
}
