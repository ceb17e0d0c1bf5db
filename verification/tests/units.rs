use coroutine::sched::Deliver;
use coroutine::sched::ParkDecision;
use coroutine::sched::Scheduler;
use coroutine::Cancel;
use coroutine::CancelImpl;

#[test]
fn cancel_word_encoding() {
    let mut c: Cancel = CancelImpl::new();
    assert!(!c.is_canceled());
    assert!(!c.is_disabled());
    assert!(!c.check_cancel());

    c.disable_cancel();
    assert!(c.is_disabled());
    let woken = c.cancel();
    assert!(woken.is_none());
    // requested but disabled: the request is latched, it does not fire
    assert!(!c.is_canceled());
    c.enable_cancel();
    assert!(!c.is_disabled());
    assert!(c.is_canceled());
    assert!(c.check_cancel());

    c.clear_cancel_bit();
    assert!(!c.is_canceled());
}

#[test]
fn cancel_takes_park_slot() {
    let mut c: Cancel = CancelImpl::new();
    c.set_co(3);
    let woken = c.cancel();
    assert_eq!(woken, Some(3));
    // the slot was taken: a second cancel wakes nobody
    let again = c.cancel();
    assert_eq!(again, None);
}

#[test]
fn nested_disable_regions_compose() {
    let mut c: Cancel = CancelImpl::new();
    c.disable_cancel();
    c.disable_cancel();
    let _ = c.cancel();
    c.enable_cancel();
    assert!(!c.is_canceled());
    c.enable_cancel();
    assert!(c.is_canceled());
}

#[test]
fn core_park_coalesces_unpark() {
    let mut s = Scheduler::new();
    let id = s.add_co(false, false);
    let (popped, d) = s.pop_ready().unwrap();
    assert_eq!(popped, id);
    assert_eq!(d, Deliver::Start);

    // unpark a running coroutine: the token is left for its next park
    s.unpark(id);
    assert_eq!(s.co_park(id), ParkDecision::Immediate);

    // no token any more: the next park suspends
    assert_eq!(s.co_park(id), ParkDecision::Suspend);

    // and an unpark then wakes it with a normal delivery
    s.unpark(id);
    let (again, d2) = s.pop_ready().unwrap();
    assert_eq!(again, id);
    assert_eq!(d2, Deliver::Normal);
}

#[test]
fn core_timer_fires_only_when_due() {
    let mut s = Scheduler::new();
    let id = s.add_co(false, false);
    let _ = s.pop_ready().unwrap();
    assert_eq!(s.co_park_timeout(id, 100, 50), ParkDecision::Suspend);
    assert_eq!(s.next_deadline(), Some(150));

    // before the deadline nothing fires
    assert!(!s.fire_one(149));
    assert!(s.pop_ready().is_none());

    // at the deadline the coroutine is woken with a timed delivery
    assert!(s.fire_one(150));
    let (woken, d) = s.pop_ready().unwrap();
    assert_eq!(woken, id);
    assert_eq!(d, Deliver::TimedOut);
}

#[test]
fn core_cancel_of_parked_delivers_cancel() {
    let mut s = Scheduler::new();
    let id = s.add_co(false, false);
    let _ = s.pop_ready().unwrap();
    assert_eq!(s.co_park(id), ParkDecision::Suspend);

    s.cancel_co(id);
    let (woken, d) = s.pop_ready().unwrap();
    assert_eq!(woken, id);
    assert_eq!(d, Deliver::Cancel);
}

#[test]
fn core_stale_timer_is_harmless() {
    let mut s = Scheduler::new();
    let id = s.add_co(false, false);
    let _ = s.pop_ready().unwrap();
    assert_eq!(s.co_park_timeout(id, 10, 0), ParkDecision::Suspend);

    // an unpark wins the race: the coroutine is woken normally
    s.unpark(id);
    let (_, d) = s.pop_ready().unwrap();
    assert_eq!(d, Deliver::Normal);

    // the stale timer still fires, but wakes nobody
    assert!(s.fire_one(1000));
    assert!(s.pop_ready().is_none());
}

#[test]
fn spawn_name_is_kept() {
    let mut rt = coroutine::runtime::Runtime::new();
    let body = coroutine::bridge::co_body_new(|| 1u32);
    let id = rt.spawn_body(body, 0x4000, Some("worker".to_owned()));
    assert_eq!(rt.co_name(id), &Some("worker".to_owned()));
    let anon = coroutine::bridge::co_body_new(|| 2u32);
    let id2 = rt.spawn_body(anon, 0x4000, None);
    assert_eq!(rt.co_name(id2), &None);
}
