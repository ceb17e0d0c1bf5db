use std::time::Duration;
use std::time::Instant;

#[test]
fn cancel_before_first_suspension() {
    let mut j = coroutine::spawn(move || {
        println!("before");
        coroutine::park();
        println!("after");
        coroutine::sleep(Duration::from_secs(1000000));
    });

    j.cancel();

    match j.join() {
        Ok(_) => panic!("join of a cancelled coroutine must not succeed"),
        Err(e) => assert!(e.is_cancelled()),
    }
}

#[test]
fn cancel_parked_coroutine_from_peer() {
    let mut ran = false;
    let mut resumed_after_park = false;
    coroutine::scope(|scope| {
        let h = scope.spawn(|| {
            ran = true;
            coroutine::park();
            resumed_after_park = true;
        });
        let target = h.coroutine();
        scope.spawn(move || {
            target.cancel();
        });
    });
    assert!(ran);
    assert!(!resumed_after_park);
}

#[test]
fn cancel_sleeping_coroutine_resolves_quickly() {
    let started = Instant::now();
    let mut woke_normally = false;
    coroutine::scope(|scope| {
        let h = scope.spawn(|| {
            coroutine::sleep(Duration::from_secs(1000000));
            woke_normally = true;
        });
        let target = h.coroutine();
        scope.spawn(move || {
            coroutine::sleep(Duration::from_millis(10));
            target.cancel();
        });
    });
    assert!(!woke_normally);
    assert!(started.elapsed() < Duration::from_secs(100));
}

#[test]
fn cancel_is_idempotent() {
    let mut resumed_after_park = false;
    coroutine::scope(|scope| {
        let h = scope.spawn(|| {
            coroutine::park();
            resumed_after_park = true;
        });
        let target = h.coroutine();
        scope.spawn(move || {
            target.cancel();
            target.cancel();
            target.cancel();
        });
    });
    assert!(!resumed_after_park);
}

#[test]
fn unpark_before_park_is_not_lost() {
    let mut after_park = false;
    coroutine::scope(|scope| {
        scope.spawn(|| {
            let me = coroutine::current();
            me.unpark();
            // the token is pending: this park must return at once
            coroutine::park();
            after_park = true;
        });
    });
    assert!(after_park);
}

#[test]
fn unpark_token_recorded_before_first_run() {
    let mut j = coroutine::spawn(move || {
        coroutine::park();
        5
    });
    j.unpark();
    assert_eq!(j.join().ok().unwrap(), 5);
}

#[test]
fn park_timeout_sequence() {
    let mut reached_end = false;
    coroutine::scope(|scope| {
        let h = scope.spawn(|| {
            let me = coroutine::current();
            me.unpark();
            // pre-unparked: returns almost immediately
            let t0 = Instant::now();
            coroutine::park_timeout(Duration::from_millis(100));
            assert!(t0.elapsed() < Duration::from_millis(100));

            // no unpark: waits out the timeout
            let t1 = Instant::now();
            coroutine::park_timeout(Duration::from_millis(10));
            assert!(t1.elapsed() >= Duration::from_millis(10));

            // an external unpark arrives first: returns before the deadline
            let t2 = Instant::now();
            coroutine::park_timeout(Duration::from_millis(100000));
            assert!(t2.elapsed() < Duration::from_millis(100000));
            reached_end = true;
        });
        let target = h.coroutine();
        scope.spawn(move || {
            coroutine::sleep(Duration::from_millis(50));
            target.unpark();
        });
    });
    assert!(reached_end);
}

#[test]
fn join_returns_value_from_inner_spawn() {
    let j = coroutine::spawn(move || {
        let inner = coroutine::spawn(move || 41);
        inner.join().ok().unwrap() + 1
    });
    assert_eq!(j.join().ok().unwrap(), 42);
}

#[test]
fn panic_payload_of_string_type() {
    let j = coroutine::spawn(move || {
        let boom = format!("boom {}", 1);
        panic!("{}", boom);
    });
    match j.join() {
        Ok(_) => panic!("test should return panic"),
        Err(e) => {
            assert!(e.is_panic());
            assert_eq!(e.downcast_ref::<String>().unwrap(), "boom 1");
        }
    }
}

#[test]
fn sleep_lower_bound_inside_coroutine() {
    let j = coroutine::spawn(move || {
        let t = Instant::now();
        coroutine::sleep(Duration::from_millis(20));
        t.elapsed() >= Duration::from_millis(20)
    });
    assert!(j.join().ok().unwrap());
}

#[test]
fn scope_joins_every_coroutine_before_returning() {
    let mut done = [false; 8];
    coroutine::scope(|scope| {
        for d in &mut done {
            scope.spawn(move || {
                coroutine::yield_now();
                *d = true;
            });
        }
    });
    assert!(done.iter().all(|d| *d));
}

#[test]
fn builder_spawn_with_name_and_stack() {
    let j = coroutine::Builder::new()
        .name("parent".to_owned())
        .stack_size(0x8000)
        .spawn(move || {
            let me = coroutine::current();
            assert!(matches!(me, coroutine::CoroutineRef::Live(_)));
            7
        });
    assert_eq!(j.join().ok().unwrap(), 7);
}
