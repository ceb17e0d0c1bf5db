use std::io::Read;
use std::io::Write;
use std::time::Duration;

use coroutine::eventsource::read_pass;
use coroutine::eventsource::Attempt;
use coroutine::eventsource::ReadPass;
use socket2::Domain;
use socket2::Socket;
use socket2::Type;

#[test]
fn stream_round_trip_preserves_order() {
    let (writer, reader) = Socket::pair(Domain::UNIX, Type::STREAM, None).unwrap();
    reader.set_nonblocking(true).unwrap();

    let expected = b"hello stream world";
    let mut collected: Vec<u8> = Vec::new();

    coroutine::scope(|s| {
        s.spawn(|| {
            let mut w = &writer;
            w.write_all(b"hello ").unwrap();
            coroutine::sleep(Duration::from_millis(10));
            w.write_all(b"stream ").unwrap();
            coroutine::sleep(Duration::from_millis(10));
            w.write_all(b"world").unwrap();
        });
        let sink = &mut collected;
        s.spawn(move || {
            let mut r = &reader;
            let mut buf = [0u8; 8];
            while sink.len() < expected.len() {
                let attempt = match r.read(&mut buf) {
                    Ok(n) => Attempt::Ready(n),
                    Err(e) => Attempt::Fail(e.raw_os_error().unwrap_or(-1)),
                };
                // the verified pass decides: return the bytes, surface a
                // real error, or wait for the peer
                match read_pass(attempt, false) {
                    ReadPass::Done(n) => sink.extend_from_slice(&buf[..n]),
                    ReadPass::Fail(raw) => panic!("read failed: {}", raw),
                    ReadPass::RetryNow => {}
                    ReadPass::Suspend => coroutine::yield_now(),
                }
            }
        });
    });

    // every byte arrives exactly once, in the order it was written
    assert_eq!(collected, expected);
}

#[test]
fn cancel_coroutine_stuck_in_io_retry() {
    // a coroutine looping on a descriptor that never becomes readable is
    // cancelled in bounded time: each suspension of the retry loop is a
    // yield point, and the cancel fires there
    let (_writer, reader) = Socket::pair(Domain::UNIX, Type::STREAM, None).unwrap();
    reader.set_nonblocking(true).unwrap();

    let mut got_data = false;
    coroutine::scope(|s| {
        let flag = &mut got_data;
        let h = s.spawn(move || {
            let mut r = &reader;
            let mut buf = [0u8; 8];
            loop {
                let attempt = match r.read(&mut buf) {
                    Ok(n) => Attempt::Ready(n),
                    Err(e) => Attempt::Fail(e.raw_os_error().unwrap_or(-1)),
                };
                match read_pass(attempt, false) {
                    ReadPass::Done(_) => {
                        *flag = true;
                        return;
                    }
                    ReadPass::Fail(raw) => panic!("read failed: {}", raw),
                    ReadPass::RetryNow => {}
                    ReadPass::Suspend => coroutine::yield_now(),
                }
            }
        });
        let target = h.coroutine();
        s.spawn(move || {
            coroutine::sleep(Duration::from_millis(10));
            target.cancel();
        });
    });
    assert!(!got_data);
}
