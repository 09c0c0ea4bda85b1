//! Readiness bookkeeping: waker records, the source table, and the
//! dispatching of poller events.

use async_io::handle::Async;
use async_io::reactor::{Reactor, ReadinessPoll};
use async_io::wakers::{Direction, WakerRecord};

#[test]
fn fresh_record_is_empty() {
    let rec = WakerRecord::new();
    assert_eq!(rec.tick_readable, 0);
    assert_eq!(rec.tick_writable, 0);
    assert!(rec.readers.is_empty());
    assert!(rec.writers.is_empty());
}

#[test]
fn register_then_fire_wakes_in_fifo_order() {
    let mut rec = WakerRecord::new();
    rec.register(Direction::Read, 11);
    rec.register(Direction::Read, 22);
    rec.register(Direction::Read, 33);
    let woken = rec.fire(Direction::Read);
    assert_eq!(woken, vec![11, 22, 33]);
    assert_eq!(rec.tick_readable, 1);
    assert!(rec.readers.is_empty());
}

#[test]
fn register_deduplicates_same_waker() {
    let mut rec = WakerRecord::new();
    rec.register(Direction::Write, 7);
    rec.register(Direction::Write, 7);
    rec.register(Direction::Write, 9);
    rec.register(Direction::Write, 7);
    let woken = rec.fire(Direction::Write);
    assert_eq!(woken, vec![7, 9]);
}

#[test]
fn interest_reports_both_directions() {
    let mut rec = WakerRecord::new();
    let interest = rec.register(Direction::Read, 1);
    assert!(interest.readable);
    assert!(!interest.writable);
    let interest = rec.register(Direction::Write, 2);
    assert!(interest.readable);
    assert!(interest.writable);
    rec.fire(Direction::Read);
    let interest = rec.register(Direction::Write, 3);
    assert!(!interest.readable);
    assert!(interest.writable);
}

#[test]
fn tick_check_sees_readiness_between_syscall_and_registration() {
    let mut rec = WakerRecord::new();
    // A task captures the tick, then its syscall reports `WouldBlock`.
    let since = rec.current_tick(Direction::Read);
    // The event races in before the waker is stored.
    rec.fire(Direction::Read);
    // The re-check under the lock observes the advanced tick: no lost wake.
    assert!(rec.readiness_since(Direction::Read, since));
}

#[test]
fn directions_do_not_interfere() {
    let mut rec = WakerRecord::new();
    rec.register(Direction::Read, 5);
    rec.register(Direction::Write, 6);
    let woken = rec.fire(Direction::Write);
    assert_eq!(woken, vec![6]);
    assert_eq!(rec.tick_readable, 0);
    assert_eq!(rec.readers, vec![5]);
}

#[test]
fn insert_io_allocates_dense_keys() {
    let mut r = Reactor::new();
    let k0 = r.insert_io(30);
    let k1 = r.insert_io(31);
    let k2 = r.insert_io(32);
    assert_eq!((k0, k1, k2), (0, 1, 2));
    r.remove_io(k1);
    // The freed slot is reused before the table grows.
    let k3 = r.insert_io(33);
    assert_eq!(k3, 1);
    let k4 = r.insert_io(34);
    assert_eq!(k4, 3);
}

#[test]
fn dispatch_wakes_registered_directions() {
    let mut r = Reactor::new();
    let key = r.insert_io(40);
    r.poll_readiness(key, Direction::Read, 0, 100);
    r.poll_readiness(key, Direction::Write, 0, 200);
    let woken = r.dispatch(key, true, true);
    assert_eq!(woken, vec![100, 200]);
    let woken = r.dispatch(key, true, true);
    assert_eq!(woken, Vec::<u64>::new());
}

#[test]
fn dispatch_for_removed_key_wakes_nothing() {
    let mut r = Reactor::new();
    let key = r.insert_io(41);
    r.poll_readiness(key, Direction::Read, 0, 7);
    r.remove_io(key);
    // The event was already in flight when the source went away; a handle
    // reusing the same raw number must not see a stale wake.
    let woken = r.dispatch(key, true, false);
    assert!(woken.is_empty());
    let key2 = r.insert_io(41);
    assert_eq!(key2, key);
    let woken = r.dispatch(key2, true, false);
    assert!(woken.is_empty());
}

#[test]
fn readiness_poll_ready_after_tick_advance() {
    let mut r = Reactor::new();
    let key = r.insert_io(50);
    // A fresh wait captures tick 0 and has to register.
    match r.poll_readiness(key, Direction::Read, 0, 1) {
        ReadinessPoll::Pending(interest) => {
            assert!(interest.readable);
            assert!(!interest.writable);
        }
        ReadinessPoll::Ready => panic!("no readiness was reported yet"),
    }
    let woken = r.dispatch(key, true, false);
    assert_eq!(woken, vec![1]);
    // The tick moved from 0 to 1: a wait that captured tick 0 resolves at
    // once instead of registering again.
    assert!(matches!(r.poll_readiness(key, Direction::Read, 0, 1), ReadinessPoll::Ready));
}

#[test]
fn cancelled_wait_leaves_consistent_state() {
    // A task awaits readability on an empty pipe, is dropped before any data
    // arrives, and only then does the write happen.
    let mut r = Reactor::new();
    let key = r.insert_io(60);
    assert!(matches!(
        r.poll_readiness(key, Direction::Read, 0, 77),
        ReadinessPoll::Pending(_)
    ));
    // The task is dropped: nothing is unregistered; the waker goes stale.
    // The write arrives: the stale waker is drained exactly once...
    let woken = r.dispatch(key, true, false);
    assert_eq!(woken, vec![77]);
    // ...and never again; later operations on the source work as usual.
    let woken = r.dispatch(key, true, false);
    assert!(woken.is_empty());
    let tick = r.source_tick(key, Direction::Read).unwrap();
    assert!(matches!(
        r.poll_readiness(key, Direction::Read, tick, 78),
        ReadinessPoll::Pending(_)
    ));
    let woken = r.dispatch(key, true, false);
    assert_eq!(woken, vec![78]);
}

#[test]
fn echo_roundtrip_of_readiness_waits() {
    // The readiness choreography of an echo exchange: an acceptor waits for
    // readability on the listener, a client waits for writability on the
    // stream, each event wakes exactly the registered task.
    let mut r = Reactor::new();
    let listener = Async::new(&mut r, 80);
    let client = Async::new(&mut r, 81);
    let accept_task: u64 = 1;
    let write_task: u64 = 2;
    assert!(matches!(
        listener.readable(&mut r, 0, accept_task),
        ReadinessPoll::Pending(_)
    ));
    assert!(matches!(
        client.writable(&mut r, 0, write_task),
        ReadinessPoll::Pending(_)
    ));
    // The OS reports the connection attempt: listener readable.
    assert_eq!(r.dispatch(listener.key, true, false), vec![accept_task]);
    // The OS reports the stream writable: client may send its five bytes.
    assert_eq!(r.dispatch(client.key, false, true), vec![write_task]);
    // After the echo server wrote back, the client waits for readability.
    let read_task: u64 = 3;
    assert!(matches!(
        client.readable(&mut r, 0, read_task),
        ReadinessPoll::Pending(_)
    ));
    assert_eq!(r.dispatch(client.key, true, false), vec![read_task]);
}

#[test]
fn three_clients_three_accepts() {
    // An accept loop over the listener's stream of incoming connections:
    // three connection events yield exactly three wakes, none lost, none
    // duplicated.
    let mut r = Reactor::new();
    let listener = Async::new(&mut r, 90);
    let accept_task: u64 = 9;
    let mut accepted = 0;
    let mut tick: u64 = 0;
    for _ in 0..3 {
        match listener.readable(&mut r, tick, accept_task) {
            ReadinessPoll::Pending(interest) => assert!(interest.readable),
            ReadinessPoll::Ready => panic!("no connection is pending yet"),
        }
        let woken = r.dispatch(listener.key, true, false);
        assert_eq!(woken, vec![accept_task]);
        accepted += woken.len();
        tick += 1;
    }
    assert_eq!(accepted, 3);
    assert!(r.dispatch(listener.key, true, false).is_empty());
}
