//! Decisions of the readiness-gated operations, and the handle's lifecycle.

use async_io::handle::Async;
use async_io::ops::{
    connect_finish, connect_start, operation_step, wait_step, ErrorKind, OpStep, OsError, WaitStep,
};
use async_io::reactor::Reactor;

#[test]
fn would_block_is_absorbed_into_a_wait() {
    let res: Result<usize, OsError> =
        Err(OsError { kind: ErrorKind::WouldBlock, code: Some(11) });
    assert!(matches!(operation_step(res), OpStep::Wait));
}

#[test]
fn success_resolves_with_the_value() {
    // A UDP roundtrip's receiving side: four bytes of b"ping" arrived.
    let res: Result<usize, OsError> = Ok(4);
    match operation_step(res) {
        OpStep::Resolve(Ok(n)) => assert_eq!(n, 4),
        _ => panic!("a completed operation must resolve"),
    }
}

#[test]
fn real_errors_resolve_unchanged() {
    let res: Result<usize, OsError> =
        Err(OsError { kind: ErrorKind::Other, code: Some(111) });
    match operation_step(res) {
        OpStep::Resolve(Err(e)) => {
            assert_eq!(e.code, Some(111));
            assert_eq!(e.kind, ErrorKind::Other);
        }
        _ => panic!("a real error must be propagated"),
    }
}

#[test]
fn interrupted_operation_is_not_a_wait() {
    let res: Result<usize, OsError> =
        Err(OsError { kind: ErrorKind::Interrupted, code: Some(4) });
    assert!(matches!(operation_step(res), OpStep::Resolve(Err(_))));
}

#[test]
fn interrupted_poller_wait_is_retried() {
    let res: Result<usize, OsError> =
        Err(OsError { kind: ErrorKind::Interrupted, code: Some(4) });
    assert!(matches!(wait_step(res), WaitStep::Retry));
    let res: Result<usize, OsError> = Ok(2);
    assert!(matches!(wait_step(res), WaitStep::Proceed(2)));
    let res: Result<usize, OsError> =
        Err(OsError { kind: ErrorKind::Other, code: Some(12) });
    match wait_step(res) {
        WaitStep::Fail(e) => assert_eq!(e.code, Some(12)),
        _ => panic!("a failed wait is handed to the event loop's caller"),
    }
}

#[test]
fn connect_tolerates_exactly_the_in_progress_status() {
    let in_progress =
        OsError { kind: ErrorKind::Other, code: Some(115) };
    assert!(connect_start(Err(in_progress)).is_ok());
    assert!(connect_start(Ok(())).is_ok());
    let refused = OsError { kind: ErrorKind::Other, code: Some(111) };
    match connect_start(Err(refused)) {
        Err(e) => assert_eq!(e.code, Some(111)),
        Ok(()) => panic!("only the in-progress status may be absorbed"),
    }
    let no_code = OsError { kind: ErrorKind::Other, code: None };
    assert!(connect_start(Err(no_code)).is_err());
}

#[test]
fn connect_checks_the_pending_error() {
    assert!(connect_finish(None).is_ok());
    let failed = OsError { kind: ErrorKind::Other, code: Some(110) };
    match connect_finish(Some(failed)) {
        Err(e) => assert_eq!(e.code, Some(110)),
        Ok(()) => panic!("a stored socket error is the connect failure"),
    }
}

#[test]
fn udp_roundtrip_decision_sequence() {
    // Two bound sockets exchange b"ping": the sender's send_to succeeds at
    // the first try, the receiver's recv_from blocks once, waits for
    // readability, and then reads the four bytes.
    let mut r = Reactor::new();
    let sender = Async::new(&mut r, 20);
    let receiver = Async::new(&mut r, 21);
    let send_res: Result<usize, OsError> = Ok(4);
    assert!(matches!(operation_step(send_res), OpStep::Resolve(Ok(4))));
    // Nothing has arrived yet: recv_from reports WouldBlock and the task
    // registers for readability.
    let blocked: Result<usize, OsError> =
        Err(OsError { kind: ErrorKind::WouldBlock, code: Some(11) });
    assert!(matches!(operation_step(blocked), OpStep::Wait));
    let recv_task: u64 = 4;
    assert!(matches!(
        receiver.readable(&mut r, 0, recv_task),
        async_io::reactor::ReadinessPoll::Pending(_)
    ));
    // The datagram lands; the poller reports the receiver readable.
    assert_eq!(r.dispatch(receiver.key, true, false), vec![recv_task]);
    // The retried recv_from returns the datagram: (4, sender_addr).
    let retried: Result<usize, OsError> = Ok(4);
    assert!(matches!(operation_step(retried), OpStep::Resolve(Ok(4))));
    assert_eq!(sender.raw, 20);
}

#[test]
fn handle_teardown_deregisters_exactly_once() {
    let mut r = Reactor::new();
    let mut a = Async::new(&mut r, 12);
    assert_eq!(a.get_ref(), 12);
    assert_eq!(a.get_mut(), 12);
    assert!(a.on_drop(&mut r));
    assert!(!a.on_drop(&mut r));
}

#[test]
fn into_inner_prevents_a_second_deregister() {
    let mut r = Reactor::new();
    let mut a = Async::new(&mut r, 13);
    let raw = a.into_inner(&mut r);
    assert_eq!(raw, 13);
    assert!(!a.io_live);
    // The destructor that still runs afterwards finds nothing to do.
    assert!(!a.on_drop(&mut r));
}

#[test]
fn teardown_frees_the_key_for_reuse() {
    let mut r = Reactor::new();
    let mut a = Async::new(&mut r, 14);
    let key = a.key;
    a.on_drop(&mut r);
    let b = Async::new(&mut r, 15);
    assert_eq!(b.key, key);
}
