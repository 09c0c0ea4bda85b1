//! Decisions of the readiness-gated operations.
//!
//! The handle wrapper turns a synchronous non-blocking operation into an
//! asynchronous one by looping: try the syscall, and on `WouldBlock` wait for
//! readiness and try again. The connect sequence additionally tolerates
//! exactly one connection-in-progress status and always checks the socket's
//! pending error once writability arrives. These decisions are pure functions
//! of the error the operating system reported; the functions here take that
//! report as a plain value and say what the wrapper does next.

use vstd::prelude::*;

verus! {

/// The error classes the core distinguishes. `WouldBlock` is never surfaced:
/// it is absorbed into a readiness wait. `Interrupted` waits are retried
/// transparently. Everything else is propagated to the caller unchanged.
#[derive(Clone, Copy, PartialEq, Eq, Structural, Debug)]
pub enum ErrorKind {
    /// The operation would have to block; wait for readiness instead.
    WouldBlock,
    /// A signal interrupted the syscall; retry it.
    Interrupted,
    /// Any other failure; propagate it.
    Other,
}

/// An I/O failure as the core reads it: its class, and the raw OS error code
/// when the OS supplied one.
#[derive(Clone, Copy, Debug)]
pub struct OsError {
    /// The class of the failure.
    pub kind: ErrorKind,
    /// The raw OS error code, if any.
    pub code: Option<i32>,
}

/// What one round of a readiness-gated operation does next.
pub enum OpStep<R> {
    /// The operation finished (with a value or a real error); resolve with it.
    Resolve(Result<R, OsError>),
    /// The operation would block; register for readiness and try again after
    /// the next wake.
    Wait,
}

/// The step `read_with` / `write_with` take after one invocation of the
/// underlying operation: a `WouldBlock` failure is absorbed and the task
/// waits for the next readiness of the matching direction; any other
/// outcome — success or a real error — resolves the operation with exactly
/// that outcome.
pub fn operation_step<R>(res: Result<R, OsError>) -> (step: OpStep<R>)
    ensures
        (step is Wait) == (res matches Result::Err(e) && e.kind == ErrorKind::WouldBlock),
        step matches OpStep::Resolve(out) ==> out == res,
{
    match res {
        Result::Err(e) => {
            match e.kind {
                ErrorKind::WouldBlock => OpStep::Wait,
                ErrorKind::Interrupted => OpStep::Resolve(Result::Err(e)),
                ErrorKind::Other => OpStep::Resolve(Result::Err(e)),
            }
        },
        Result::Ok(v) => OpStep::Resolve(Result::Ok(v)),
    }
}

/// What the reactor does with the outcome of the poller's blocking wait: a
/// completed wait proceeds with the reported number of events, a
/// signal-interrupted wait is retried transparently, and any other failure is
/// returned to the caller of the event loop, which stays usable.
pub enum WaitStep {
    /// The wait returned this many events; dispatch them.
    Proceed(usize),
    /// A signal interrupted the wait; wait again.
    Retry,
    /// The wait failed; hand the error to the event loop's caller.
    Fail(OsError),
}

/// Classifies the outcome of one poller wait (see [`WaitStep`]).
pub fn wait_step(res: Result<usize, OsError>) -> (step: WaitStep)
    ensures
        res matches Result::Ok(n) ==> step == WaitStep::Proceed(n),
        (step is Retry) == (res matches Result::Err(e) && e.kind == ErrorKind::Interrupted),
        step matches WaitStep::Fail(e) ==> res == Result::<usize, OsError>::Err(e) && e.kind
            != ErrorKind::Interrupted,
{
    match res {
        Result::Ok(n) => WaitStep::Proceed(n),
        Result::Err(e) => {
            match e.kind {
                ErrorKind::Interrupted => WaitStep::Retry,
                ErrorKind::WouldBlock => WaitStep::Fail(e),
                ErrorKind::Other => WaitStep::Fail(e),
            }
        },
    }
}

/// Relies on `libc::EINPROGRESS`: the errno a Unix socket reports while a
/// non-blocking connect is still in flight — 115 on this target.
#[verifier::external_body]
fn in_progress_code() -> (code: i32)
    ensures
        code == 115,
{
    libc::EINPROGRESS
}

/// What `connect` does with the outcome of the non-blocking connect syscall:
/// the platform's connection-in-progress status is no failure — the
/// connection is awaited through writability instead — and exactly that one
/// status is tolerated; any other error is propagated unchanged.
pub fn connect_start(res: Result<(), OsError>) -> (verdict: Result<(), OsError>)
    ensures
        res is Ok ==> verdict is Ok,
        res matches Result::Err(e) ==> verdict == (if e.code == Some(115i32) {
            Result::<(), OsError>::Ok(())
        } else {
            Result::<(), OsError>::Err(e)
        }),
{
    match res {
        Result::Ok(u) => Result::Ok(u),
        Result::Err(e) => {
            match e.code {
                Option::Some(c) => {
                    if c == in_progress_code() {
                        Result::Ok(())
                    } else {
                        Result::Err(e)
                    }
                },
                Option::None => Result::Err(e),
            }
        },
    }
}

/// The last step of `connect`, taken once the socket has reported writable:
/// the socket's pending error decides, and the check is never skipped. No
/// pending error means the connection stands; a stored error is the failure
/// of the connect itself and is returned.
pub fn connect_finish(pending: Option<OsError>) -> (r: Result<(), OsError>)
    ensures
        r == (match pending {
            Option::None => Result::<(), OsError>::Ok(()),
            Option::Some(e) => Result::<(), OsError>::Err(e),
        }),
{
    match pending {
        Option::None => Result::Ok(()),
        Option::Some(e) => Result::Err(e),
    }
}

} // verus!
