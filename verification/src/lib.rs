//! Core of a readiness-based async I/O runtime.
//!
//! The reactor multiplexes readiness events from operating-system handles and
//! scheduled timers into task wake-ups. This crate holds the reactor's
//! bookkeeping and decision logic: per-handle waker records with tick
//! counters, the ordered timer queue, the table of live sources, and the
//! poll-step state machines of the `Timer` future and the `Async` handle
//! wrapper. The platform poller syscalls and the futures plumbing live
//! outside, and hand this core plain values: raw handle numbers, waker
//! identifiers, and clock readings in nanoseconds.

pub mod handle;
pub mod ops;
pub mod reactor;
pub mod timer;
pub mod timers;
pub mod wakers;

pub use handle::Async;
pub use timer::Timer;
