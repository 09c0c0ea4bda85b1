//! Per-handle waker bookkeeping.
//!
//! Every registered handle carries one [`WakerRecord`]: two monotonically
//! increasing tick counters (one per readiness direction) and two FIFO lists
//! of waiting wakers. Wakers are identified by plain `u64` values handed in
//! by the surrounding runtime; identity of those values is what waking the
//! same task means here. The tick counters detect readiness that arrived
//! between a failed syscall and the registration of a waker, which is what
//! rules out lost wake-ups under one-shot rearming.

use vstd::prelude::*;

verus! {

/// The two readiness directions a handle can be awaited on.
#[derive(Clone, Copy, PartialEq, Eq, Structural, Debug)]
pub enum Direction {
    /// Readiness for reading.
    Read,
    /// Readiness for writing.
    Write,
}

/// The readiness set a source must be armed with in the poller after a
/// registration: one-shot interest in each direction that has waiters.
#[derive(Clone, Copy, PartialEq, Eq, Structural, Debug)]
pub struct Interest {
    /// Arm interest in readability.
    pub readable: bool,
    /// Arm interest in writability.
    pub writable: bool,
}

/// Mathematical model of a waker record: unbounded tick counters and the
/// two waiter lists as sequences.
pub ghost struct RecordModel {
    /// Times the poller has reported the handle readable.
    pub tick_readable: int,
    /// Times the poller has reported the handle writable.
    pub tick_writable: int,
    /// Wakers awaiting readability, oldest first.
    pub readers: Seq<u64>,
    /// Wakers awaiting writability, oldest first.
    pub writers: Seq<u64>,
}

/// No waker identifier occurs twice in `s`.
pub open spec fn distinct_wakers(s: Seq<u64>) -> bool {
    forall|i: int, j: int| 0 <= i < j < s.len() ==> s[i] != s[j]
}

impl RecordModel {
    /// The record of a freshly inserted source: no readiness seen, no waiters.
    pub open spec fn empty() -> RecordModel {
        RecordModel { tick_readable: 0, tick_writable: 0, readers: Seq::empty(), writers: Seq::empty() }
    }

    /// The tick counter of one direction.
    pub open spec fn tick_of(self, dir: Direction) -> int {
        match dir {
            Direction::Read => self.tick_readable,
            Direction::Write => self.tick_writable,
        }
    }

    /// The waiter list of one direction.
    pub open spec fn waiters_of(self, dir: Direction) -> Seq<u64> {
        match dir {
            Direction::Read => self.readers,
            Direction::Write => self.writers,
        }
    }

    /// Both waiter lists are free of duplicates.
    pub open spec fn wf(self) -> bool {
        distinct_wakers(self.readers) && distinct_wakers(self.writers)
    }

    /// The record after a waker registers for one direction: appended in FIFO
    /// position unless a stored waker would already wake the same task.
    pub open spec fn register(self, dir: Direction, waker: u64) -> RecordModel {
        let waiters = if self.waiters_of(dir).contains(waker) {
            self.waiters_of(dir)
        } else {
            self.waiters_of(dir).push(waker)
        };
        match dir {
            Direction::Read => RecordModel { readers: waiters, ..self },
            Direction::Write => RecordModel { writers: waiters, ..self },
        }
    }

    /// The record after the poller reports one direction ready: the tick
    /// advances and the waiter list is drained.
    pub open spec fn fire(self, dir: Direction) -> RecordModel {
        match dir {
            Direction::Read => RecordModel {
                tick_readable: self.tick_readable + 1,
                readers: Seq::empty(),
                ..self
            },
            Direction::Write => RecordModel {
                tick_writable: self.tick_writable + 1,
                writers: Seq::empty(),
                ..self
            },
        }
    }

    /// The batch of wakers a readiness event for `dir` hands back to be woken.
    pub open spec fn drained(self, dir: Direction) -> Seq<u64> {
        self.waiters_of(dir)
    }
}

/// Per-handle waker state: tick counters and FIFO waiter lists for both
/// readiness directions.
#[derive(Debug)]
pub struct WakerRecord {
    /// Times the poller has reported the handle readable.
    pub tick_readable: u64,
    /// Times the poller has reported the handle writable.
    pub tick_writable: u64,
    /// Wakers awaiting readability, oldest first.
    pub readers: Vec<u64>,
    /// Wakers awaiting writability, oldest first.
    pub writers: Vec<u64>,
}

impl View for WakerRecord {
    type V = RecordModel;

    open spec fn view(&self) -> RecordModel {
        RecordModel {
            tick_readable: self.tick_readable as int,
            tick_writable: self.tick_writable as int,
            readers: self.readers@,
            writers: self.writers@,
        }
    }
}

impl WakerRecord {
    /// A record for a freshly inserted source.
    pub fn new() -> (r: WakerRecord)
        ensures
            r@ == RecordModel::empty(),
            r@.wf(),
    {
        WakerRecord { tick_readable: 0, tick_writable: 0, readers: Vec::new(), writers: Vec::new() }
    }

    /// The current tick of one direction, to be captured before a syscall is
    /// attempted.
    pub fn current_tick(&self, dir: Direction) -> (t: u64)
        ensures
            t as int == self@.tick_of(dir),
    {
        match dir {
            Direction::Read => self.tick_readable,
            Direction::Write => self.tick_writable,
        }
    }

    /// Whether readiness has been reported since the tick `since` was
    /// captured. A waiter that observes this resolves at once instead of
    /// registering.
    pub fn readiness_since(&self, dir: Direction, since: u64) -> (seen: bool)
        ensures
            seen == (self@.tick_of(dir) != since as int),
    {
        match dir {
            Direction::Read => self.tick_readable != since,
            Direction::Write => self.tick_writable != since,
        }
    }

    /// Registers `waker` as a waiter for `dir` and reports the readiness set
    /// the poller must be armed with: one-shot interest in each direction
    /// that now has waiters. A waker already stored for the same task is not
    /// stored twice.
    pub fn register(&mut self, dir: Direction, waker: u64) -> (interest: Interest)
        requires
            old(self)@.wf(),
            old(self)@.waiters_of(dir).len() < usize::MAX,
        ensures
            final(self)@ == old(self)@.register(dir, waker),
            final(self)@.wf(),
            interest.readable == (final(self)@.readers.len() > 0),
            interest.writable == (final(self)@.writers.len() > 0),
    {
        match dir {
            Direction::Read => {
                if !contains_waker(&self.readers, waker) {
                    self.readers.push(waker);
                }
            }
            Direction::Write => {
                if !contains_waker(&self.writers, waker) {
                    self.writers.push(waker);
                }
            }
        }
        proof {
            lemma_register_preserves_wf(old(self)@, dir, waker);
        }
        Interest { readable: self.readers.len() > 0, writable: self.writers.len() > 0 }
    }

    /// Takes one readiness event: advances the tick of `dir` and drains its
    /// waiter list. The returned batch is to be woken outside all locks, in
    /// the order of registration.
    pub fn fire(&mut self, dir: Direction) -> (woken: Vec<u64>)
        requires
            old(self)@.tick_of(dir) < u64::MAX,
        ensures
            final(self)@ == old(self)@.fire(dir),
            woken@ == old(self)@.drained(dir),
            old(self)@.wf() ==> final(self)@.wf(),
    {
        let mut woken: Vec<u64> = Vec::new();
        match dir {
            Direction::Read => {
                core::mem::swap(&mut woken, &mut self.readers);
                self.tick_readable = self.tick_readable + 1;
            }
            Direction::Write => {
                core::mem::swap(&mut woken, &mut self.writers);
                self.tick_writable = self.tick_writable + 1;
            }
        }
        woken
    }
}

/// Whether `wakers` already holds `waker`.
fn contains_waker(wakers: &Vec<u64>, waker: u64) -> (found: bool)
    ensures
        found == wakers@.contains(waker),
{
    let mut i: usize = 0;
    while i < wakers.len()
        invariant
            i <= wakers@.len(),
            forall|k: int| 0 <= k < i ==> wakers@[k] != waker,
        decreases wakers@.len() - i,
    {
        if wakers[i] == waker {
            return true;
        }
        i = i + 1;
    }
    false
}

/// Registration keeps the waiter lists free of duplicates.
pub proof fn lemma_register_preserves_wf(rec: RecordModel, dir: Direction, waker: u64)
    requires
        rec.wf(),
    ensures
        rec.register(dir, waker).wf(),
{
    let after = rec.register(dir, waker);
    if !rec.waiters_of(dir).contains(waker) {
        let w0 = rec.waiters_of(dir);
        let w1 = after.waiters_of(dir);
        assert forall|i: int, j: int| 0 <= i < j < w1.len() implies w1[i] != w1[j] by {
            if j == w0.len() {
                assert(w0[i] == w1[i]);
                assert(w0.contains(w0[i]));
            }
        }
    }
}

/// Readiness correctness: a readiness event for a direction drains, and so
/// wakes, every waker that was registered for that direction before the
/// event was observed — including the one a registration just stored.
pub proof fn lemma_event_wakes_every_registered_waker(rec: RecordModel, dir: Direction, waker: u64)
    ensures
        rec.register(dir, waker).drained(dir).contains(waker),
        rec.waiters_of(dir).contains(waker) ==> rec.drained(dir).contains(waker),
{
    let after = rec.register(dir, waker);
    if rec.waiters_of(dir).contains(waker) {
        assert(after.waiters_of(dir) == rec.waiters_of(dir));
    } else {
        assert(after.waiters_of(dir)[rec.waiters_of(dir).len() as int] == waker);
    }
}

/// No lost wake: a task that captured the tick before its syscall failed is
/// woken whichever way the race with the readiness event goes. If the event
/// is taken first, the tick no longer matches the captured value, so the
/// re-check under the record's lock resolves at once; if the registration
/// comes first, the event drains the stored waker.
pub proof fn lemma_no_lost_wake(rec: RecordModel, dir: Direction, waker: u64, since: int)
    requires
        since == rec.tick_of(dir),
    ensures
        rec.fire(dir).tick_of(dir) != since,
        rec.register(dir, waker).drained(dir).contains(waker),
{
    lemma_event_wakes_every_registered_waker(rec, dir, waker);
}

/// Cancellation safety: a waker left behind by a dropped readiness future is
/// drained by the next event for its direction, after which the record is
/// exactly what it would have been had the future never registered. Until
/// then the record stays well-formed, so every later operation on the source
/// remains available.
pub proof fn lemma_stale_waker_harmless(rec: RecordModel, dir: Direction, stale: u64)
    requires
        rec.wf(),
    ensures
        rec.register(dir, stale).wf(),
        rec.register(dir, stale).fire(dir) == rec.fire(dir),
{
    lemma_register_preserves_wf(rec, dir, stale);
    assert(rec.register(dir, stale).fire(dir) =~= rec.fire(dir));
}

} // verus!
