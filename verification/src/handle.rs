//! The async handle wrapper's state machine.
//!
//! An [`Async`] binds one OS handle to the reactor: it remembers the raw
//! handle number, the key of its source in the reactor's table, and whether
//! it still owns the inner handle. Registration and teardown order is what
//! matters here: the source is deregistered *before* the inner handle is
//! closed, so the poller never observes a closed handle, and a handle that
//! was taken out with `into_inner` is never deregistered a second time. The
//! readiness waits `readable` and `writable` go through the reactor's
//! per-source tick check and waker registration.

use vstd::prelude::*;

use crate::reactor::{Reactor, ReactorModel, ReadinessPoll, SourceModel};
use crate::wakers::{Direction, RecordModel};

verus! {

/// The reactor-facing state of one async I/O handle.
#[derive(Clone, Copy, Debug)]
pub struct Async {
    /// The key of this handle's source in the reactor's table.
    pub key: usize,
    /// The raw OS handle number.
    pub raw: i32,
    /// Whether the wrapper still owns the inner handle. Cleared exactly once,
    /// by `into_inner` or by the teardown on drop.
    pub io_live: bool,
}

/// What tearing a handle down does to the reactor: deregisters its source if
/// the wrapper still owns the inner handle, and nothing otherwise.
pub open spec fn teardown_effect(a: Async, r: ReactorModel) -> ReactorModel {
    if a.io_live {
        r.removed(a.key as int)
    } else {
        r
    }
}

impl Async {
    /// The handle after its ownership of the inner handle ends.
    pub open spec fn released(self) -> Async {
        Async { io_live: false, ..self }
    }

    /// The handle's source is live in the reactor under its key, carrying its
    /// raw handle number.
    pub open spec fn attached(self, r: ReactorModel) -> bool {
        self.io_live ==> (r.live(self.key as int) is Some && r.live(self.key as int)->Some_0.raw
            == self.raw)
    }

    /// Creates an async I/O handle for the raw handle `raw`: a fresh source
    /// is registered in the reactor under a fresh key. The surrounding
    /// runtime puts the handle into non-blocking mode and registers it with
    /// the platform poller under the returned key; if the OS refuses, it
    /// tears the handle down again so that nothing is retained.
    pub fn new(r: &mut Reactor, raw: i32) -> (a: Async)
        requires
            old(r)@.wf(),
            old(r)@.sources.len() < usize::MAX,
        ensures
            final(r)@.wf(),
            a.io_live,
            a.raw == raw,
            a.attached(final(r)@),
            old(r)@.live(a.key as int) is None,
            final(r)@.live(a.key as int) == Some(
                SourceModel { raw, key: a.key as int, wakers: RecordModel::empty() },
            ),
            forall|k: int| k != a.key as int ==> final(r)@.live(k) == old(r)@.live(k),
            final(r)@.timers == old(r)@.timers,
    {
        let key = r.insert_io(raw);
        Async { key, raw, io_live: true }
    }

    /// The raw handle number, as a borrow of the inner handle would expose it.
    pub fn get_ref(&self) -> (raw: i32)
        requires
            self.io_live,
        ensures
            raw == self.raw,
    {
        self.raw
    }

    /// The raw handle number, through an exclusive borrow of the wrapper.
    pub fn get_mut(&mut self) -> (raw: i32)
        requires
            old(self).io_live,
        ensures
            raw == old(self).raw,
            *final(self) == *old(self),
    {
        self.raw
    }

    /// Takes the inner handle out: the source is deregistered first, and the
    /// wrapper no longer owns the handle, so the teardown on drop has nothing
    /// left to do.
    pub fn into_inner(&mut self, r: &mut Reactor) -> (raw: i32)
        requires
            old(self).io_live,
            old(r)@.wf(),
        ensures
            raw == old(self).raw,
            *final(self) == old(self).released(),
            final(r)@ == teardown_effect(*old(self), old(r)@),
            final(r)@.wf(),
            final(r)@.live(old(self).key as int) is None,
            forall|k: int| k != old(self).key as int ==> final(r)@.live(k) == old(r)@.live(k),
            final(r)@.timers == old(r)@.timers,
    {
        self.io_live = false;
        r.remove_io(self.key);
        self.raw
    }

    /// The teardown the wrapper's destructor performs: while the wrapper
    /// still owns the inner handle, its source is deregistered — before the
    /// handle itself is closed, so the poller never sees a closed handle —
    /// and afterwards the inner handle may be dropped. A wrapper that no
    /// longer owns the handle deregisters nothing and leaves the reactor
    /// untouched. Reports whether a deregistration happened.
    pub fn on_drop(&mut self, r: &mut Reactor) -> (deregistered: bool)
        requires
            old(r)@.wf(),
        ensures
            deregistered == old(self).io_live,
            *final(self) == old(self).released(),
            final(r)@ == teardown_effect(*old(self), old(r)@),
            final(r)@.wf(),
            !old(self).io_live ==> final(r)@ == old(r)@,
            old(self).io_live ==> final(r)@.live(old(self).key as int) is None,
            forall|k: int| k != old(self).key as int ==> final(r)@.live(k) == old(r)@.live(k),
            final(r)@.timers == old(r)@.timers,
    {
        if self.io_live {
            self.io_live = false;
            r.remove_io(self.key);
            true
        } else {
            false
        }
    }

    /// Waits until the handle is readable: one poll of the readiness wait
    /// (see [`Reactor::poll_readiness`]). `since` is the source's read tick
    /// captured when the wait began; `waker` wakes the polling task.
    pub fn readable(&self, r: &mut Reactor, since: u64, waker: u64) -> (p: ReadinessPoll)
        requires
            self.io_live,
            old(r)@.wf(),
            old(r)@.live(self.key as int) is Some,
            old(r)@.live(self.key as int)->Some_0.wakers.readers.len() < usize::MAX,
        ensures
            final(r)@.wf(),
            final(r)@.timers == old(r)@.timers,
            forall|k: int| k != self.key as int ==> final(r)@.live(k) == old(r)@.live(k),
            (p is Ready) == (old(r)@.live(self.key as int)->Some_0.wakers.tick_readable != since
                as int),
            p is Ready ==> final(r)@ == old(r)@,
            p is Pending ==> ({
                let src = old(r)@.live(self.key as int)->Some_0;
                let rec = src.wakers.register(Direction::Read, waker);
                &&& final(r)@.live(self.key as int) == Some(SourceModel { wakers: rec, ..src })
                &&& p->Pending_0.readable == (rec.readers.len() > 0)
                &&& p->Pending_0.writable == (rec.writers.len() > 0)
            }),
    {
        r.poll_readiness(self.key, Direction::Read, since, waker)
    }

    /// Waits until the handle is writable: the mirror image of `readable`.
    pub fn writable(&self, r: &mut Reactor, since: u64, waker: u64) -> (p: ReadinessPoll)
        requires
            self.io_live,
            old(r)@.wf(),
            old(r)@.live(self.key as int) is Some,
            old(r)@.live(self.key as int)->Some_0.wakers.writers.len() < usize::MAX,
        ensures
            final(r)@.wf(),
            final(r)@.timers == old(r)@.timers,
            forall|k: int| k != self.key as int ==> final(r)@.live(k) == old(r)@.live(k),
            (p is Ready) == (old(r)@.live(self.key as int)->Some_0.wakers.tick_writable != since
                as int),
            p is Ready ==> final(r)@ == old(r)@,
            p is Pending ==> ({
                let src = old(r)@.live(self.key as int)->Some_0;
                let rec = src.wakers.register(Direction::Write, waker);
                &&& final(r)@.live(self.key as int) == Some(SourceModel { wakers: rec, ..src })
                &&& p->Pending_0.readable == (rec.readers.len() > 0)
                &&& p->Pending_0.writable == (rec.writers.len() > 0)
            }),
    {
        r.poll_readiness(self.key, Direction::Write, since, waker)
    }
}

/// Destructor idempotence: once a handle's ownership of the inner handle has
/// ended — through `into_inner` or through a first teardown — any further
/// teardown deregisters nothing and leaves the reactor exactly as it was, so
/// a second deregistration of the same key is unreachable.
pub proof fn lemma_second_teardown_changes_nothing(a: Async, r: ReactorModel)
    ensures
        !a.released().io_live,
        teardown_effect(a.released(), teardown_effect(a, r)) == teardown_effect(a, r),
{
}

} // verus!
