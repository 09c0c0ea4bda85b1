//! The reactor: the table of live sources and the timer queue.
//!
//! The reactor owns one [`Source`] per registered handle, looked up by a
//! densely allocated key that the platform poller echoes back with every
//! event, and the queue of pending timers. Its operations are the steps the
//! event loop takes between syscalls: register and deregister handles,
//! register and deregister timers, compute how long the blocking wait may
//! last, expire due timers, and turn one poller event into the batch of
//! wakers to wake. Everything the operating system contributes — the events
//! themselves and the clock readings — comes in as arguments.

use vstd::prelude::*;

use crate::timers::{QueueModel, TimerEntry, TimerQueue};
use crate::wakers::{Direction, Interest, RecordModel, WakerRecord};

verus! {

/// Mathematical model of a live source.
#[verifier::ext_equal]
pub ghost struct SourceModel {
    /// The raw OS handle number.
    pub raw: i32,
    /// The source's key in the reactor's table.
    pub key: int,
    /// The waker record of the source.
    pub wakers: RecordModel,
}

/// Per-handle state a registered handle keeps while it is live: the raw OS
/// handle number, the key under which the poller reports its events, and the
/// waker record for both directions.
#[derive(Debug)]
pub struct Source {
    /// The raw OS handle number, as the poller identifies the handle.
    pub raw: i32,
    /// The key the reactor hands to the poller and gets back with events.
    pub key: usize,
    /// Tick counters and waiter lists of the handle.
    pub wakers: WakerRecord,
}

impl View for Source {
    type V = SourceModel;

    open spec fn view(&self) -> SourceModel {
        SourceModel { raw: self.raw, key: self.key as int, wakers: self.wakers@ }
    }
}

/// Mathematical model of the reactor: the source table as a sequence of
/// slots and the timer queue.
#[verifier::ext_equal]
pub ghost struct ReactorModel {
    /// One slot per key ever allocated; `None` where the source was removed.
    pub sources: Seq<Option<SourceModel>>,
    /// The pending timers.
    pub timers: QueueModel,
}

impl ReactorModel {
    /// The live source registered under `key`, if any.
    pub open spec fn live(self, key: int) -> Option<SourceModel> {
        if 0 <= key < self.sources.len() && self.sources[key] is Some {
            self.sources[key]
        } else {
            None
        }
    }

    /// Every live source sits in the slot its key names, with a well-formed
    /// waker record, and the timer queue is well-formed.
    pub open spec fn wf(self) -> bool {
        &&& forall|k: int|
            0 <= k < self.sources.len() && self.sources[k] is Some ==> (
            #[trigger] self.sources[k])->Some_0.key == k && self.sources[k]->Some_0.wakers.wf()
        &&& self.timers.wf()
    }

    /// The reactor after the source under `key` is deregistered.
    pub open spec fn removed(self, key: int) -> ReactorModel {
        if 0 <= key < self.sources.len() {
            ReactorModel { sources: self.sources.update(key, None), ..self }
        } else {
            self
        }
    }

    /// The reactor after one poller event for `key`: the reported directions
    /// of the source fire; an event for a key with no live source changes
    /// nothing.
    pub open spec fn dispatched(self, key: int, readable: bool, writable: bool) -> ReactorModel {
        match self.live(key) {
            Option::None => self,
            Option::Some(src) => {
                let w1 = if readable {
                    src.wakers.fire(Direction::Read)
                } else {
                    src.wakers
                };
                let w2 = if writable {
                    w1.fire(Direction::Write)
                } else {
                    w1
                };
                ReactorModel {
                    sources: self.sources.update(key, Some(SourceModel { wakers: w2, ..src })),
                    ..self
                }
            },
        }
    }

    /// The wakers one poller event for `key` hands back to be woken: the
    /// drained readers, then the drained writers; none for a dead key.
    pub open spec fn dispatch_woken(self, key: int, readable: bool, writable: bool) -> Seq<u64> {
        match self.live(key) {
            Option::None => Seq::empty(),
            Option::Some(src) => (if readable {
                src.wakers.readers
            } else {
                Seq::empty()
            }) + (if writable {
                src.wakers.writers
            } else {
                Seq::empty()
            }),
        }
    }
}

/// What a readiness wait learns from one poll of the reactor: either the
/// handle has been ready since the tick was captured, or the waker is now
/// registered and the poller must be armed with the returned one-shot
/// interest set.
#[derive(Clone, Copy, PartialEq, Eq, Structural, Debug)]
pub enum ReadinessPoll {
    /// Readiness was reported since the captured tick; resolve at once.
    Ready,
    /// The waker is stored; arm the poller with this interest and suspend.
    Pending(Interest),
}

/// The reactor's bookkeeping: the source table and the timer queue.
#[derive(Debug)]
pub struct Reactor {
    /// One slot per allocated key.
    pub sources: Vec<Option<Source>>,
    /// The pending timers.
    pub timers: TimerQueue,
}

impl View for Reactor {
    type V = ReactorModel;

    open spec fn view(&self) -> ReactorModel {
        ReactorModel {
            sources: Seq::new(
                self.sources@.len(),
                |k: int|
                    match self.sources@[k] {
                        Option::None => Option::None,
                        Option::Some(s) => Option::Some(s@),
                    },
            ),
            timers: self.timers@,
        }
    }
}

impl Reactor {
    /// A reactor with no sources and no timers.
    pub fn new() -> (r: Reactor)
        ensures
            r@.wf(),
            r@.sources.len() == 0,
            r@.timers.entries.len() == 0,
            r@.timers.next_id == 0,
    {
        Reactor { sources: Vec::new(), timers: TimerQueue::new() }
    }

    /// Registers a handle: allocates the lowest free key, stores a fresh
    /// source under it, and returns the key. The caller registers the raw
    /// handle with the platform poller under this key; if the OS refuses,
    /// it removes the source again so that nothing is retained.
    pub fn insert_io(&mut self, raw: i32) -> (key: usize)
        requires
            old(self)@.wf(),
            old(self)@.sources.len() < usize::MAX,
        ensures
            final(self)@.wf(),
            old(self)@.live(key as int) is None,
            final(self)@.live(key as int) == Some(
                SourceModel { raw, key: key as int, wakers: RecordModel::empty() },
            ),
            forall|k: int| k != key as int ==> final(self)@.live(k) == old(self)@.live(k),
            final(self)@.timers == old(self)@.timers,
            key as int <= old(self)@.sources.len(),
    {
        let ghost v0 = self@;
        let mut key: usize = 0;
        while key < self.sources.len()
            invariant_except_break
                self@ == v0,
                key <= self.sources@.len(),
                forall|k: int| 0 <= k < key ==> self.sources@[k] is Some,
            ensures
                self@ == v0,
                key <= self.sources@.len(),
                forall|k: int| 0 <= k < key ==> self.sources@[k] is Some,
                key < self.sources@.len() ==> self.sources@[key as int] is None,
            decreases self.sources@.len() - key,
        {
            if self.sources[key].is_none() {
                break ;
            }
            key = key + 1;
        }
        let src = Source { raw, key, wakers: WakerRecord::new() };
        if key == self.sources.len() {
            self.sources.push(Some(src));
        } else {
            self.sources[key] = Some(src);
        }
        proof {
            assert forall|k: int|
                0 <= k < self@.sources.len() && self@.sources[k] is Some implies (
            #[trigger] self@.sources[k])->Some_0.key == k
                && self@.sources[k]->Some_0.wakers.wf() by {
                if k != key as int {
                    assert(self@.sources[k] == v0.sources[k]);
                }
            }
            assert(self@.live(key as int) == Some(
                SourceModel { raw, key: key as int, wakers: RecordModel::empty() },
            ));
            assert forall|k: int| k != key as int implies self@.live(k) == v0.live(k) by {
                if 0 <= k < v0.sources.len() {
                    assert(self@.sources[k] == v0.sources[k]);
                }
            }
            assert(self@.timers == v0.timers);
        }
        key
    }

    /// Deregisters the source under `key`: the slot is cleared, so any event
    /// still in flight for this key is dropped silently. Removing a key with
    /// no live source changes nothing.
    pub fn remove_io(&mut self, key: usize)
        requires
            old(self)@.wf(),
        ensures
            final(self)@ == old(self)@.removed(key as int),
            final(self)@.wf(),
            final(self)@.live(key as int) is None,
            forall|k: int| k != key as int ==> final(self)@.live(k) == old(self)@.live(k),
            final(self)@.timers == old(self)@.timers,
    {
        let ghost v0 = self@;
        if key < self.sources.len() {
            self.sources[key] = None;
        }
        proof {
            assert(self@ =~= v0.removed(key as int));
            assert forall|k: int| k != key as int implies self@.live(k) == v0.live(k) by {}
        }
    }

    /// One step of a readiness wait on the source under `key`: if the
    /// direction's tick has moved since `since`
    /// was captured, the handle has been ready in the meantime and the wait
    /// resolves; otherwise `waker` is stored (no second slot for the same
    /// waker) and the poller must be re-armed with the returned one-shot
    /// interest set — readability, together with writability exactly when
    /// writers are also waiting, or the other way round.
    pub fn poll_readiness(&mut self, key: usize, dir: Direction, since: u64, waker: u64) -> (r:
        ReadinessPoll)
        requires
            old(self)@.wf(),
            old(self)@.live(key as int) is Some,
            old(self)@.live(key as int)->Some_0.wakers.waiters_of(dir).len() < usize::MAX,
        ensures
            final(self)@.wf(),
            final(self)@.timers == old(self)@.timers,
            forall|k: int| k != key as int ==> final(self)@.live(k) == old(self)@.live(k),
            (r is Ready) == (old(self)@.live(key as int)->Some_0.wakers.tick_of(dir) != since as int),
            r is Ready ==> final(self)@ == old(self)@,
            r is Pending ==> ({
                let src = old(self)@.live(key as int)->Some_0;
                let rec = src.wakers.register(dir, waker);
                &&& final(self)@.live(key as int) == Some(SourceModel { wakers: rec, ..src })
                &&& r->Pending_0.readable == (rec.readers.len() > 0)
                &&& r->Pending_0.writable == (rec.writers.len() > 0)
            }),
    {
        let ghost v0 = self@;
        let slot = vstd::std_specs::vec::vec_index_mut(&mut self.sources, key);
        let r = match slot {
            Option::Some(src) => {
                if src.wakers.readiness_since(dir, since) {
                    ReadinessPoll::Ready
                } else {
                    ReadinessPoll::Pending(src.wakers.register(dir, waker))
                }
            },
            Option::None => {
                // Unreachable: the precondition says the source is live.
                proof {
                    assert(false);
                }
                ReadinessPoll::Ready
            },
        };
        proof {
            if r is Ready {
                assert(v0.sources =~= self@.sources);
                assert(self@ =~= v0);
            } else {
                let src = v0.live(key as int)->Some_0;
                let rec = src.wakers.register(dir, waker);
                crate::wakers::lemma_register_preserves_wf(src.wakers, dir, waker);
                assert(self@.sources =~= v0.sources.update(
                    key as int,
                    Some(SourceModel { wakers: rec, ..src }),
                ));
            }
            assert forall|k: int| k != key as int implies self@.live(k) == v0.live(k) by {}
        }
        r
    }

    /// Turns one poller event into the wakers to wake: the reported
    /// directions of the source under `key` fire (tick advanced, waiter list
    /// drained), and the drained readers, then writers, are returned to be
    /// woken outside the reactor's locks. An event for a key with no live
    /// source — removed while the event was in flight — wakes nothing and
    /// changes nothing.
    pub fn dispatch(&mut self, key: usize, readable: bool, writable: bool) -> (woken: Vec<u64>)
        requires
            old(self)@.wf(),
            readable && old(self)@.live(key as int) is Some ==> old(self)@.live(
                key as int,
            )->Some_0.wakers.tick_readable < u64::MAX,
            writable && old(self)@.live(key as int) is Some ==> old(self)@.live(
                key as int,
            )->Some_0.wakers.tick_writable < u64::MAX,
        ensures
            final(self)@ == old(self)@.dispatched(key as int, readable, writable),
            woken@ == old(self)@.dispatch_woken(key as int, readable, writable),
            final(self)@.wf(),
            final(self)@.timers == old(self)@.timers,
    {
        let ghost v0 = self@;
        if key >= self.sources.len() {
            let woken: Vec<u64> = Vec::new();
            proof {
                assert(woken@ =~= v0.dispatch_woken(key as int, readable, writable));
            }
            return woken;
        }
        let slot = vstd::std_specs::vec::vec_index_mut(&mut self.sources, key);
        let woken = match slot {
            Option::None => {
                let woken: Vec<u64> = Vec::new();
                woken
            },
            Option::Some(src) => {
                let mut woken: Vec<u64> = Vec::new();
                if readable {
                    let mut drained = src.wakers.fire(Direction::Read);
                    woken.append(&mut drained);
                }
                if writable {
                    let mut drained = src.wakers.fire(Direction::Write);
                    woken.append(&mut drained);
                }
                woken
            },
        };
        proof {
            if v0.live(key as int) is None {
                assert(self@.sources =~= v0.sources);
                assert(self@ =~= v0.dispatched(key as int, readable, writable));
                assert(woken@ =~= v0.dispatch_woken(key as int, readable, writable));
            } else {
                assert(self@.sources =~= v0.dispatched(
                    key as int,
                    readable,
                    writable,
                ).sources);
                assert(self@ =~= v0.dispatched(key as int, readable, writable));
                assert(woken@ =~= v0.dispatch_woken(key as int, readable, writable));
            }
        }
        woken
    }

    /// Registers a timer under a fresh id (see [`TimerQueue::insert`]).
    /// When the second component is true, the new deadline is the earliest
    /// and a blocked poller wait must be interrupted so the event loop can
    /// recompute its timeout.
    pub fn insert_timer(&mut self, when: u64, waker: u64) -> (r: (u64, bool))
        requires
            old(self)@.wf(),
            old(self)@.timers.next_id < u64::MAX,
            old(self)@.timers.entries.len() < usize::MAX,
        ensures
            final(self)@.wf(),
            final(self)@.sources == old(self)@.sources,
            r.0 as int == old(self)@.timers.next_id,
            final(self)@.timers.next_id == old(self)@.timers.next_id + 1,
            final(self)@.timers.entries.contains((TimerEntry { when, id: r.0, waker })),
            forall|k: int|
                0 <= k < old(self)@.timers.entries.len() ==> final(self)@.timers.entries.contains(
                    old(self)@.timers.entries[k],
                ),
            forall|k: int|
                0 <= k < final(self)@.timers.entries.len() ==> old(self)@.timers.entries.contains(final(self)@.timers.entries[k]) || final(self)@.timers.entries[k] == (TimerEntry { when, id: r.0, waker }),
            r.1 == (old(self)@.timers.entries.len() == 0 || crate::timers::entry_lt(
                (TimerEntry { when, id: r.0, waker }),
                old(self)@.timers.entries[0],
            )),
    {
        self.timers.insert(when, waker)
    }

    /// Deregisters the timer registered under `(when, id)`, if present (see
    /// [`TimerQueue::remove`]).
    pub fn remove_timer(&mut self, when: u64, id: u64) -> (found: bool)
        requires
            old(self)@.wf(),
        ensures
            final(self)@.wf(),
            final(self)@.sources == old(self)@.sources,
            final(self)@.timers.next_id == old(self)@.timers.next_id,
            found == (exists|k: int|
                0 <= k < old(self)@.timers.entries.len() && old(self)@.timers.entries[k].when
                    == when && old(self)@.timers.entries[k].id == id),
            !found ==> final(self)@.timers == old(self)@.timers,
            found ==> !final(self)@.timers.has_id(id),
            forall|k: int|
                0 <= k < old(self)@.timers.entries.len() && old(self)@.timers.entries[k].id != id
                    ==> final(self)@.timers.entries.contains(old(self)@.timers.entries[k]),
            forall|k: int|
                0 <= k < final(self)@.timers.entries.len() ==> old(self)@.timers.entries.contains(final(self)@.timers.entries[k]),
    {
        self.timers.remove(when, id)
    }

    /// Takes every timer whose deadline has passed, in firing order (see
    /// [`TimerQueue::expire`]); the caller wakes each entry's waker after
    /// releasing the reactor's locks.
    pub fn expire_timers(&mut self, now: u64) -> (fired: Vec<TimerEntry>)
        requires
            old(self)@.wf(),
        ensures
            final(self)@.wf(),
            final(self)@.sources == old(self)@.sources,
            final(self)@.timers.next_id == old(self)@.timers.next_id,
            old(self)@.timers.entries == fired@ + final(self)@.timers.entries,
            forall|k: int| 0 <= k < fired@.len() ==> fired@[k].when <= now,
            forall|k: int|
                0 <= k < final(self)@.timers.entries.len() ==> final(self)@.timers.entries[k].when
                    > now,
            crate::timers::sorted_entries(fired@),
    {
        self.timers.expire(now)
    }

    /// The current tick of one direction of the source under `key`, as a
    /// readiness wait captures it before first trying the handle.
    pub fn source_tick(&self, key: usize, dir: Direction) -> (t: Option<u64>)
        ensures
            (t is Some) == (self@.live(key as int) is Some),
            t matches Some(tick) ==> tick as int == self@.live(key as int)->Some_0.wakers.tick_of(
                dir,
            ),
    {
        if key >= self.sources.len() {
            return None;
        }
        match &self.sources[key] {
            Option::Some(src) => Some(src.wakers.current_tick(dir)),
            Option::None => None,
        }
    }

    /// How long the poller may block at clock reading `now`: forever when no
    /// timer is pending, not at all when one is already due, and otherwise
    /// until the earliest deadline (see [`TimerQueue::timeout_until`]).
    pub fn poll_timeout(&self, now: u64) -> (t: Option<u64>)
        ensures
            t == (if self@.timers.entries.len() == 0 {
                Option::<u64>::None
            } else if self@.timers.entries[0].when <= now {
                Option::Some(0u64)
            } else {
                Option::Some((self@.timers.entries[0].when - now) as u64)
            }),
    {
        self.timers.timeout_until(now)
    }
}

/// Readiness correctness at the reactor: a poller event for a source wakes
/// every waker that was registered for a direction the event reports.
pub proof fn lemma_event_wakes_source_waiters(
    r: ReactorModel,
    key: int,
    readable: bool,
    writable: bool,
    w: u64,
)
    requires
        r.live(key) is Some,
    ensures
        readable && r.live(key)->Some_0.wakers.readers.contains(w) ==> r.dispatch_woken(
            key,
            readable,
            writable,
        ).contains(w),
        writable && r.live(key)->Some_0.wakers.writers.contains(w) ==> r.dispatch_woken(
            key,
            readable,
            writable,
        ).contains(w),
{
    let src = r.live(key)->Some_0;
    let woken = r.dispatch_woken(key, readable, writable);
    let first = if readable {
        src.wakers.readers
    } else {
        Seq::<u64>::empty()
    };
    if readable && src.wakers.readers.contains(w) {
        let i = choose|i: int| 0 <= i < src.wakers.readers.len() && src.wakers.readers[i] == w;
        assert(woken[i] == w);
    }
    if writable && src.wakers.writers.contains(w) {
        let i = choose|i: int| 0 <= i < src.wakers.writers.len() && src.wakers.writers[i] == w;
        assert(woken[first.len() + i] == w);
    }
}

/// Drop cleanliness: once a source's key has been removed from the table, an
/// event the poller still has in flight for that key wakes nothing and
/// changes nothing — so a handle that reuses the same raw number under a
/// fresh key never receives a stale wake.
pub proof fn lemma_removed_key_wakes_nothing(
    r: ReactorModel,
    key: int,
    readable: bool,
    writable: bool,
)
    ensures
        r.removed(key).dispatch_woken(key, readable, writable) == Seq::<u64>::empty(),
        r.removed(key).dispatched(key, readable, writable) == r.removed(key),
{
    assert(r.removed(key).live(key) is None);
}

} // verus!
