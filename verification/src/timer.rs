//! The timer future's state machine.
//!
//! A [`Timer`] fires at an absolute deadline. While pending it keeps its
//! registration — the queue-wide id and the waker stored with it — so that a
//! later poll from a different task can replace the waker, and so that
//! dropping the timer can deregister it. The reactor may expire the
//! registration first and wake the task: the timer then still carries the
//! id, the queue no longer does, and the next poll (or the drop) finds
//! nothing left to remove and proceeds cleanly. All clock readings come in
//! as arguments, in nanoseconds of the runtime's clock.

use vstd::prelude::*;

use crate::timers::{QueueModel, TimerEntry, TimerQueue};

verus! {

/// Fires at the chosen point in time, resolving to its deadline.
#[derive(Clone, Copy, Debug)]
pub struct Timer {
    /// This timer's registration id and the waker stored with it. `None`
    /// while the timer is not registered in the queue.
    pub id_and_waker: Option<(u64, u64)>,
    /// When this timer fires.
    pub when: u64,
}

impl Timer {
    /// The timer's stored registration is the only way its id can appear in
    /// the queue: the id was drawn from the queue's counter, and any entry
    /// still carrying it is this timer's own — same deadline, same stored
    /// waker. This survives every queue operation, including the reactor
    /// expiring the entry, after which the id simply no longer occurs.
    pub open spec fn consistent_with(self, q: QueueModel) -> bool {
        match self.id_and_waker {
            Option::None => true,
            Option::Some((id, w)) => (id as int) < q.next_id && forall|k: int|
                0 <= k < q.entries.len() && (#[trigger] q.entries[k]).id == id ==> q.entries[k]
                    == (TimerEntry { when: self.when, id, waker: w }),
        }
    }

    /// The timer's registration, if any, is stored in the queue under its
    /// deadline, with the waker it remembers. This holds while the timer is
    /// pending and the reactor has not yet expired the entry.
    pub open spec fn registered_in(self, q: QueueModel) -> bool {
        match self.id_and_waker {
            Option::None => true,
            Option::Some((id, w)) => q.entries.contains(
                TimerEntry { when: self.when, id, waker: w },
            ),
        }
    }

    /// Whether `e` is this timer's own registration.
    pub open spec fn owns_entry(self, e: TimerEntry) -> bool {
        match self.id_and_waker {
            Option::None => false,
            Option::Some((id, w)) => e.id == id,
        }
    }

    /// A timer that fires `dur` nanoseconds after the clock reading `now`,
    /// not yet registered anywhere.
    pub fn new(now: u64, dur: u64) -> (t: Timer)
        requires
            now + dur <= u64::MAX,
        ensures
            t.when == now + dur,
            t.id_and_waker is None,
    {
        Timer { id_and_waker: None, when: now + dur }
    }

    /// One poll of the timer at clock reading `now` by the task waking
    /// through `waker`. Resolves with the deadline exactly when the deadline
    /// has passed — never earlier — removing any registration that is still
    /// queued; while pending it keeps the timer registered with a waker that
    /// wakes the polling task, replacing a stored waker that would wake some
    /// other task (the timer was moved between tasks) and deregistering the
    /// superseded registration. A fresh registration draws the queue's next
    /// id. Returns the outcome and whether the queue's earliest deadline
    /// changed, in which case a blocked poller wait must be interrupted.
    pub fn poll(&mut self, q: &mut TimerQueue, now: u64, waker: u64) -> (r: (Option<u64>, bool))
        requires
            old(q)@.wf(),
            old(self).consistent_with(old(q)@),
            old(q)@.next_id < u64::MAX,
            old(q)@.entries.len() < usize::MAX,
        ensures
            final(q)@.wf(),
            final(q)@.next_id <= old(q)@.next_id + 1,
            final(q)@.entries.len() <= old(q)@.entries.len() + 1,
            final(self).when == old(self).when,
            r.0 == (if now >= old(self).when {
                Option::Some(old(self).when)
            } else {
                Option::<u64>::None
            }),
            final(self).consistent_with(final(q)@),
            old(self).registered_in(old(q)@) ==> final(self).registered_in(final(q)@),
            now >= old(self).when ==> final(self).id_and_waker is None,
            now < old(self).when ==> (final(self).id_and_waker is Some && final(self).id_and_waker->Some_0.1 == waker),
            (match old(self).id_and_waker {
                Option::Some((id0, w0)) => (now >= old(self).when || w0 != waker) ==> !final(q)@.has_id(id0),
                Option::None => true,
            }),
            (now < old(self).when && (old(self).id_and_waker is None || old(self).id_and_waker->Some_0.1 != waker)) ==> (final(self).registered_in(final(q)@)
                && final(self).id_and_waker->Some_0.0 as int == old(q)@.next_id && final(q)@.next_id
                == old(q)@.next_id + 1),
            forall|k: int|
                0 <= k < old(q)@.entries.len() && !old(self).owns_entry(old(q)@.entries[k])
                    ==> final(q)@.entries.contains(old(q)@.entries[k]),
            forall|k: int|
                0 <= k < final(q)@.entries.len() ==> old(q)@.entries.contains(final(q)@.entries[k])
                    || (final(self).id_and_waker is Some && final(q)@.entries[k] == (TimerEntry {
                    when: old(self).when,
                    id: final(self).id_and_waker->Some_0.0,
                    waker,
                })),
            (now < old(self).when && old(self).id_and_waker is Some && old(self).id_and_waker->Some_0.1 == waker) ==> (final(self).id_and_waker == old(self).id_and_waker && final(q)@ == old(q)@),
            r.1 ==> now < old(self).when,
            r.1 == (now < old(self).when && (old(self).id_and_waker is None || old(self).id_and_waker->Some_0.1 != waker) && final(q)@.entries.len() > 0 && final(q)@.entries[0] == (TimerEntry {
                when: old(self).when,
                id: final(self).id_and_waker->Some_0.0,
                waker,
            })),
    {
        if now >= self.when {
            match self.id_and_waker {
                Option::Some((id, _w)) => {
                    proof {
                        lemma_consistent_removal(*self, old(q)@, id);
                    }
                    q.remove(self.when, id);
                    self.id_and_waker = None;
                },
                Option::None => {},
            }
            (Some(self.when), false)
        } else {
            let mut notify = false;
            match self.id_and_waker {
                Option::None => {
                    let (id, n) = q.insert(self.when, waker);
                    self.id_and_waker = Some((id, waker));
                    notify = n;
                    proof {
                        lemma_fresh_entry_consistent(*self, old(q)@, q@, id, waker);
                    }
                },
                Option::Some((id, w)) => {
                    if w != waker {
                        proof {
                            lemma_consistent_removal(*self, old(q)@, id);
                        }
                        q.remove(self.when, id);
                        let ghost mid = q@;
                        let (nid, n) = q.insert(self.when, waker);
                        self.id_and_waker = Some((nid, waker));
                        notify = n;
                        proof {
                            lemma_fresh_entry_consistent(*self, mid, q@, nid, waker);
                            assert(!q@.has_id(id)) by {
                                assert forall|k: int|
                                    0 <= k < q@.entries.len() implies q@.entries[k].id != id by {
                                    if mid.entries.contains(q@.entries[k]) {
                                        let j = choose|j: int|
                                            0 <= j < mid.entries.len() && mid.entries[j]
                                                == q@.entries[k];
                                        assert(mid.entries[j].id != id);
                                    }
                                }
                            }
                        }
                    }
                },
            }
            (None, notify)
        }
    }

    /// What dropping the timer does: any registration still queued under the
    /// stored id is removed — so a timer dropped before firing neither leaks
    /// its slot nor wakes a dead task, and one dropped after the reactor
    /// already expired it finds nothing left to remove — and every other
    /// registration is untouched.
    pub fn on_drop(&mut self, q: &mut TimerQueue)
        requires
            old(q)@.wf(),
            old(self).consistent_with(old(q)@),
        ensures
            final(q)@.wf(),
            final(q)@.next_id == old(q)@.next_id,
            final(self).id_and_waker is None,
            final(self).when == old(self).when,
            (match old(self).id_and_waker {
                Option::Some((id0, w0)) => !final(q)@.has_id(id0),
                Option::None => final(q)@ == old(q)@,
            }),
            forall|k: int|
                0 <= k < old(q)@.entries.len() && !old(self).owns_entry(old(q)@.entries[k])
                    ==> final(q)@.entries.contains(old(q)@.entries[k]),
            forall|k: int|
                0 <= k < final(q)@.entries.len() ==> old(q)@.entries.contains(
                    final(q)@.entries[k],
                ),
    {
        match self.id_and_waker {
            Option::Some((id, _w)) => {
                proof {
                    lemma_consistent_removal(*self, old(q)@, id);
                }
                q.remove(self.when, id);
                self.id_and_waker = None;
            },
            Option::None => {},
        }
    }
}

/// Under the consistency invariant, removing `(when, id)` is exactly how the
/// stored id leaves the queue: if any entry carries the id, it is the
/// timer's own `(when, id)` entry, so the removal by deadline and id finds
/// it; if none does, there is nothing to find and nothing changes.
proof fn lemma_consistent_removal(t: Timer, q: QueueModel, id: u64)
    requires
        t.consistent_with(q),
        t.id_and_waker is Some,
        t.id_and_waker->Some_0.0 == id,
    ensures
        q.has_id(id) ==> (exists|k: int|
            0 <= k < q.entries.len() && q.entries[k].when == t.when && q.entries[k].id == id),
{
    if q.has_id(id) {
        let k = choose|k: int| 0 <= k < q.entries.len() && q.entries[k].id == id;
        assert(q.entries[k].when == t.when);
    }
}

/// A registration drawn from the queue's counter is consistent: the fresh id
/// is above every id the queue held before, so the inserted entry is the
/// only one that can carry it.
proof fn lemma_fresh_entry_consistent(t: Timer, q0: QueueModel, q1: QueueModel, id: u64, waker: u64)
    requires
        q0.wf(),
        t.id_and_waker == Some((id, waker)),
        id as int == q0.next_id,
        q1.next_id == q0.next_id + 1,
        q1.entries.contains((TimerEntry { when: t.when, id, waker })),
        forall|k: int|
            0 <= k < q1.entries.len() ==> q0.entries.contains(q1.entries[k]) || q1.entries[k]
                == (TimerEntry { when: t.when, id, waker }),
    ensures
        t.consistent_with(q1),
{
    assert forall|k: int|
        0 <= k < q1.entries.len() && (#[trigger] q1.entries[k]).id == id implies q1.entries[k]
        == (TimerEntry { when: t.when, id, waker }) by {
        if q0.entries.contains(q1.entries[k]) {
            let j = choose|j: int| 0 <= j < q0.entries.len() && q0.entries[j] == q1.entries[k];
            assert(q0.entries[j].id < q0.next_id);
        }
    }
}

} // verus!
