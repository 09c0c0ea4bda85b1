//! The timer queue.
//!
//! Timers are kept strictly ordered by `(deadline, id)`: the deadline in
//! nanoseconds decides when a timer fires, and the reactor-wide registration
//! id breaks ties and uniquely identifies one registration, so that a timer
//! can be deregistered or re-registered with a new waker. The queue tells the
//! reactor how long its blocking wait may last and hands back, at each tick
//! of the clock, the batch of expired registrations in firing order.

use vstd::prelude::*;

verus! {

/// One timer registration: an absolute deadline in nanoseconds, the unique
/// registration id, and the identifier of the waker to invoke when it fires.
#[derive(Clone, Copy, PartialEq, Eq, Structural, Debug)]
pub struct TimerEntry {
    /// Absolute deadline, in nanoseconds of the runtime's clock.
    pub when: u64,
    /// Queue-wide unique registration id, also the tie-breaker for equal
    /// deadlines.
    pub id: u64,
    /// The waker to invoke when the deadline passes.
    pub waker: u64,
}

/// Strict firing order: earlier deadline first, earlier registration first
/// among equal deadlines.
pub open spec fn entry_lt(a: TimerEntry, b: TimerEntry) -> bool {
    a.when < b.when || (a.when == b.when && a.id < b.id)
}

/// `s` is strictly sorted in firing order.
pub open spec fn sorted_entries(s: Seq<TimerEntry>) -> bool {
    forall|i: int, j: int| 0 <= i < j < s.len() ==> entry_lt(s[i], s[j])
}

/// No registration id occurs twice in `s`.
pub open spec fn distinct_ids(s: Seq<TimerEntry>) -> bool {
    forall|i: int, j: int| 0 <= i < j < s.len() ==> s[i].id != s[j].id
}

/// Mathematical model of the timer queue: the registrations in firing order
/// and the unbounded id counter.
#[verifier::ext_equal]
pub ghost struct QueueModel {
    /// Registrations, in firing order.
    pub entries: Seq<TimerEntry>,
    /// The id the next registration will get.
    pub next_id: int,
}

impl QueueModel {
    /// Entries strictly sorted, ids unique, and every id below the counter.
    pub open spec fn wf(self) -> bool {
        &&& sorted_entries(self.entries)
        &&& distinct_ids(self.entries)
        &&& forall|k: int| 0 <= k < self.entries.len() ==> self.entries[k].id < self.next_id
    }

    /// Whether some registration carries the id.
    pub open spec fn has_id(self, id: u64) -> bool {
        exists|k: int| 0 <= k < self.entries.len() && self.entries[k].id == id
    }
}

/// Ordered timer registrations, earliest deadline first.
#[derive(Debug)]
pub struct TimerQueue {
    /// Registrations in firing order.
    pub entries: Vec<TimerEntry>,
    /// The id the next registration will get; ids are never reused.
    pub next_id: u64,
}

impl View for TimerQueue {
    type V = QueueModel;

    open spec fn view(&self) -> QueueModel {
        QueueModel { entries: self.entries@, next_id: self.next_id as int }
    }
}

/// Whether `a` fires strictly before `b`.
fn entry_before(a: &TimerEntry, b: &TimerEntry) -> (r: bool)
    ensures
        r == entry_lt(*a, *b),
{
    a.when < b.when || (a.when == b.when && a.id < b.id)
}

impl TimerQueue {
    /// An empty queue.
    pub fn new() -> (q: TimerQueue)
        ensures
            q@.entries.len() == 0,
            q@.next_id == 0,
            q@.wf(),
    {
        TimerQueue { entries: Vec::new(), next_id: 0 }
    }

    /// Registers a timer with deadline `when` and waker `waker` under a fresh
    /// id, keeping firing order. Returns the id and whether the new
    /// registration is now the earliest of the queue — in that case a blocked
    /// reactor wait holds an outdated timeout and must be interrupted.
    pub fn insert(&mut self, when: u64, waker: u64) -> (r: (u64, bool))
        requires
            old(self)@.wf(),
            old(self)@.next_id < u64::MAX,
            old(self)@.entries.len() < usize::MAX,
        ensures
            final(self)@.wf(),
            r.0 as int == old(self)@.next_id,
            final(self)@.next_id == old(self)@.next_id + 1,
            (exists|i: int|
                0 <= i <= old(self)@.entries.len() && final(self)@.entries == old(self)@.entries.insert(i, (TimerEntry { when, id: r.0, waker }))),
            final(self)@.entries.contains((TimerEntry { when, id: r.0, waker })),
            forall|k: int|
                0 <= k < old(self)@.entries.len() ==> final(self)@.entries.contains(
                    old(self)@.entries[k],
                ),
            forall|k: int|
                0 <= k < final(self)@.entries.len() ==> old(self)@.entries.contains(
                    final(self)@.entries[k],
                ) || final(self)@.entries[k] == (TimerEntry { when, id: r.0, waker }),
            r.1 == (old(self)@.entries.len() == 0 || entry_lt(
                (TimerEntry { when, id: r.0, waker }),
                old(self)@.entries[0],
            )),
            r.1 == (final(self)@.entries[0] == (TimerEntry { when, id: r.0, waker })),
    {
        let id = self.next_id;
        self.next_id = id + 1;
        let e = TimerEntry { when, id, waker };
        let ghost s0 = self.entries@;
        let mut i: usize = 0;
        while i < self.entries.len()
            invariant_except_break
                i <= s0.len(),
                self.entries@ == s0,
                forall|k: int| 0 <= k < i ==> !entry_lt(e, s0[k]),
            ensures
                i <= s0.len(),
                self.entries@ == s0,
                forall|k: int| 0 <= k < i ==> !entry_lt(e, s0[k]),
                i < s0.len() ==> entry_lt(e, s0[i as int]),
            decreases s0.len() - i,
        {
            if entry_before(&e, &self.entries[i]) {
                break ;
            }
            i = i + 1;
        }
        self.entries.insert(i, e);
        proof {
            let s1 = self.entries@;
            assert forall|p: int, q: int| 0 <= p < q < s1.len() implies entry_lt(s1[p], s1[q]) by {
                if q == i {
                    assert(s1[p] == s0[p]);
                    assert(s0[p].id < e.id);
                } else if p == i {
                    assert(s1[q] == s0[q - 1]);
                    if i < s0.len() && q - 1 > i {
                        assert(entry_lt(s0[i as int], s0[q - 1]));
                    }
                } else if p < i && q > i {
                    assert(s1[p] == s0[p] && s1[q] == s0[q - 1]);
                    assert(s0[p].id < e.id);
                    if i < s0.len() {
                        assert(entry_lt(s0[i as int], s0[q - 1]) || i == q - 1);
                    }
                }
            }
            assert(s1[i as int] == e);
            assert forall|k: int| 0 <= k < s0.len() implies s1.contains(s0[k]) by {
                if k < i {
                    assert(s1[k] == s0[k]);
                } else {
                    assert(s1[k + 1] == s0[k]);
                }
            }
            assert forall|k: int| 0 <= k < s1.len() implies s0.contains(s1[k]) || s1[k] == e by {
                if k < i {
                    assert(s1[k] == s0[k]);
                } else if k > i {
                    assert(s1[k] == s0[k - 1]);
                }
            }
            if i > 0 {
                assert(s1[0] == s0[0]);
                assert(s0[0].id < e.id);
            }
        }
        (id, i == 0)
    }

    /// Deregisters the timer registered under `(when, id)`, if present, and
    /// reports whether it was. Every other registration is untouched; since
    /// ids are unique, a hit leaves no registration with that id behind.
    pub fn remove(&mut self, when: u64, id: u64) -> (found: bool)
        requires
            old(self)@.wf(),
        ensures
            final(self)@.wf(),
            final(self)@.next_id == old(self)@.next_id,
            found == (exists|k: int|
                0 <= k < old(self)@.entries.len() && old(self)@.entries[k].when == when && old(self)@.entries[k].id == id),
            !found ==> final(self)@ == old(self)@,
            found ==> (exists|k: int|
                0 <= k < old(self)@.entries.len() && old(self)@.entries[k].when == when && old(self)@.entries[k].id == id && final(self)@.entries == old(self)@.entries.remove(k)),
            found ==> !final(self)@.has_id(id),
            forall|k: int|
                0 <= k < old(self)@.entries.len() && old(self)@.entries[k].id != id ==> final(self)@.entries.contains(old(self)@.entries[k]),
            forall|k: int|
                0 <= k < final(self)@.entries.len() ==> old(self)@.entries.contains(
                    final(self)@.entries[k],
                ),
    {
        let ghost s0 = self.entries@;
        let mut i: usize = 0;
        while i < self.entries.len()
            invariant_except_break
                i <= s0.len(),
                self.entries@ == s0,
                forall|k: int| 0 <= k < i ==> !(s0[k].when == when && s0[k].id == id),
            ensures
                i <= s0.len(),
                self.entries@ == s0,
                forall|k: int| 0 <= k < i ==> !(s0[k].when == when && s0[k].id == id),
                i < s0.len() ==> (s0[i as int].when == when && s0[i as int].id == id),
            decreases s0.len() - i,
        {
            if self.entries[i].when == when && self.entries[i].id == id {
                break ;
            }
            i = i + 1;
        }
        if i == self.entries.len() {
            return false;
        }
        self.entries.remove(i);
        proof {
            let s1 = self.entries@;
            assert forall|p: int, q: int| 0 <= p < q < s1.len() implies entry_lt(s1[p], s1[q]) by {
                assert(s1[p] == (if p < i { s0[p] } else { s0[p + 1] }));
                assert(s1[q] == (if q < i { s0[q] } else { s0[q + 1] }));
            }
            assert forall|p: int, q: int| 0 <= p < q < s1.len() implies s1[p].id != s1[q].id by {
                assert(s1[p] == (if p < i { s0[p] } else { s0[p + 1] }));
                assert(s1[q] == (if q < i { s0[q] } else { s0[q + 1] }));
            }
            assert forall|k: int| 0 <= k < s1.len() implies s0.contains(s1[k]) && s1[k].id
                < old(self)@.next_id by {
                assert(s1[k] == (if k < i { s0[k] } else { s0[k + 1] }));
            }
            assert forall|k: int| 0 <= k < s1.len() implies s1[k].id != id by {
                assert(s1[k] == (if k < i { s0[k] } else { s0[k + 1] }));
            }
            assert forall|k: int| 0 <= k < s0.len() && s0[k].id != id implies s1.contains(
                s0[k],
            ) by {
                if k < i {
                    assert(s1[k] == s0[k]);
                } else if k > i {
                    assert(s1[k - 1] == s0[k]);
                }
            }
        }
        true
    }

    /// Takes every registration whose deadline has passed, in firing order,
    /// leaving only those still pending. The drained wakers are to be woken
    /// after the queue's lock is released.
    pub fn expire(&mut self, now: u64) -> (fired: Vec<TimerEntry>)
        requires
            old(self)@.wf(),
        ensures
            final(self)@.wf(),
            final(self)@.next_id == old(self)@.next_id,
            old(self)@.entries == fired@ + final(self)@.entries,
            forall|k: int| 0 <= k < fired@.len() ==> fired@[k].when <= now,
            forall|k: int|
                0 <= k < final(self)@.entries.len() ==> final(self)@.entries[k].when > now,
            sorted_entries(fired@),
    {
        let ghost s0 = self.entries@;
        let mut i: usize = 0;
        while i < self.entries.len()
            invariant_except_break
                i <= s0.len(),
                self.entries@ == s0,
                forall|k: int| 0 <= k < i ==> s0[k].when <= now,
                sorted_entries(s0),
            ensures
                i <= s0.len(),
                self.entries@ == s0,
                forall|k: int| 0 <= k < i ==> s0[k].when <= now,
                i < s0.len() ==> s0[i as int].when > now,
                sorted_entries(s0),
            decreases s0.len() - i,
        {
            if self.entries[i].when > now {
                break ;
            }
            i = i + 1;
        }
        let kept = self.entries.split_off(i);
        let mut fired = kept;
        core::mem::swap(&mut fired, &mut self.entries);
        proof {
            assert(s0 =~= fired@ + self.entries@);
            assert forall|k: int| 0 <= k < self.entries@.len() implies self.entries@[k].when
                > now by {
                assert(self.entries@[k] == s0[k + i]);
                if k > 0 {
                    assert(entry_lt(s0[i as int], s0[k + i]));
                }
            }
        }
        fired
    }

    /// The deadline the reactor's blocking wait must respect: the earliest
    /// registration's, or nothing when no timer is pending.
    pub fn next_deadline(&self) -> (d: Option<u64>)
        ensures
            d == (if self@.entries.len() == 0 {
                Option::<u64>::None
            } else {
                Option::Some(self@.entries[0].when)
            }),
    {
        if self.entries.len() == 0 {
            None
        } else {
            Some(self.entries[0].when)
        }
    }

    /// How long the reactor may block at clock reading `now`: forever when no
    /// timer is pending, not at all when one is already due, and otherwise
    /// until the earliest deadline.
    pub fn timeout_until(&self, now: u64) -> (t: Option<u64>)
        ensures
            t == (if self@.entries.len() == 0 {
                Option::<u64>::None
            } else if self@.entries[0].when <= now {
                Option::Some(0u64)
            } else {
                Option::Some((self@.entries[0].when - now) as u64)
            }),
    {
        if self.entries.len() == 0 {
            None
        } else {
            let first = self.entries[0].when;
            if first <= now {
                Some(0)
            } else {
                Some(first - now)
            }
        }
    }
}

/// Timer monotonicity: a batch of expired registrations split off a
/// well-formed queue at clock reading `now` fires in deadline order, every
/// fired deadline has passed, and every kept deadline lies strictly in the
/// future — so no timer resolves before its deadline, and none fires after a
/// timer with a later deadline.
pub proof fn lemma_timers_fire_in_deadline_order(
    q: QueueModel,
    fired: Seq<TimerEntry>,
    kept: Seq<TimerEntry>,
    now: u64,
)
    requires
        q.wf(),
        q.entries == fired + kept,
        forall|k: int| 0 <= k < fired.len() ==> fired[k].when <= now,
        forall|k: int| 0 <= k < kept.len() ==> kept[k].when > now,
    ensures
        forall|i: int, j: int| 0 <= i < j < fired.len() ==> fired[i].when <= fired[j].when,
        forall|i: int, j: int|
            0 <= i < fired.len() && 0 <= j < kept.len() ==> #[trigger] fired[i].when <= now
                < #[trigger] kept[j].when,
{
    assert forall|i: int, j: int| 0 <= i < j < fired.len() implies fired[i].when
        <= fired[j].when by {
        assert(q.entries[i] == fired[i] && q.entries[j] == fired[j]);
        assert(entry_lt(q.entries[i], q.entries[j]));
    }
}

} // verus!
