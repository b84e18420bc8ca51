//! The timer queue. The runtime sleeps until the earliest timer that was not cancelled is
//! due, and a new timer that is due no later than the earliest one interrupts that sleep.
use vstd::prelude::*;

verus! {

/// A timer in the queue. Times are milliseconds since an origin that the driver chooses.
#[derive(Clone, Copy, Debug, PartialEq, Eq, Structural)]
pub struct TimerEntry {
    pub id: i32,
    pub deadline: u64,
    pub enqueued: u64,
    /// The timer was cleared: it will never fire.
    pub canceled: bool,
}

/// Whether `a` is due no later than `b`: by deadline, then by the time it was enqueued.
pub open spec fn precedes(a: TimerEntry, b: TimerEntry) -> bool {
    a.deadline < b.deadline || (a.deadline == b.deadline && a.enqueued <= b.enqueued)
}

/// Whether `s[i]` is due no later than every timer of `s`.
pub open spec fn is_earliest(s: Seq<TimerEntry>, i: int) -> bool {
    0 <= i < s.len() && forall|j: int| 0 <= j < s.len() ==> precedes(s[i], #[trigger] s[j])
}

/// Whether `s[i]` is the first, in queue order, of the timers due no later than every timer
/// of `s`: the one that leaves the queue first.
pub open spec fn is_next(s: Seq<TimerEntry>, i: int) -> bool {
    is_earliest(s, i) && forall|j: int| 0 <= j < i ==> !precedes(#[trigger] s[j], s[i])
}

/// At most one timer of a queue is the next one.
pub proof fn lemma_next_unique(s: Seq<TimerEntry>, i: int, k: int)
    requires
        is_next(s, i),
        is_next(s, k),
    ensures
        i == k,
{
    if i < k {
        assert(precedes(s[i], s[k]));
    } else if k < i {
        assert(precedes(s[k], s[i]));
    }
}

impl TimerEntry {
    /// Whether this timer is due no later than `other`.
    pub fn precedes(&self, other: &TimerEntry) -> (r: bool)
        ensures
            r == precedes(*self, *other),
    {
        self.deadline < other.deadline || (self.deadline == other.deadline && self.enqueued
            <= other.enqueued)
    }
}

/// The pending timers of a runtime.
pub struct TimerQueue {
    entries: Vec<TimerEntry>,
}

impl View for TimerQueue {
    type V = Seq<TimerEntry>;

    closed spec fn view(&self) -> Seq<TimerEntry> {
        self.entries@
    }
}

impl TimerQueue {
    pub fn new() -> (r: TimerQueue)
        ensures
            r@ == Seq::<TimerEntry>::empty(),
    {
        TimerQueue { entries: Vec::new() }
    }

    pub fn len(&self) -> (r: usize)
        ensures
            r == self@.len(),
    {
        self.entries.len()
    }

    /// The index of the next timer.
    fn earliest(&self) -> (r: usize)
        requires
            self@.len() > 0,
        ensures
            is_next(self@, r as int),
    {
        let mut best: usize = 0;
        let mut i: usize = 1;
        while i < self.entries.len()
            invariant
                1 <= i <= self.entries@.len(),
                best < i,
                forall|j: int| 0 <= j < i ==> precedes(self.entries@[best as int], #[trigger] self.entries@[j]),
                forall|j: int| 0 <= j < best ==> !precedes(#[trigger] self.entries@[j], self.entries@[best as int]),
            decreases self.entries@.len() - i,
        {
            if !self.entries[best].precedes(&self.entries[i]) {
                best = i;
            }
            i = i + 1;
        }
        best
    }

    /// Adds the timer `id`, due `delay_ms` (a negative delay counts as none) after `now`.
    /// Returns whether the sleep on the earliest timer is to be interrupted: the new timer is
    /// due no later than the next timer, and that one was not cancelled.
    pub fn create_timer(&mut self, now: u64, delay_ms: i32, id: i32) -> (r: bool)
        requires
            now + 2147483647 <= u64::MAX,
        ensures
            ({
                let entry = TimerEntry {
                    id,
                    deadline: (now + (if delay_ms > 0 {
                        delay_ms as int
                    } else {
                        0
                    })) as u64,
                    enqueued: now,
                    canceled: false,
                };
                &&& final(self)@ == old(self)@.push(entry)
                &&& r == exists|i: int|
                    is_next(old(self)@, i) && precedes(entry, #[trigger] old(self)@[i])
                        && !old(self)@[i].canceled
            }),
    {
        let delay: u64 = if delay_ms > 0 {
            delay_ms as u64
        } else {
            0
        };
        let entry = TimerEntry { id, deadline: now + delay, enqueued: now, canceled: false };
        let mut interrupt = false;
        if self.entries.len() > 0 {
            let first = self.earliest();
            interrupt = entry.precedes(&self.entries[first]) && !self.entries[first].canceled;
            proof {
                assert forall|i: int| #[trigger] is_next(old(self)@, i) implies i == first by {
                    lemma_next_unique(old(self)@, i, first as int);
                }
            }
        }
        self.entries.push(entry);
        interrupt
    }

    /// Clears every timer `id`: it will never fire.
    pub fn cancel(&mut self, id: i32)
        ensures
            final(self)@.len() == old(self)@.len(),
            forall|j: int|
                0 <= j < old(self)@.len() ==> #[trigger] final(self)@[j] == (if old(self)@[j].id == id {
                    TimerEntry { canceled: true, ..old(self)@[j] }
                } else {
                    old(self)@[j]
                }),
    {
        let mut i: usize = 0;
        while i < self.entries.len()
            invariant
                i <= self.entries@.len() == old(self)@.len(),
                forall|j: int|
                    0 <= j < i ==> #[trigger] self.entries@[j] == (if old(self)@[j].id == id {
                        TimerEntry { canceled: true, ..old(self)@[j] }
                    } else {
                        old(self)@[j]
                    }),
                forall|j: int| i <= j < self.entries@.len() ==> #[trigger] self.entries@[j] == old(self)@[j],
            decreases self.entries@.len() - i,
        {
            if self.entries[i].id == id {
                let mut e = self.entries[i];
                e.canceled = true;
                self.entries.set(i, e);
            }
            i = i + 1;
        }
    }

    /// Drops cancelled timers from the front of the queue and names the earliest timer that
    /// remains, with its deadline: the one to sleep on. `None` when no timer remains.
    pub fn next_due(&mut self) -> (r: Option<(i32, u64)>)
        ensures
            forall|e: TimerEntry| #[trigger] final(self)@.contains(e) ==> old(self)@.contains(e),
            forall|e: TimerEntry| #[trigger] old(self)@.contains(e) ==> final(self)@.contains(e) || e.canceled,
            match r {
                Some((id, deadline)) => exists|i: int|
                    is_next(final(self)@, i) && #[trigger] final(self)@[i].id == id
                        && final(self)@[i].deadline == deadline && !final(self)@[i].canceled,
                None => final(self)@.len() == 0,
            },
    {
        loop
            invariant
                forall|e: TimerEntry| #[trigger] self.entries@.contains(e) ==> old(self)@.contains(e),
                forall|e: TimerEntry| #[trigger] old(self)@.contains(e) ==> self.entries@.contains(e) || e.canceled,
            decreases self.entries@.len(),
        {
            if self.entries.len() == 0 {
                return None;
            }
            let first = self.earliest();
            if !self.entries[first].canceled {
                let e = self.entries[first];
                return Some((e.id, e.deadline));
            }
            let ghost before = self.entries@;
            self.entries.remove(first);
            proof {
                assert forall|e: TimerEntry| #[trigger] self.entries@.contains(e) implies before.contains(e) by {
                    let k = choose|k: int| 0 <= k < self.entries@.len() && self.entries@[k] == e;
                    if k < first {
                        assert(before[k] == e);
                    } else {
                        assert(before[k + 1] == e);
                    }
                }
                assert forall|e: TimerEntry| #[trigger] before.contains(e) implies self.entries@.contains(e) || e.canceled by {
                    let k = choose|k: int| 0 <= k < before.len() && before[k] == e;
                    if k < first {
                        assert(self.entries@[k] == e);
                    } else if k > first {
                        assert(self.entries@[k - 1] == e);
                    }
                }
            }
        }
    }

    /// The sleep on the next timer (the one that `next_due` named) ended without
    /// interruption: that timer leaves the queue and fires. Returns its id.
    pub fn fire(&mut self) -> (r: Option<i32>)
        ensures
            old(self)@.len() == 0 ==> r is None && final(self)@ == old(self)@,
            old(self)@.len() > 0 ==> exists|i: int|
                is_next(old(self)@, i) && r == Some(#[trigger] old(self)@[i].id) && final(self)@ == old(
                    self,
                )@.remove(i),
    {
        if self.entries.len() == 0 {
            return None;
        }
        let first = self.earliest();
        let e = self.entries.remove(first);
        Some(e.id)
    }
}

} // verus!
