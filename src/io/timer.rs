//! The timer list: pending deadlines, each with the I/O ticket that it
//! cancels when it fires, kept in deadline order.
use vstd::prelude::*;

verus! {

/// What a timer hands to its expiry callback: the OS handle of the I/O in
/// flight, and the key of its completion record.
#[derive(Clone, Copy, Debug, PartialEq, Eq, Structural)]
pub struct TimerData {
    pub handle: usize,
    pub overlapped: usize,
}

/// Names one pending timer; it stays valid until the timer fires or is
/// removed, however the list is reordered meanwhile.
#[derive(Clone, Copy, Debug, PartialEq, Eq, Structural)]
pub struct TimerHandle {
    pub id: u64,
}

/// A pending timer: its deadline in nanoseconds of monotonic time, its
/// identity and what it carries.
#[derive(Clone, Copy, Debug, PartialEq, Eq, Structural)]
pub struct TimerEntry {
    pub deadline: u64,
    pub id: u64,
    pub data: TimerData,
}

/// Whether the entries are in deadline order.
pub open spec fn sorted(s: Seq<TimerEntry>) -> bool {
    forall|i: int, j: int| 0 <= i < j < s.len() ==> s[i].deadline <= s[j].deadline
}

/// Whether no two entries share an identity.
pub open spec fn ids_unique(s: Seq<TimerEntry>) -> bool {
    forall|i: int, j: int| 0 <= i < j < s.len() ==> s[i].id != s[j].id
}

/// The pending timers, earliest deadline first; among equal deadlines the
/// one added first comes first.
pub struct TimerList {
    entries: Vec<TimerEntry>,
    next_id: u64,
}

impl View for TimerList {
    type V = Seq<TimerEntry>;

    closed spec fn view(&self) -> Seq<TimerEntry> {
        self.entries@
    }
}

impl TimerList {
    /// Whether the list is well formed: in order, identities unique and
    /// below the next one to be given out.
    pub closed spec fn wf(&self) -> bool {
        &&& sorted(self.entries@)
        &&& ids_unique(self.entries@)
        &&& forall|i: int| 0 <= i < self.entries@.len() ==> self.entries@[i].id < self.next_id
    }

    /// Whether another timer can still be given an identity of its own.
    pub closed spec fn can_add(&self) -> bool {
        self.next_id < u64::MAX
    }

    /// A well-formed list is in deadline order.
    pub proof fn lemma_wf_sorted(&self)
        requires
            self.wf(),
        ensures
            sorted(self@),
    {
    }

    /// An empty list.
    pub fn new() -> (l: TimerList)
        ensures
            l.wf(),
            l@ == Seq::<TimerEntry>::empty(),
            l.can_add(),
    {
        TimerList { entries: Vec::new(), next_id: 0 }
    }

    /// Adds a timer for `deadline` after every pending one that is due no
    /// later. `None` only once 2^64 - 1 timers have been handed out.
    pub fn add(&mut self, deadline: u64, data: TimerData) -> (h: Option<TimerHandle>)
        requires
            old(self).wf(),
        ensures
            final(self).wf(),
            h is None <==> !old(self).can_add(),
            h is None ==> final(self)@ == old(self)@,
            h matches Some(h) ==> ({
                let p = count_due(old(self)@, deadline) as int;
                &&& final(self)@ == old(self)@.insert(p, TimerEntry { deadline, id: h.id, data })
                &&& forall|i: int| 0 <= i < old(self)@.len() ==> old(self)@[i].id != h.id
            }),
    {
        if self.next_id == u64::MAX {
            return None;
        }
        let id = self.next_id;
        let mut p: usize = 0;
        while p < self.entries.len() && self.entries[p].deadline <= deadline
            invariant
                self.entries@ == old(self)@,
                p <= self.entries@.len(),
                forall|i: int| 0 <= i < p ==> self.entries@[i].deadline <= deadline,
            decreases self.entries@.len() - p,
        {
            p = p + 1;
        }
        proof {
            lemma_count_due(self.entries@, deadline, p as int);
        }
        let e = TimerEntry { deadline, id, data };
        self.entries.insert(p, e);
        self.next_id = id + 1;
        let ghost s = self.entries@;
        assert(sorted(s)) by {
            assert forall|i: int, j: int| 0 <= i < j < s.len() implies s[i].deadline <= s[j].deadline by {
                let o = old(self)@;
                if i < p && j > p {
                    assert(s[i] == o[i]);
                    assert(s[j] == o[j - 1]);
                } else if j == p {
                    assert(s[i] == o[i]);
                } else if i == p {
                    assert(s[j] == o[j - 1]);
                    if j - 1 > p {
                        assert(o[p as int].deadline <= o[j - 1].deadline);
                    }
                }
            }
        }
        Some(TimerHandle { id })
    }

    /// Removes the timer that `h` names and returns what it carried; `None`
    /// when it is no longer pending.
    pub fn remove(&mut self, h: TimerHandle) -> (r: Option<TimerData>)
        requires
            old(self).wf(),
        ensures
            final(self).wf(),
            final(self).can_add() == old(self).can_add(),
            (r is None) <==> (forall|i: int| 0 <= i < old(self)@.len() ==> old(self)@[i].id != h.id),
            forall|i: int| 0 <= i < final(self)@.len() ==> #[trigger] final(self)@[i].id != h.id,
            r is None ==> final(self)@ == old(self)@,
            r matches Some(d) ==> exists|i: int|
                0 <= i < old(self)@.len() && old(self)@[i].id == h.id && old(self)@[i].data == d
                    && final(self)@ == old(self)@.remove(i),
    {
        let mut i: usize = 0;
        while i < self.entries.len()
            invariant
                self.entries@ == old(self)@,
                self.next_id == old(self).next_id,
                old(self).wf(),
                i <= self.entries@.len(),
                forall|k: int| 0 <= k < i ==> self.entries@[k].id != h.id,
            decreases self.entries@.len() - i,
        {
            if self.entries[i].id == h.id {
                let e = self.entries.remove(i);
                proof {
                    let o = old(self)@;
                    let s = self.entries@;
                    assert forall|a: int, b: int| 0 <= a < b < s.len() implies s[a].deadline <= s[b].deadline
                        && s[a].id != s[b].id by {
                        let a1 = if a < i { a } else { a + 1 };
                        let b1 = if b < i { b } else { b + 1 };
                        assert(s[a] == o[a1] && s[b] == o[b1]);
                    }
                    assert forall|a: int| 0 <= a < s.len() implies s[a].id < self.next_id && s[a].id != h.id by {
                        let a1 = if a < i { a } else { a + 1 };
                        assert(s[a] == o[a1]);
                        if a < i {
                            assert(o[a].id != o[i as int].id);
                        } else {
                            assert(o[i as int].id != o[a + 1].id);
                        }
                    }
                }
                return Some(e.data);
            }
            i = i + 1;
        }
        None
    }

    /// The earliest pending deadline.
    pub fn earliest_deadline(&self) -> (r: Option<u64>)
        ensures
            r == (if self@.len() == 0 { None } else { Some(self@[0].deadline) }),
    {
        if self.entries.len() == 0 {
            None
        } else {
            Some(self.entries[0].deadline)
        }
    }

    /// Takes out every timer due at `now` or earlier and returns what they
    /// carried, earliest first.
    pub fn expire_until(&mut self, now: u64) -> (fired: Vec<TimerData>)
        requires
            old(self).wf(),
        ensures
            final(self).wf(),
            final(self).can_add() == old(self).can_add(),
            ({
                let k = count_due(old(self)@, now) as int;
                &&& final(self)@ == old(self)@.skip(k)
                &&& fired@.len() == k
                &&& forall|i: int| 0 <= i < k ==> fired@[i] == #[trigger] old(self)@[i].data
            }),
    {
        let mut k: usize = 0;
        while k < self.entries.len() && self.entries[k].deadline <= now
            invariant
                self.entries@ == old(self)@,
                k <= self.entries@.len(),
                forall|i: int| 0 <= i < k ==> self.entries@[i].deadline <= now,
            decreases self.entries@.len() - k,
        {
            k = k + 1;
        }
        proof {
            lemma_count_due(self.entries@, now, k as int);
        }
        let rest = self.entries.split_off(k);
        let mut fired: Vec<TimerData> = Vec::new();
        let mut i: usize = 0;
        while i < self.entries.len()
            invariant
                i <= self.entries@.len(),
                self.entries@ == old(self)@.take(k as int),
                k <= old(self)@.len(),
                fired@.len() == i,
                forall|j: int| 0 <= j < i ==> fired@[j] == old(self)@[j].data,
            decreases self.entries@.len() - i,
        {
            fired.push(self.entries[i].data);
            i = i + 1;
        }
        self.entries = rest;
        proof {
            let o = old(self)@;
            let s = self.entries@;
            assert(s =~= o.skip(k as int));
            assert forall|a: int, b: int| 0 <= a < b < s.len() implies s[a].deadline <= s[b].deadline
                && s[a].id != s[b].id by {
                assert(s[a] == o[a + k] && s[b] == o[b + k]);
            }
            assert forall|a: int| 0 <= a < s.len() implies s[a].id < self.next_id by {
                assert(s[a] == o[a + k]);
            }
        }
        fired
    }
}

/// How many entries at the front of a sorted list are due at `t`.
pub open spec fn count_due(s: Seq<TimerEntry>, t: u64) -> nat
    decreases s.len(),
{
    if s.len() == 0 || s[0].deadline > t {
        0
    } else {
        1 + count_due(s.drop_first(), t)
    }
}

proof fn lemma_count_due(s: Seq<TimerEntry>, t: u64, p: int)
    requires
        sorted(s),
        0 <= p <= s.len(),
        forall|i: int| 0 <= i < p ==> s[i].deadline <= t,
        p == s.len() || s[p].deadline > t,
    ensures
        count_due(s, t) == p,
    decreases s.len(),
{
    if s.len() > 0 && p > 0 {
        let r = s.drop_first();
        assert forall|i: int, j: int| 0 <= i < j < r.len() implies r[i].deadline <= r[j].deadline by {
            assert(r[i] == s[i + 1] && r[j] == s[j + 1]);
        }
        lemma_count_due(r, t, p - 1);
    }
}

/// A timer is never late: whatever else is pending, a timer whose deadline
/// is no later than `now` is among those that `expire_until(now)` fires.
pub proof fn lemma_due_timer_fires(s: Seq<TimerEntry>, now: u64, i: int)
    requires
        sorted(s),
        0 <= i < s.len(),
        s[i].deadline <= now,
    ensures
        i < count_due(s, now),
    decreases s.len(),
{
    assert(s[0].deadline <= s[i].deadline);
    if i > 0 {
        let r = s.drop_first();
        assert forall|a: int, b: int| 0 <= a < b < r.len() implies r[a].deadline <= r[b].deadline by {
            assert(r[a] == s[a + 1] && r[b] == s[b + 1]);
        }
        assert(r[i - 1] == s[i]);
        lemma_due_timer_fires(r, now, i - 1);
    }
}

} // verus!
