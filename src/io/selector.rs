//! The completion selector: how a finished I/O operation's status is turned
//! into the result that its coroutine resumes with, the timers that bound
//! each operation, and the poll timeout handed to the OS.
use vstd::prelude::*;

use crate::io::timer::{count_due, lemma_due_timer_fires, TimerData, TimerEntry, TimerHandle, TimerList};

verus! {

/// Completion status of an operation that succeeded.
pub const NO_ERROR: u32 = 0;

/// Completion status of an operation that was cancelled; the selector only
/// cancels an operation when its timer fires.
pub const ERROR_OPERATION_ABORTED: u32 = 995;

/// Nanoseconds in a millisecond.
pub const NANOS_PER_MILLI: u64 = 1_000_000;

/// Why an I/O operation failed.
#[derive(Clone, Copy, Debug, PartialEq, Eq, Structural)]
pub enum IoError {
    /// The operation's timer fired before it completed.
    TimedOut,
    /// The OS reported this error code.
    Os(u32),
}

/// What the OS wrote into an operation's completion record: its status
/// code and the number of bytes transferred.
#[derive(Clone, Copy, Debug, PartialEq, Eq, Structural)]
pub struct Overlapped {
    pub status: u32,
    pub transferred: usize,
}

/// The error that a completion status stands for, if any.
pub open spec fn spec_decode_status(status: u32) -> Option<IoError> {
    if status == NO_ERROR {
        None
    } else if status == ERROR_OPERATION_ABORTED {
        Some(IoError::TimedOut)
    } else {
        Some(IoError::Os(status))
    }
}

/// Nanoseconds as milliseconds, rounded up.
pub open spec fn spec_ns_to_ms(ns: u64) -> int {
    (ns + NANOS_PER_MILLI - 1) / (NANOS_PER_MILLI as int)
}

/// The poll timeout in milliseconds for one of `timeout` nanoseconds,
/// rounded up and clamped to what the OS accepts; `None` waits forever.
pub open spec fn spec_poll_timeout(timeout: Option<u64>) -> Option<u32> {
    match timeout {
        None => None,
        Some(ns) => Some(
            if spec_ns_to_ms(ns) > u32::MAX as int {
                u32::MAX
            } else {
                spec_ns_to_ms(ns) as u32
            },
        ),
    }
}

/// Decodes a completion status.
pub fn decode_status(status: u32) -> (r: Option<IoError>)
    ensures
        r == spec_decode_status(status),
{
    if status == NO_ERROR {
        None
    } else if status == ERROR_OPERATION_ABORTED {
        Some(IoError::TimedOut)
    } else {
        Some(IoError::Os(status))
    }
}

/// Nanoseconds as milliseconds, rounded up.
pub fn ns_to_ms(ns: u64) -> (ms: u64)
    ensures
        ms == spec_ns_to_ms(ns),
{
    let q = ns / NANOS_PER_MILLI;
    let r = ns % NANOS_PER_MILLI;
    if r == 0 {
        q
    } else {
        q + 1
    }
}

/// The poll timeout in milliseconds for one of `timeout` nanoseconds.
pub fn poll_timeout(timeout: Option<u64>) -> (r: Option<u32>)
    ensures
        r == spec_poll_timeout(timeout),
{
    match timeout {
        None => None,
        Some(ns) => {
            let ms = ns_to_ms(ns);
            if ms > u32::MAX as u64 {
                Some(u32::MAX)
            } else {
                Some(ms as u32)
            }
        },
    }
}

/// The record of one I/O operation in flight: the OS handle it runs on, the
/// key of its completion record, what the OS wrote there, its timer if it
/// has one, and the coroutine that waits for it.
pub struct EventData {
    pub overlapped: Overlapped,
    pub handle: usize,
    pub key: usize,
    pub timer: Option<TimerHandle>,
    pub co: Option<usize>,
}

impl EventData {
    /// The completion record as the OS last wrote it.
    pub open spec fn spec_overlapped(&self) -> Overlapped {
        self.overlapped
    }

    /// The OS handle that the operation runs on.
    pub open spec fn spec_handle(&self) -> usize {
        self.handle
    }

    /// The key under which the OS reports the operation's completion.
    pub open spec fn spec_key(&self) -> usize {
        self.key
    }

    /// A record for an operation on `handle`, reported under `key`, with
    /// nothing written yet, no timer and no coroutine.
    pub fn new(handle: usize, key: usize) -> (e: EventData)
        ensures
            e.spec_handle() == handle,
            e.spec_key() == key,
            e.spec_overlapped() == (Overlapped { status: NO_ERROR, transferred: 0 }),
            e.timer is None,
            e.co is None,
    {
        EventData {
            overlapped: Overlapped { status: NO_ERROR, transferred: 0 },
            handle,
            key,
            timer: None,
            co: None,
        }
    }

    /// Records what the OS reported for the operation.
    pub fn set_overlapped(&mut self, o: Overlapped)
        ensures
            final(self).spec_overlapped() == o,
            final(self).spec_handle() == old(self).spec_handle(),
            final(self).spec_key() == old(self).spec_key(),
            final(self).timer == old(self).timer,
            final(self).co == old(self).co,
    {
        self.overlapped = o;
    }

    /// The completion record.
    pub fn get_overlapped(&self) -> (o: Overlapped)
        ensures
            o == self.spec_overlapped(),
    {
        self.overlapped
    }

    /// What a timer of this operation hands to its expiry callback.
    pub fn timer_data(&self) -> (d: TimerData)
        ensures
            d == (TimerData { handle: self.spec_handle(), overlapped: self.spec_key() }),
    {
        TimerData { handle: self.handle, overlapped: self.key }
    }

    /// The number of bytes that the operation transferred.
    pub fn get_io_size(&self) -> (n: usize)
        ensures
            n == self.spec_overlapped().transferred,
    {
        self.overlapped.transferred
    }
}

/// A coroutine to resume, and the result of its I/O operation.
#[derive(Clone, Copy, Debug, PartialEq, Eq)]
pub struct Wakeup {
    pub co: usize,
    pub result: Result<usize, IoError>,
}

/// The result that a completion record stands for: the bytes transferred,
/// or the error that its status means.
pub open spec fn spec_io_result(o: Overlapped) -> Result<usize, IoError> {
    match spec_decode_status(o.status) {
        None => Ok(o.transferred),
        Some(e) => Err(e),
    }
}

/// The pending timers once the timer `t` of an operation is dropped from
/// `before`: with no timer, or one that is no longer pending, nothing
/// changes; otherwise exactly its entry goes.
pub open spec fn timers_after_drop(
    before: Seq<TimerEntry>,
    t: Option<TimerHandle>,
    after: Seq<TimerEntry>,
) -> bool {
    match t {
        None => after == before,
        Some(h) => if forall|i: int| 0 <= i < before.len() ==> before[i].id != h.id {
            after == before
        } else {
            exists|i: int| 0 <= i < before.len() && before[i].id == h.id && after == before.remove(i)
        },
    }
}

/// The selector's own state: the timers of the operations in flight.
pub struct Selector {
    timers: TimerList,
}

impl Selector {
    /// Whether the timer list is well formed.
    pub closed spec fn wf(&self) -> bool {
        self.timers.wf()
    }

    /// The pending timers, earliest first.
    pub closed spec fn spec_timers(&self) -> Seq<TimerEntry> {
        self.timers@
    }

    /// Whether another timer can still be given an identity of its own.
    pub closed spec fn can_add(&self) -> bool {
        self.timers.can_add()
    }

    /// A selector with no timers.
    pub fn new() -> (s: Selector)
        ensures
            s.wf(),
            s.can_add(),
            s.spec_timers() == Seq::<TimerEntry>::empty(),
    {
        Selector { timers: TimerList::new() }
    }

    /// Registers an operation before it starts. A completion port needs
    /// nothing for it: the operation is reported on the port it was
    /// started on.
    pub fn add_io(&self, io: &mut EventData)
        ensures
            *final(io) == *old(io),
    {
    }

    /// Bounds `io` by a timer due `timeout` nanoseconds after `now` (at the
    /// end of time if that overflows); with no timeout, nothing changes.
    pub fn add_io_timer(&mut self, io: &mut EventData, timeout: Option<u64>, now: u64)
        requires
            old(self).wf(),
        ensures
            final(self).wf(),
            final(io).co == old(io).co,
            final(io).spec_overlapped() == old(io).spec_overlapped(),
            final(io).spec_handle() == old(io).spec_handle(),
            final(io).spec_key() == old(io).spec_key(),
            timeout is None ==> *final(io) == *old(io) && final(self).spec_timers() == old(self).spec_timers(),
            timeout is Some && old(self).can_add() ==> final(io).timer is Some,
            timeout matches Some(t) ==> ({
                let deadline = if now + t > u64::MAX { u64::MAX } else { (now + t) as u64 };
                let entry_data = old(io).timer_data_spec();
                match final(io).timer {
                    Some(h) => final(self).spec_timers() == old(self).spec_timers().insert(
                        count_due(old(self).spec_timers(), deadline) as int,
                        TimerEntry { deadline, id: h.id, data: entry_data },
                    ),
                    None => final(self).spec_timers() == old(self).spec_timers(),
                }
            }),
    {
        match timeout {
            None => {},
            Some(t) => {
                let deadline = now.saturating_add(t);
                let h = self.timers.add(deadline, io.timer_data());
                io.timer = h;
            },
        }
    }

    /// The completion of `io` has been reported: its timer, if any, is
    /// removed, and its coroutine is taken out of the record to be resumed
    /// with the result that the completion record stands for. `None` when
    /// no coroutine waits in the record.
    pub fn complete(&mut self, io: &mut EventData) -> (w: Option<Wakeup>)
        requires
            old(self).wf(),
        ensures
            final(self).wf(),
            final(io).co is None,
            final(io).timer is None,
            w == (match old(io).co {
                Some(co) => Some(Wakeup { co, result: spec_io_result(old(io).spec_overlapped()) }),
                None => None,
            }),
            final(self).can_add() == old(self).can_add(),
            timers_after_drop(old(self).spec_timers(), old(io).timer, final(self).spec_timers()),
    {
        match io.timer.take() {
            Some(h) => {
                let _ = self.timers.remove(h);
            },
            None => {},
        }
        match io.co.take() {
            Some(co) => {
                let result = match decode_status(io.overlapped.status) {
                    None => Ok(io.overlapped.transferred),
                    Some(e) => Err(e),
                };
                Some(Wakeup { co, result })
            },
            None => None,
        }
    }

    /// Starting the operation of `io` failed, so no completion will come:
    /// its timer, if any, is removed and its coroutine is taken back, to be
    /// resumed at once with the error.
    pub fn abandon(&mut self, io: &mut EventData) -> (co: Option<usize>)
        requires
            old(self).wf(),
        ensures
            final(self).wf(),
            co == old(io).co,
            final(io).co is None,
            final(io).timer is None,
            final(self).can_add() == old(self).can_add(),
            timers_after_drop(old(self).spec_timers(), old(io).timer, final(self).spec_timers()),
    {
        match io.timer.take() {
            Some(h) => {
                let _ = self.timers.remove(h);
            },
            None => {},
        }
        io.co.take()
    }

    /// How long the OS may block before the earliest timer is due: the
    /// nanoseconds from `now` to it (zero if it is due already), capped by
    /// `cap`; `None` when neither bounds it.
    pub fn next_timeout(&self, now: u64, cap: Option<u64>) -> (r: Option<u64>)
        ensures
            r == (match (self.spec_earliest(), cap) {
                (None, c) => c,
                (Some(d), None) => Some(if d > now { (d - now) as u64 } else { 0 }),
                (Some(d), Some(c)) => {
                    let t = if d > now { (d - now) as u64 } else { 0 };
                    Some(if t < c { t } else { c })
                },
            }),
    {
        match self.timers.earliest_deadline() {
            None => cap,
            Some(d) => {
                let t = if d > now { d - now } else { 0 };
                match cap {
                    None => Some(t),
                    Some(c) => Some(if t < c { t } else { c }),
                }
            },
        }
    }

    /// The earliest pending deadline.
    pub closed spec fn spec_earliest(&self) -> Option<u64> {
        if self.timers@.len() == 0 { None } else { Some(self.timers@[0].deadline) }
    }

    /// Takes out the timers due at `now` or earlier and returns what they
    /// carry, earliest first: each names an operation to cancel, which is
    /// then reported as aborted and resumes its coroutine with `TimedOut`.
    pub fn expire(&mut self, now: u64) -> (fired: Vec<TimerData>)
        requires
            old(self).wf(),
        ensures
            final(self).wf(),
            final(self).can_add() == old(self).can_add(),
            ({
                let k = count_due(old(self).spec_timers(), now) as int;
                &&& final(self).spec_timers() == old(self).spec_timers().skip(k)
                &&& fired@.len() == k
                &&& forall|i: int| 0 <= i < k ==> fired@[i] == #[trigger] old(self).spec_timers()[i].data
            }),
    {
        self.timers.expire_until(now)
    }
}

impl EventData {
    /// What a timer of this operation hands to its expiry callback.
    pub open spec fn timer_data_spec(&self) -> TimerData {
        TimerData { handle: self.spec_handle(), overlapped: self.spec_key() }
    }
}

/// A timed-out operation resumes its coroutine with `TimedOut`: when the
/// `i`-th pending timer of a selector is due at `now`, `expire(now)` fires
/// it, which cancels its operation; the completion then reported as aborted
/// stands for `Err(TimedOut)`.
pub proof fn lemma_timeout_resumes_timed_out(s: &Selector, now: u64, i: int, o: Overlapped)
    requires
        s.wf(),
        0 <= i < s.spec_timers().len(),
        s.spec_timers()[i].deadline <= now,
        o.status == ERROR_OPERATION_ABORTED,
    ensures
        i < count_due(s.spec_timers(), now),
        spec_io_result(o) == Err::<usize, IoError>(IoError::TimedOut),
{
    s.timers.lemma_wf_sorted();
    lemma_due_timer_fires(s.timers@, now, i);
}

} // verus!
