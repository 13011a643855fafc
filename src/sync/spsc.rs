//! The single-producer single-consumer channel: its protocol state and the
//! steps that the sending and the receiving side take on it.
use vstd::prelude::*;

use std::cell::Cell;
use std::collections::VecDeque;
use std::marker::PhantomData;
use std::sync::{Arc, Condvar, Mutex, MutexGuard, PoisonError};

use crate::blocker::Blocker;
use crate::sync::lock::{guarded, notify};

verus! {

/// Why a non-blocking receive returned no item.
#[derive(Clone, Copy, Debug, PartialEq, Eq, Structural)]
pub enum TryRecvError {
    /// No item is queued, and the sender is still alive.
    Empty,
    /// No item is queued, and the sender is gone: none will come.
    Disconnected,
}

/// A blocking receive failed: the sender is gone and the queue is drained.
#[derive(Clone, Copy, Debug, PartialEq, Eq, Structural)]
pub struct RecvError;

/// A send failed because the receiver is gone; the unsent item comes back.
#[derive(Debug, PartialEq, Eq)]
pub struct SendError<T>(pub T);

/// The abstract state of a channel.
pub struct ChanView<T> {
    /// Items sent and not yet received, oldest first.
    pub items: Seq<T>,
    /// The party waiting for an item, if any.
    pub waiter: Option<Blocker>,
    /// Whether the sending half still exists.
    pub sender_alive: bool,
    /// Whether the receiving half has been dropped.
    pub port_dropped: bool,
}

/// The state of a fresh channel.
pub open spec fn initial_view<T>() -> ChanView<T> {
    ChanView { items: Seq::empty(), waiter: None, sender_alive: true, port_dropped: false }
}

/// A send: refused with the item while the receiver is gone; otherwise the
/// item is queued and the waiter, if any, is taken out to be woken.
pub open spec fn spec_send<T>(m: ChanView<T>, t: T) -> (ChanView<T>, Result<Option<Blocker>, T>) {
    if m.port_dropped {
        (m, Err(t))
    } else {
        (ChanView { items: m.items.push(t), waiter: None, ..m }, Ok(m.waiter))
    }
}

/// A non-blocking receive: the oldest item, else `Empty` while the sender
/// lives, else `Disconnected`.
pub open spec fn spec_try_recv<T>(m: ChanView<T>) -> (ChanView<T>, Result<T, TryRecvError>) {
    if m.items.len() > 0 {
        (ChanView { items: m.items.drop_first(), ..m }, Ok(m.items[0]))
    } else if m.sender_alive {
        (m, Err(TryRecvError::Empty))
    } else {
        (m, Err(TryRecvError::Disconnected))
    }
}

/// Whether a waiting receiver has something to observe: an item, or the
/// sender's departure.
pub open spec fn wake_ready<T>(m: ChanView<T>) -> bool {
    m.items.len() > 0 || !m.sender_alive
}

/// A receiver hands over its blocker: it is published in the slot, and the
/// wake condition is checked again; if it already holds, the blocker is
/// taken back at once, to be resumed by the receiver itself.
pub open spec fn spec_subscribe<T>(m: ChanView<T>, b: Blocker) -> (ChanView<T>, Option<Blocker>) {
    if wake_ready(m) {
        (ChanView { waiter: None, ..m }, Some(b))
    } else {
        (ChanView { waiter: Some(b), ..m }, None)
    }
}

/// The sender goes away: no more items will come, and the waiter, if any,
/// is taken out to be woken.
pub open spec fn spec_drop_chan<T>(m: ChanView<T>) -> (ChanView<T>, Option<Blocker>) {
    (ChanView { sender_alive: false, waiter: None, ..m }, m.waiter)
}

/// The receiver goes away: sends fail from now on, and the queued items
/// are drained.
pub open spec fn spec_drop_port<T>(m: ChanView<T>) -> ChanView<T> {
    ChanView { port_dropped: true, items: Seq::empty(), ..m }
}

/// A blocking receive attempt on behalf of `b`: the oldest item if one is
/// queued, else `Disconnected` once the sender is gone; else `b` is left
/// waiting in the slot and the result is `Empty`.
pub open spec fn spec_recv<T>(m: ChanView<T>, b: Blocker) -> (ChanView<T>, Result<T, TryRecvError>) {
    if m.items.len() > 0 {
        (ChanView { items: m.items.drop_first(), ..m }, Ok(m.items[0]))
    } else if !m.sender_alive {
        (m, Err(TryRecvError::Disconnected))
    } else {
        (ChanView { waiter: Some(b), ..m }, Err(TryRecvError::Empty))
    }
}

/// Relies on `VecDeque::new`: an empty deque; it allocates nothing.
#[verifier::external_body]
fn empty_queue<T>() -> (q: VecDeque<T>)
    ensures
        q@ == Seq::<T>::empty(),
    opens_invariants none
    no_unwind
{
    VecDeque::new()
}

/// The protocol state shared by the two halves of a channel: the queued
/// items, the waiter slot, the number of live senders and whether the
/// receiver is gone.
pub struct InnerQueue<T> {
    queue: VecDeque<T>,
    wait_co: Option<Blocker>,
    channels: usize,
    port_dropped: bool,
}

impl<T> View for InnerQueue<T> {
    type V = ChanView<T>;

    closed spec fn view(&self) -> ChanView<T> {
        ChanView {
            items: self.queue@,
            waiter: self.wait_co,
            sender_alive: self.channels > 0,
            port_dropped: self.port_dropped,
        }
    }
}

impl<T> InnerQueue<T> {
    /// A channel with one sender, one receiver and nothing queued.
    pub fn new() -> (q: InnerQueue<T>)
        ensures
            q@ == initial_view::<T>(),
    {
        InnerQueue {
            queue: empty_queue(),
            wait_co: None,
            channels: 1,
            port_dropped: false,
        }
    }

    /// Queues `t` unless the receiver is gone, in which case `t` comes back
    /// in `Err`. On success the waiter that must now be woken, if any, is
    /// returned.
    pub fn send(&mut self, t: T) -> (r: Result<Option<Blocker>, T>)
        ensures
            (final(self)@, r) == spec_send(old(self)@, t),
    {
        if self.port_dropped {
            return Err(t);
        }
        self.queue.push_back(t);
        let w = self.take_waiter();
        Ok(w)
    }

    /// Takes the oldest item, or says why there is none.
    pub fn try_recv(&mut self) -> (r: Result<T, TryRecvError>)
        ensures
            (final(self)@, r) == spec_try_recv(old(self)@),
    {
        match self.queue.pop_front() {
            Some(data) => Ok(data),
            None => {
                if self.channels > 0 {
                    Err(TryRecvError::Empty)
                } else {
                    Err(TryRecvError::Disconnected)
                }
            },
        }
    }

    /// Whether an item is queued or the sender is gone.
    pub fn is_ready(&self) -> (r: bool)
        ensures
            r == wake_ready(self@),
    {
        self.queue.len() > 0 || self.channels == 0
    }

    /// Whether a blocker waits in the slot.
    pub fn has_waiter(&self) -> (r: bool)
        ensures
            r == (self@.waiter is Some),
    {
        self.wait_co.is_some()
    }

    /// Empties the waiter slot and returns what it held.
    pub fn take_waiter(&mut self) -> (w: Option<Blocker>)
        ensures
            w == old(self)@.waiter,
            final(self)@ == (ChanView { waiter: None, ..old(self)@ }),
        opens_invariants none
        no_unwind
    {
        let mut w = None;
        std::mem::swap(&mut self.wait_co, &mut w);
        w
    }

    /// Publishes `b` as the waiter, then checks the wake condition again;
    /// where it holds, `b` is taken back out of the slot and returned, for
    /// the caller to resume it itself.
    pub fn subscribe(&mut self, b: Blocker) -> (w: Option<Blocker>)
        ensures
            (final(self)@, w) == spec_subscribe(old(self)@, b),
    {
        self.wait_co = Some(b);
        if self.is_ready() {
            self.take_waiter()
        } else {
            None
        }
    }

    /// A blocking receive attempt on behalf of `b`; `Err(Empty)` means that
    /// `b` was left in the slot and must wait for a wake.
    pub fn recv(&mut self, b: Blocker) -> (r: Result<T, TryRecvError>)
        ensures
            (final(self)@, r) == spec_recv(old(self)@, b),
    {
        match self.try_recv() {
            Err(TryRecvError::Empty) => {
                let w = self.subscribe(b);
                assert(w is None);
                Err(TryRecvError::Empty)
            },
            data => data,
        }
    }

    /// The sender is gone: marks it so and returns the waiter to wake.
    pub fn drop_chan(&mut self) -> (w: Option<Blocker>)
        ensures
            (final(self)@, w) == spec_drop_chan(old(self)@),
        opens_invariants none
        no_unwind
    {
        self.channels = 0;
        self.take_waiter()
    }

    /// The receiver is gone: marks it so and takes out every queued item,
    /// for the caller to drop once it no longer holds the channel's lock.
    pub fn drop_port(&mut self) -> (drained: VecDeque<T>)
        ensures
            final(self)@ == spec_drop_port(old(self)@),
            drained@ == old(self)@.items,
        opens_invariants none
        no_unwind
    {
        self.port_dropped = true;
        let mut drained = empty_queue();
        std::mem::swap(&mut self.queue, &mut drained);
        drained
    }
}

/// What the two halves of a channel share: the protocol state under a lock,
/// and the condition variable on which a receiving thread parks.
#[verifier::reject_recursive_types(T)]
struct Shared<T> {
    state: Mutex<InnerQueue<T>>,
    parked: Condvar,
}

impl<T> Shared<T> {
    /// Relies on `Mutex::lock`: blocks until this thread holds the lock on
    /// the channel state. A poisoned lock is entered all the same: every
    /// state is a valid one. Every call site releases its guard before it
    /// returns and takes no second guard meanwhile, so the lock is never
    /// requested by a thread that holds it: the one case in which
    /// `Mutex::lock` may panic or never return.
    #[verifier::external_body]
    fn lock(&self) -> MutexGuard<'_, InnerQueue<T>>
        opens_invariants none
        no_unwind
    {
        self.state.lock().unwrap_or_else(PoisonError::into_inner)
    }

    /// Relies on `Condvar::wait_while`: releases the lock, sleeps until a
    /// notification finds an item queued or the sender gone, and returns
    /// holding the lock again. This condition variable is only ever used
    /// with this channel's one mutex.
    #[verifier::external_body]
    fn wait_until_ready<'a>(&'a self, g: MutexGuard<'a, InnerQueue<T>>) -> MutexGuard<'a, InnerQueue<T>> {
        self.parked.wait_while(g, |q| !q.is_ready()).unwrap_or_else(PoisonError::into_inner)
    }
}

/// A receiving thread parks on the channel's own condition variable, so its
/// blocker needs no handle of its own.
const PARKED_THREAD: usize = 0;

/// Wakes the receiver when a step took a blocker out of the slot.
fn wake<T>(shared: &Shared<T>, w: Option<Blocker>)
    opens_invariants none
    no_unwind
{
    match w {
        Some(_) => notify(&shared.parked),
        None => {},
    }
}

/// The sending half of a channel. It has one holder at a time: it moves
/// between threads but is not shared.
#[verifier::reject_recursive_types(T)]
pub struct Sender<T> {
    inner: Arc<Shared<T>>,
    single_holder: PhantomData<Cell<()>>,
}

/// The receiving half of a channel. It has one holder at a time: it moves
/// between threads but is not shared.
#[verifier::reject_recursive_types(T)]
pub struct Receiver<T> {
    inner: Arc<Shared<T>>,
    single_holder: PhantomData<Cell<()>>,
}

/// Receives until the sender is gone and the queue drained.
#[verifier::reject_recursive_types(T)]
pub struct Iter<'a, T> {
    rx: &'a Receiver<T>,
}

/// Receives what is queued now, without waiting.
#[verifier::reject_recursive_types(T)]
pub struct TryIter<'a, T> {
    rx: &'a Receiver<T>,
}

/// Receives until the sender is gone and the queue drained, owning the
/// receiver.
#[verifier::reject_recursive_types(T)]
pub struct IntoIter<T> {
    rx: Receiver<T>,
}

/// A new channel: its sending half and its receiving half.
pub fn channel<T>() -> (Sender<T>, Receiver<T>) {
    let a = Arc::new(Shared { state: Mutex::new(InnerQueue::new()), parked: Condvar::new() });
    (
        Sender { inner: a.clone(), single_holder: PhantomData },
        Receiver { inner: a, single_holder: PhantomData },
    )
}

impl<T> Sender<T> {
    /// Queues `t` and wakes the receiver if it waits; fails with `t` once
    /// the receiver is gone.
    pub fn send(&self, t: T) -> Result<(), SendError<T>> {
        let mut g = self.inner.lock();
        let r = guarded(&mut g).send(t);
        match r {
            Ok(w) => {
                wake(&self.inner, w);
                Ok(())
            },
            Err(t) => Err(SendError(t)),
        }
    }
}

impl<T> Receiver<T> {
    /// The oldest item if one is queued; else `Empty` while the sender
    /// lives, `Disconnected` after.
    pub fn try_recv(&self) -> Result<T, TryRecvError> {
        let mut g = self.inner.lock();
        guarded(&mut g).try_recv()
    }

    /// The oldest item, waiting for one while the sender lives; an error
    /// once the sender is gone and the queue drained.
    pub fn recv(&self) -> Result<T, RecvError> {
        let mut g = self.inner.lock();
        let r = guarded(&mut g).recv(Blocker::new_thread(PARKED_THREAD));
        let r = match r {
            Err(TryRecvError::Empty) => {
                // The wait returns only once an item is queued or the
                // sender is gone, so this receive does not find `Empty`.
                let mut g = self.inner.wait_until_ready(g);
                guarded(&mut g).try_recv()
            },
            other => other,
        };
        match r {
            Ok(v) => Ok(v),
            Err(_) => Err(RecvError),
        }
    }

    /// Receives until the sender is gone.
    pub fn iter(&self) -> Iter<'_, T> {
        Iter { rx: self }
    }

    /// Receives what is queued, without waiting.
    pub fn try_iter(&self) -> TryIter<'_, T> {
        TryIter { rx: self }
    }

    /// Receives until the sender is gone, owning the receiver.
    pub fn into_iter(self) -> IntoIter<T> {
        IntoIter { rx: self }
    }
}

impl<'a, T> Iter<'a, T> {
    /// The next item, or `None` once the sender is gone and the queue drained.
    pub fn next(&mut self) -> Option<T> {
        self.rx.recv().ok()
    }
}

impl<'a, T> TryIter<'a, T> {
    /// The next queued item, or `None` if there is none now.
    pub fn next(&mut self) -> Option<T> {
        self.rx.try_recv().ok()
    }
}

impl<T> IntoIter<T> {
    /// The next item, or `None` once the sender is gone and the queue drained.
    pub fn next(&mut self) -> Option<T> {
        self.rx.recv().ok()
    }
}

impl<T> Drop for Sender<T> {
    fn drop(&mut self)
        opens_invariants none
        no_unwind
    {
        let mut g = self.inner.lock();
        let w = guarded(&mut g).drop_chan();
        wake(&self.inner, w);
    }
}

impl<T> Drop for Receiver<T> {
    fn drop(&mut self)
        opens_invariants none
        no_unwind
    {
        let drained = {
            let mut g = self.inner.lock();
            let d = guarded(&mut g).drop_port();
            d
        };
        // `drained` is dropped when this function returns, after the lock
        // has been released, so no item's destructor runs under it.
    }
}

} // verus!
