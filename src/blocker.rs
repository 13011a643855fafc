//! A tagged, word-sized handle to a blocked party: a coroutine or an OS thread.
use vstd::prelude::*;

verus! {

/// The party that a [`Blocker`] stands for, as the runtime wakes it.
#[derive(Clone, Copy, Debug, PartialEq, Eq, Structural)]
pub enum Wake {
    /// Reschedule the coroutine with this (even) handle.
    Coroutine(usize),
    /// Unpark the OS thread with this (even) handle.
    Thread(usize),
}

/// One blocked party in one word: the low bit is 0 for a coroutine handle
/// and 1 for a thread handle; the other bits hold the handle itself, which
/// is therefore even.
#[derive(Debug, PartialEq, Eq, Structural)]
pub struct Blocker {
    handle: usize,
}

/// A handle that can be tagged: its low bit is free.
pub open spec fn taggable(h: usize) -> bool {
    h % 2 == 0
}

impl Blocker {
    /// The word as stored in a waiter slot.
    pub closed spec fn word(&self) -> usize {
        self.handle
    }

    /// Whether this blocker stands for an OS thread.
    pub open spec fn spec_is_thread(&self) -> bool {
        self.word() % 2 == 1
    }

    /// The handle with the tag bit cleared.
    pub open spec fn spec_handle(&self) -> usize {
        (self.word() - self.word() % 2) as usize
    }

    /// What waking this blocker does.
    pub open spec fn spec_wake(&self) -> Wake {
        if self.spec_is_thread() {
            Wake::Thread(self.spec_handle())
        } else {
            Wake::Coroutine(self.spec_handle())
        }
    }

    /// Tags a coroutine handle.
    pub fn new_coroutine(co: usize) -> (b: Blocker)
        requires
            taggable(co),
        ensures
            !b.spec_is_thread(),
            b.spec_handle() == co,
            b.spec_wake() == Wake::Coroutine(co),
    {
        Blocker { handle: co }
    }

    /// Tags a thread handle.
    pub fn new_thread(thread: usize) -> (b: Blocker)
        requires
            taggable(thread),
        ensures
            b.spec_is_thread(),
            b.spec_handle() == thread,
            b.spec_wake() == Wake::Thread(thread),
    {
        let tagged = thread | 1;
        assert(tagged == thread + 1) by (bit_vector)
            requires
                thread % 2 == 0,
                tagged == thread | 1,
        ;
        Blocker { handle: tagged }
    }

    /// Whether this blocker stands for an OS thread.
    pub fn is_thread(&self) -> (r: bool)
        ensures
            r == self.spec_is_thread(),
    {
        let bit = self.handle & 1;
        let w = self.handle;
        assert(bit == w % 2) by (bit_vector)
            requires
                bit == w & 1,
        ;
        bit == 1
    }

    /// The coroutine handle of a coroutine blocker.
    pub fn into_coroutine(self) -> (co: usize)
        requires
            !self.spec_is_thread(),
        ensures
            co == self.spec_handle(),
            taggable(co),
    {
        self.handle
    }

    /// The thread handle of a thread blocker: the word with its tag cleared.
    pub fn into_thread(self) -> (thread: usize)
        requires
            self.spec_is_thread(),
        ensures
            thread == self.spec_handle(),
            taggable(thread),
    {
        let w = self.handle;
        let h = w & !1usize;
        assert(h == w - w % 2) by (bit_vector)
            requires
                h == w & !1usize,
        ;
        h
    }

    /// Consumes the blocker and says whom to wake, dispatching on the tag.
    pub fn unpark(self) -> (w: Wake)
        ensures
            w == self.spec_wake(),
    {
        if self.is_thread() {
            Wake::Thread(self.into_thread())
        } else {
            Wake::Coroutine(self.into_coroutine())
        }
    }
}

} // verus!
