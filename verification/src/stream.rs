use vstd::prelude::*;

use crate::queue::{EventQueue, Full};
use crate::ready::ReadyQueue;
use crate::wake::{WakeCell, fire_model};

verus! {

/// The shared input state: the scancode queue the interrupt handler pushes
/// into, and the wake cell through which the consumer registers interest.
/// At most one `ScancodeStream` may ever claim the consumer side.
pub struct EventSource {
    pub(crate) queue: EventQueue,
    pub(crate) cell: WakeCell,
    pub(crate) claimed: bool,
}

/// What one poll of the stream reports: a byte, or "not ready yet".
/// The stream itself never ends, so there is no end-of-stream case.
#[derive(Clone, Copy, PartialEq, Eq, Structural, Debug)]
pub enum StreamPoll {
    Ready(u8),
    Pending,
}

impl EventSource {
    /// The bytes waiting in the queue, oldest first.
    pub closed spec fn bytes(&self) -> Seq<u8> {
        self.queue.bytes()
    }

    /// The queue capacity fixed at construction.
    pub closed spec fn bound(&self) -> nat {
        self.queue.bound()
    }

    /// The task identifier registered with the wake cell, if any.
    pub closed spec fn waker(&self) -> Option<u64> {
        self.cell@
    }

    /// Whether a stream has claimed the single consumer side.
    pub closed spec fn claimed(&self) -> bool {
        self.claimed
    }

    pub open spec fn wf(&self) -> bool {
        &&& self.bytes().len() <= self.bound()
        &&& self.bound() >= 1
    }

    pub fn new(bound: usize) -> (r: EventSource)
        requires
            1 <= bound <= 0x1000_0000,
        ensures
            r.wf(),
            r.bytes() == Seq::<u8>::empty(),
            r.bound() == bound as nat,
            r.waker() is None,
            !r.claimed(),
    {
        EventSource { queue: EventQueue::new(bound), cell: WakeCell::new(), claimed: false }
    }

    pub fn is_claimed(&self) -> (r: bool)
        ensures
            r == self.claimed(),
    {
        self.claimed
    }

    pub fn occupied(&self) -> (r: usize)
        ensures
            r as nat == self.bytes().len(),
    {
        self.queue.len()
    }

    /// The queue capacity fixed at construction.
    pub fn capacity(&self) -> (r: usize)
        ensures
            r as nat == self.bound(),
    {
        self.queue.capacity()
    }

    /// Producer side: store one byte at the tail, without blocking.  When
    /// the queue is full the byte is refused and nothing changes.
    pub fn push_raw(&mut self, byte: u8) -> (r: Result<(), Full>)
        ensures
            final(self).bound() == old(self).bound(),
            final(self).claimed() == old(self).claimed(),
            final(self).waker() == old(self).waker(),
            old(self).bytes().len() < old(self).bound() ==> r is Ok && final(self).bytes() == old(self).bytes().push(byte),
            old(self).bytes().len() >= old(self).bound() ==> r is Err && final(self).bytes()
                == old(self).bytes(),
    {
        self.queue.try_push(byte)
    }

    /// Fire the wake cell into the given ready-queue: the registered
    /// identifier, if any, is enqueued once and the registration cleared.
    pub fn fire_into(&mut self, ready: &mut ReadyQueue) -> (delivered: bool)
        requires
            old(ready).wf(),
        ensures
            final(ready).wf(),
            final(ready).bound() == old(ready).bound(),
            final(self).bytes() == old(self).bytes(),
            final(self).bound() == old(self).bound(),
            final(self).claimed() == old(self).claimed(),
            (final(self).waker(), final(ready)@) == fire_model(
                old(self).waker(),
                old(ready)@,
                old(ready).bound(),
            ),
            delivered == (old(self).waker() is Some && old(ready)@.len() < old(ready).bound()),
    {
        self.cell.fire(ready)
    }
}

/// The single consumer of the event source: a pollable, lazily produced,
/// effectively infinite sequence of raw scancode bytes.
///
/// Construction claims the source's consumer side; the source supports only
/// one consumer, so claiming it twice is a configuration error and is ruled
/// out by `new`'s precondition rather than tolerated.
pub struct ScancodeStream {
    _private: (),
}

impl ScancodeStream {
    pub fn new(source: &mut EventSource) -> (r: ScancodeStream)
        requires
            !old(source).claimed(),
        ensures
            final(source).claimed(),
            final(source).bytes() == old(source).bytes(),
            final(source).bound() == old(source).bound(),
            final(source).waker() == old(source).waker(),
    {
        source.claimed = true;
        ScancodeStream { _private: () }
    }

    /// One poll, following the two-phase protocol that closes the race with
    /// a concurrent producer: try to pop; if empty, register the caller's
    /// waker, then re-check once before reporting "not ready yet".  When a
    /// byte is available on the fast path, no registration happens and any
    /// earlier registration is left in place.
    pub fn poll_next(&self, source: &mut EventSource, waker_id: u64) -> (r: StreamPoll)
        ensures
            final(source).bound() == old(source).bound(),
            final(source).claimed() == old(source).claimed(),
            old(source).bytes().len() > 0 ==> r == StreamPoll::Ready(old(source).bytes()[0])
                && final(source).bytes() == old(source).bytes().drop_first()
                && final(source).waker() == old(source).waker(),
            old(source).bytes().len() == 0 ==> r is Pending
                && final(source).bytes() == old(source).bytes()
                && final(source).waker() == Some(waker_id),
    {
        // fast path: skip registration when a byte is already there
        match source.queue.try_pop() {
            Ok(byte) => {
                return StreamPoll::Ready(byte);
            },
            Err(_) => {},
        }
        source.cell.register(waker_id);
        match source.queue.try_pop() {
            Ok(byte) => {
                // a producer raced in between the first check and the
                // registration: withdraw the registration and deliver
                source.cell.take();
                StreamPoll::Ready(byte)
            },
            Err(_) => StreamPoll::Pending,
        }
    }
}

} // verus!
