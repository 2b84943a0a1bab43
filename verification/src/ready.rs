use vstd::prelude::*;

verus! {

/// Bounded first-in-first-out queue of task identifiers.
///
/// This is the executor's ready-queue: every entry is the identifier of a
/// task awaiting a poll.  The queue tolerates duplicate entries and entries
/// for tasks that no longer exist; the executor skips those when draining.
/// Its capacity is fixed at construction and the backing storage is
/// allocated there in full, so enqueueing never allocates.
pub struct ReadyQueue {
    items: Vec<u64>,
    bound: usize,
}

impl ReadyQueue {
    /// The identifiers currently queued, oldest first.
    pub closed spec fn view(&self) -> Seq<u64> {
        self.items@
    }

    /// The fixed capacity chosen at construction.
    pub closed spec fn bound(&self) -> nat {
        self.bound as nat
    }

    pub open spec fn wf(&self) -> bool {
        &&& self@.len() <= self.bound()
        &&& self.bound() >= 1
    }

    pub fn new(bound: usize) -> (r: ReadyQueue)
        requires
            bound >= 1,
        ensures
            r.wf(),
            r@ == Seq::<u64>::empty(),
            r.bound() == bound as nat,
    {
        ReadyQueue { items: Vec::with_capacity(bound), bound }
    }

    /// Append an identifier at the tail; reports false (and changes nothing)
    /// when the queue is already at capacity.
    pub fn enqueue(&mut self, id: u64) -> (accepted: bool)
        requires
            old(self).wf(),
        ensures
            final(self).wf(),
            final(self).bound() == old(self).bound(),
            accepted == (old(self)@.len() < old(self).bound()),
            accepted ==> final(self)@ == old(self)@.push(id),
            !accepted ==> final(self)@ == old(self)@,
    {
        if self.items.len() < self.bound {
            self.items.push(id);
            true
        } else {
            false
        }
    }

    /// Remove and return the oldest identifier, if any.
    pub fn dequeue(&mut self) -> (r: Option<u64>)
        requires
            old(self).wf(),
        ensures
            final(self).wf(),
            final(self).bound() == old(self).bound(),
            old(self)@.len() == 0 ==> r is None && final(self)@ == old(self)@,
            old(self)@.len() > 0 ==> r == Some(old(self)@[0]) && final(self)@ == old(self)@.drop_first(),
    {
        if self.items.len() == 0 {
            None
        } else {
            let id = self.items.remove(0);
            assert(self.items@ =~= old(self).items@.drop_first());
            Some(id)
        }
    }

    pub fn len(&self) -> (r: usize)
        ensures
            r == self@.len(),
    {
        self.items.len()
    }

    pub fn is_empty(&self) -> (r: bool)
        ensures
            r == (self@.len() == 0),
    {
        self.items.len() == 0
    }

    pub fn capacity(&self) -> (r: usize)
        requires
            self.wf(),
        ensures
            r as nat == self.bound(),
    {
        self.bound
    }
}

} // verus!
