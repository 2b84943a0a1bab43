use vstd::prelude::*;

verus! {

/// The raw bytes a scancode queue holds, oldest first.
pub uninterp spec fn array_queue_items(q: &crossbeam_queue::ArrayQueue<u8>) -> Seq<u8>;

/// The fixed capacity a scancode queue was created with.
pub uninterp spec fn array_queue_bound(q: &crossbeam_queue::ArrayQueue<u8>) -> nat;

#[verifier::external_type_specification]
#[verifier::external_body]
#[verifier::reject_recursive_types(T)]
pub struct ExArrayQueue<T>(crossbeam_queue::ArrayQueue<T>);

/// Queue full: the pushed byte was not stored.
#[derive(Clone, Copy, PartialEq, Eq, Structural, Debug)]
pub struct Full;

/// Queue empty: nothing is available yet.  This is the normal "no data"
/// signal, not a fault.
#[derive(Clone, Copy, PartialEq, Eq, Structural, Debug)]
pub struct Empty;

/// Fixed-capacity ring buffer carrying raw input bytes from the interrupt
/// handler to the cooperative side.  Pushing never blocks and never grows
/// the buffer: when the queue is full the newest byte is refused and the
/// caller drops it.
pub struct EventQueue {
    pub inner: crossbeam_queue::ArrayQueue<u8>,
}

impl EventQueue {
    /// The bytes currently stored, oldest first.
    pub open spec fn bytes(&self) -> Seq<u8> {
        array_queue_items(&self.inner)
    }

    /// The capacity fixed at construction.
    pub open spec fn bound(&self) -> nat {
        array_queue_bound(&self.inner)
    }

    pub open spec fn wf(&self) -> bool {
        &&& self.bytes().len() <= self.bound()
        &&& self.bound() >= 1
    }

    /// Relies on crossbeam_queue::ArrayQueue::new: a freshly created queue
    /// with the given capacity holds nothing.
    #[verifier::external_body]
    pub fn new(bound: usize) -> (r: EventQueue)
        requires
            1 <= bound <= 0x1000_0000,
        ensures
            array_queue_items(&r.inner) == Seq::<u8>::empty(),
            array_queue_bound(&r.inner) == bound as nat,
    {
        EventQueue { inner: crossbeam_queue::ArrayQueue::new(bound) }
    }

    /// Relies on crossbeam_queue::ArrayQueue::push: the byte is appended at
    /// the tail when a slot is free, and refused without touching the stored
    /// elements when the queue is full.  Never blocks.
    #[verifier::external_body]
    pub fn try_push(&mut self, byte: u8) -> (r: Result<(), Full>)
        ensures
            final(self).bound() == old(self).bound(),
            old(self).bytes().len() < old(self).bound() ==> r is Ok && final(self).bytes()
                == old(self).bytes().push(byte),
            old(self).bytes().len() >= old(self).bound() ==> r is Err && final(self).bytes()
                == old(self).bytes(),
    {
        match self.inner.push(byte) {
            Ok(()) => Ok(()),
            Err(_) => Err(Full),
        }
    }

    /// Relies on crossbeam_queue::ArrayQueue::pop: elements leave in
    /// first-in-first-out order; an empty queue yields nothing and is left
    /// unchanged.  Never blocks.
    #[verifier::external_body]
    pub fn try_pop(&mut self) -> (r: Result<u8, Empty>)
        ensures
            final(self).bound() == old(self).bound(),
            old(self).bytes().len() > 0 ==> r == Result::<u8, Empty>::Ok(old(self).bytes()[0])
                && final(self).bytes() == old(self).bytes().drop_first(),
            old(self).bytes().len() == 0 ==> r is Err && final(self).bytes() == old(self).bytes(),
    {
        match self.inner.pop() {
            Some(byte) => Ok(byte),
            None => Err(Empty),
        }
    }

    /// Relies on crossbeam_queue::ArrayQueue::len: the number of elements
    /// currently stored.
    #[verifier::external_body]
    pub fn len(&self) -> (r: usize)
        ensures
            r as nat == self.bytes().len(),
    {
        self.inner.len()
    }

    /// Relies on crossbeam_queue::ArrayQueue::capacity: the capacity the
    /// queue was created with.
    #[verifier::external_body]
    pub fn capacity(&self) -> (r: usize)
        ensures
            r as nat == self.bound(),
    {
        self.inner.capacity()
    }
}

/// One producer or consumer action on the queue.
pub enum QueueOp {
    Push(u8),
    Pop,
}

/// The history of a queue: what it stores now, every byte it accepted, and
/// every byte the consumer observed, each oldest first.
pub struct QueueLog {
    pub stored: Seq<u8>,
    pub accepted: Seq<u8>,
    pub observed: Seq<u8>,
}

/// How one action changes the history.  A push into a full queue and a pop
/// from an empty queue change nothing: these are exactly the cases in which
/// `try_push` and `try_pop` report `Full` and `Empty` and leave the stored
/// bytes untouched.
pub open spec fn queue_op_model(st: QueueLog, bound: nat, op: QueueOp) -> QueueLog {
    match op {
        QueueOp::Push(b) => if st.stored.len() < bound {
            QueueLog { stored: st.stored.push(b), accepted: st.accepted.push(b), ..st }
        } else {
            st
        },
        QueueOp::Pop => if st.stored.len() > 0 {
            QueueLog {
                stored: st.stored.drop_first(),
                observed: st.observed.push(st.stored[0]),
                ..st
            }
        } else {
            st
        },
    }
}

pub open spec fn queue_empty_log() -> QueueLog {
    QueueLog { stored: Seq::empty(), accepted: Seq::empty(), observed: Seq::empty() }
}

/// The history after a whole sequence of actions on a fresh queue.
pub open spec fn queue_run_model(ops: Seq<QueueOp>, bound: nat) -> QueueLog
    decreases ops.len(),
{
    if ops.len() == 0 {
        queue_empty_log()
    } else {
        queue_op_model(queue_run_model(ops.drop_last(), bound), bound, ops.last())
    }
}

/// Every byte a sequence of actions offers to the queue, in offer order.
pub open spec fn offered_bytes(ops: Seq<QueueOp>) -> Seq<u8>
    decreases ops.len(),
{
    if ops.len() == 0 {
        Seq::empty()
    } else {
        match ops.last() {
            QueueOp::Push(b) => offered_bytes(ops.drop_last()).push(b),
            QueueOp::Pop => offered_bytes(ops.drop_last()),
        }
    }
}

/// Conservation and capacity: after any interleaving of pushes and pops,
/// the bytes the consumer observed followed by the bytes still stored are
/// exactly the bytes the queue accepted, in acceptance order, and the
/// occupied count never exceeds the capacity.
pub proof fn lemma_queue_conservation(ops: Seq<QueueOp>, bound: nat)
    ensures
        queue_run_model(ops, bound).observed + queue_run_model(ops, bound).stored
            == queue_run_model(ops, bound).accepted,
        queue_run_model(ops, bound).stored.len() <= bound,
    decreases ops.len(),
{
    if ops.len() == 0 {
        assert(queue_run_model(ops, bound).observed + queue_run_model(ops, bound).stored
            =~= queue_run_model(ops, bound).accepted);
    } else {
        lemma_queue_conservation(ops.drop_last(), bound);
        let st = queue_run_model(ops.drop_last(), bound);
        match ops.last() {
            QueueOp::Push(b) => {
                if st.stored.len() < bound {
                    assert(st.observed + st.stored.push(b) =~= st.accepted.push(b));
                }
            },
            QueueOp::Pop => {
                if st.stored.len() > 0 {
                    assert(st.observed.push(st.stored[0]) + st.stored.drop_first()
                        =~= st.observed + st.stored);
                }
            },
        }
    }
}

/// First-in-first-out delivery: as long as no more bytes are offered than
/// the queue's capacity, every offered byte is accepted, the consumer
/// observes a prefix of the offered bytes in offer order, and once the
/// queue is drained it has observed exactly the offered bytes.
pub proof fn lemma_queue_fifo(ops: Seq<QueueOp>, bound: nat)
    requires
        offered_bytes(ops).len() <= bound,
    ensures
        queue_run_model(ops, bound).accepted == offered_bytes(ops),
        queue_run_model(ops, bound).observed == offered_bytes(ops).take(
            queue_run_model(ops, bound).observed.len() as int,
        ),
        queue_run_model(ops, bound).stored.len() == 0 ==> queue_run_model(ops, bound).observed
            == offered_bytes(ops),
    decreases ops.len(),
{
    lemma_queue_conservation(ops, bound);
    if ops.len() == 0 {
        assert(queue_run_model(ops, bound).accepted =~= offered_bytes(ops));
    } else {
        match ops.last() {
            QueueOp::Push(b) => {
                assert(offered_bytes(ops.drop_last()).len() + 1 == offered_bytes(ops).len());
                lemma_queue_fifo(ops.drop_last(), bound);
                lemma_queue_conservation(ops.drop_last(), bound);
                let st = queue_run_model(ops.drop_last(), bound);
                assert(st.stored.len() <= st.accepted.len());
                assert(st.stored.len() < bound);
            },
            QueueOp::Pop => {
                lemma_queue_fifo(ops.drop_last(), bound);
            },
        }
    }
    let st = queue_run_model(ops, bound);
    assert(st.observed =~= st.accepted.take(st.observed.len() as int)) by {
        assert(st.observed + st.stored == st.accepted);
        assert forall|i: int| 0 <= i < st.observed.len() implies st.observed[i] == st.accepted[i] by {
            assert(st.accepted[i] == (st.observed + st.stored)[i]);
        }
    }
}

} // verus!
