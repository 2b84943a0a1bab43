use vstd::prelude::*;

use crate::keyboard::{Decoder, add_byte_of, decoder_add_byte, decoder_new, decoder_process_event, process_of};
use crate::router::{InputTarget, RouteAction, route_key, route_spec, routed_under};
use crate::stream::{EventSource, ScancodeStream, StreamPoll};

verus! {

/// Stable identity of a task.  The executor hands these out from a
/// monotonically increasing counter, so an identifier is never reused while
/// its task is registered.
#[derive(Clone, Copy, PartialEq, Eq, PartialOrd, Ord, Structural, Debug)]
pub struct TaskId(pub u64);

impl TaskId {
    pub fn new(value: u64) -> (r: TaskId)
        ensures
            r.0 == value,
    {
        TaskId(value)
    }
}

/// What one poll of a task reports: the computation finished, or it
/// suspended after registering interest with some wake source.
#[derive(Clone, Copy, PartialEq, Eq, Structural, Debug)]
pub enum TaskPoll {
    Ready,
    Pending,
}

/// The decoder's next state after one byte, and the routed action the
/// byte yields, if its decoded key yields one.  A byte that completes no
/// event, or an event that decodes to no key, yields no action.
pub open spec fn decode_route_step(decoder: Decoder, byte: u8, target: InputTarget) -> (Decoder,
    Seq<RouteAction>) {
    let (after_byte, event) = add_byte_of(decoder, byte);
    match event {
        None => (after_byte, Seq::empty()),
        Some(event) => {
            let (after_event, key) = process_of(after_byte, event);
            match key {
                None => (after_event, Seq::empty()),
                Some(key) => (after_event, seq![route_spec(target, key)]),
            }
        },
    }
}

/// What feeding a whole byte sequence through the decoder produces: the
/// final decoder state, and the routed actions of the decoded keys, in
/// byte order.
pub open spec fn decode_route_fold(decoder: Decoder, bytes: Seq<u8>, target: InputTarget) -> (
    Decoder,
    Seq<RouteAction>,
)
    decreases bytes.len(),
{
    if bytes.len() == 0 {
        (decoder, Seq::empty())
    } else {
        let (next, acts) = decode_route_step(decoder, bytes[0], target);
        let (last, rest) = decode_route_fold(next, bytes.drop_first(), target);
        (last, acts + rest)
    }
}

/// The long-lived input task: drains every available scancode byte, runs
/// each through the keyboard decoder, and routes every decoded key to the
/// consumer the current focus owner selects.  It never completes.
pub struct KeypressJob {
    stream: ScancodeStream,
    decoder: Decoder,
}

impl KeypressJob {
    /// The decoder state the next poll starts from.
    pub closed spec fn spec_decoder(&self) -> Decoder {
        self.decoder
    }

    /// Claim the stream and set up a fresh keyboard decoder for it.
    pub fn new(stream: ScancodeStream) -> KeypressJob {
        KeypressJob { stream, decoder: decoder_new() }
    }

    /// One poll: pop bytes until the queue is empty, decoding and routing
    /// as they come, then register the waker and suspend.  The appended
    /// actions are exactly the routings of the keys the drained bytes
    /// decode to, in order, and the decoder carries its state to the next
    /// poll.
    pub fn poll(
        &mut self,
        source: &mut EventSource,
        waker_id: u64,
        target: InputTarget,
        actions: &mut Vec<RouteAction>,
    ) -> (r: TaskPoll)
        ensures
            r == TaskPoll::Pending,
            final(source).bound() == old(source).bound(),
            final(source).claimed() == old(source).claimed(),
            final(source).bytes().len() == 0,
            final(source).waker() == Some(waker_id),
            final(self).spec_decoder() == decode_route_fold(
                old(self).spec_decoder(),
                old(source).bytes(),
                target,
            ).0,
            final(actions)@ == old(actions)@ + decode_route_fold(
                old(self).spec_decoder(),
                old(source).bytes(),
                target,
            ).1,
            old(actions)@.len() <= final(actions)@.len() <= old(actions)@.len() + old(source).bytes().len(),
            forall|i: int| 0 <= i < old(actions)@.len() ==> final(actions)@[i] == old(actions)@[i],
            forall|i: int|
                old(actions)@.len() <= i < final(actions)@.len() ==> routed_under(
                    #[trigger] final(actions)@[i],
                    target,
                ),
    {
        let ghost full = decode_route_fold(self.decoder, source.bytes(), target);
        loop
            invariant
                source.bound() == old(source).bound(),
                source.claimed() == old(source).claimed(),
                source.waker() == old(source).waker(),
                full == decode_route_fold(old(self).spec_decoder(), old(source).bytes(), target),
                decode_route_fold(self.decoder, source.bytes(), target).0 == full.0,
                actions@ + decode_route_fold(self.decoder, source.bytes(), target).1
                    == old(actions)@ + full.1,
                actions@.len() + source.bytes().len()
                    <= old(actions)@.len() + old(source).bytes().len(),
                actions@.len() >= old(actions)@.len(),
                forall|i: int| 0 <= i < old(actions)@.len() ==> actions@[i] == old(actions)@[i],
                forall|i: int|
                    old(actions)@.len() <= i < actions@.len() ==> routed_under(
                        #[trigger] actions@[i],
                        target,
                    ),
            decreases source.bytes().len(),
        {
            let ghost pre_decoder = self.decoder;
            let ghost pre_bytes = source.bytes();
            let ghost pre_actions = actions@;
            match self.stream.poll_next(source, waker_id) {
                StreamPoll::Ready(byte) => {
                    match decoder_add_byte(&mut self.decoder, byte) {
                        Some(event) => {
                            match decoder_process_event(&mut self.decoder, event) {
                                Some(key) => {
                                    let action = route_key(target, key);
                                    actions.push(action);
                                    proof {
                                        assert(routed_under(actions@[actions@.len() - 1], target));
                                        assert(actions@ =~= pre_actions + seq![action]);
                                    }
                                },
                                None => {
                                    proof {
                                        assert(actions@ =~= pre_actions + Seq::<
                                            RouteAction,
                                        >::empty());
                                    }
                                },
                            }
                        },
                        None => {
                            proof {
                                assert(actions@ =~= pre_actions + Seq::<RouteAction>::empty());
                            }
                        },
                    }
                    proof {
                        let (next, acts) = decode_route_step(pre_decoder, byte, target);
                        assert(self.decoder == next);
                        assert(actions@ == pre_actions + acts);
                        let (last, rest) = decode_route_fold(next, pre_bytes.drop_first(), target);
                        assert(decode_route_fold(pre_decoder, pre_bytes, target).0 == last);
                        assert(decode_route_fold(pre_decoder, pre_bytes, target).1 == acts + rest);
                        assert(pre_actions + (acts + rest) =~= (pre_actions + acts) + rest);
                        assert(actions@ + rest == old(actions)@ + full.1);
                    }
                },
                StreamPoll::Pending => {
                    proof {
                        // the queue was already empty, so the fold over the
                        // remaining bytes adds nothing
                        assert(pre_bytes.len() == 0);
                        assert(pre_actions + Seq::<RouteAction>::empty() =~= pre_actions);
                        assert(actions@ == old(actions)@ + full.1);
                    }
                    return TaskPoll::Pending;
                },
            }
        }
    }
}

/// A task that takes a fixed number of bytes from the stream and then
/// completes: it suspends whenever the queue runs dry before its count is
/// reached, and finishes on the poll that consumes its final byte.
pub struct ConsumerJob {
    stream: ScancodeStream,
    remaining: u64,
}

impl ConsumerJob {
    /// How many more bytes this job needs before it completes.
    pub closed spec fn spec_remaining(&self) -> u64 {
        self.remaining
    }

    /// How many bytes one poll consumes: everything the job still needs,
    /// or everything available, whichever runs out first.
    pub open spec fn consumed(remaining: u64, avail: nat) -> nat {
        if remaining as nat <= avail {
            remaining as nat
        } else {
            avail
        }
    }

    pub fn new(stream: ScancodeStream, count: u64) -> (r: ConsumerJob)
        ensures
            r.spec_remaining() == count,
    {
        ConsumerJob { stream, remaining: count }
    }

    /// One poll: pop bytes until the count is reached (finished) or the
    /// queue runs dry (suspend after registering the waker).  On the
    /// completing poll no registration happens, so the wake cell is left
    /// as it was.
    pub fn poll(&mut self, source: &mut EventSource, waker_id: u64) -> (r: TaskPoll)
        ensures
            final(source).bound() == old(source).bound(),
            final(source).claimed() == old(source).claimed(),
            final(self).spec_remaining() as nat + ConsumerJob::consumed(
                old(self).spec_remaining(),
                old(source).bytes().len(),
            ) == old(self).spec_remaining() as nat,
            final(source).bytes() == old(source).bytes().skip(
                ConsumerJob::consumed(old(self).spec_remaining(), old(source).bytes().len()) as int,
            ),
            (r == TaskPoll::Ready) == (final(self).spec_remaining() == 0),
            final(self).spec_remaining() == 0 ==> final(source).waker() == old(source).waker(),
            final(self).spec_remaining() > 0 ==> r == TaskPoll::Pending && final(source).waker()
                == Some(waker_id),
    {
        while self.remaining > 0
            invariant
                source.bound() == old(source).bound(),
                source.claimed() == old(source).claimed(),
                source.waker() == old(source).waker(),
                self.remaining <= old(self).remaining,
                old(self).remaining - self.remaining <= old(source).bytes().len(),
                source.bytes() == old(source).bytes().skip(
                    (old(self).remaining - self.remaining) as int,
                ),
            decreases self.remaining,
        {
            match self.stream.poll_next(source, waker_id) {
                StreamPoll::Ready(_byte) => {
                    proof {
                        let taken = (old(self).remaining - self.remaining) as int;
                        assert(old(source).bytes().skip(taken).drop_first()
                            =~= old(source).bytes().skip(taken + 1));
                    }
                    self.remaining = self.remaining - 1;
                },
                StreamPoll::Pending => {
                    return TaskPoll::Pending;
                },
            }
        }
        TaskPoll::Ready
    }
}

/// The computation a task owns: an explicit, resumable state machine.
pub enum Job {
    Keypress(KeypressJob),
    Consume(ConsumerJob),
}

/// An identified, suspendable unit of computation: one job plus the stable
/// identity it carries for its whole lifetime.
pub struct Task {
    pub(crate) id: TaskId,
    pub(crate) job: Job,
}

impl Task {
    pub closed spec fn spec_id(&self) -> u64 {
        self.id.0
    }

    pub closed spec fn spec_job(&self) -> Job {
        self.job
    }

    pub fn new(id: TaskId, job: Job) -> (r: Task)
        ensures
            r.spec_id() == id.0,
            r.spec_job() == job,
    {
        Task { id, job }
    }

    /// Poll the owned computation once, handing it the identifier its
    /// waker is bound to.  What this does is exactly what the owned job's
    /// own poll does.
    pub fn poll(
        &mut self,
        source: &mut EventSource,
        waker_id: u64,
        target: InputTarget,
        actions: &mut Vec<RouteAction>,
    ) -> (r: TaskPoll)
        ensures
            final(self).spec_id() == old(self).spec_id(),
            final(source).bound() == old(source).bound(),
            final(source).claimed() == old(source).claimed(),
            old(self).spec_job() matches Job::Keypress(job) ==> {
                &&& (final(self).spec_job() matches Job::Keypress(job2) && job2.spec_decoder()
                    == decode_route_fold(job.spec_decoder(), old(source).bytes(), target).0)
                &&& r == TaskPoll::Pending
                &&& final(source).bytes().len() == 0
                &&& final(source).waker() == Some(waker_id)
                &&& final(actions)@ == old(actions)@ + decode_route_fold(
                    job.spec_decoder(),
                    old(source).bytes(),
                    target,
                ).1
                &&& old(actions)@.len() <= final(actions)@.len() <= old(actions)@.len() + old(source).bytes().len()
                &&& forall|i: int|
                    0 <= i < old(actions)@.len() ==> final(actions)@[i] == old(actions)@[i]
                &&& forall|i: int|
                    old(actions)@.len() <= i < final(actions)@.len() ==> routed_under(
                        #[trigger] final(actions)@[i],
                        target,
                    )
            },
            old(self).spec_job() matches Job::Consume(job) ==> {
                let k = ConsumerJob::consumed(job.spec_remaining(), old(source).bytes().len());
                &&& final(actions)@ == old(actions)@
                &&& final(source).bytes() == old(source).bytes().skip(k as int)
                &&& (final(self).spec_job() matches Job::Consume(job2)
                    && job2.spec_remaining() as nat + k == job.spec_remaining() as nat)
                &&& (r == TaskPoll::Ready) == (job.spec_remaining() as nat
                    <= old(source).bytes().len())
                &&& (job.spec_remaining() as nat <= old(source).bytes().len()
                    ==> final(source).waker() == old(source).waker())
                &&& (job.spec_remaining() as nat > old(source).bytes().len() ==> r
                    == TaskPoll::Pending && final(source).waker() == Some(waker_id))
            },
    {
        match &mut self.job {
            Job::Keypress(job) => job.poll(source, waker_id, target, actions),
            Job::Consume(job) => job.poll(source, waker_id),
        }
    }
}

} // verus!
