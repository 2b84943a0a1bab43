use vstd::prelude::*;
use vstd::pervasive::VecAdditionalExecFns;
use vstd::pervasive::unreached;

use crate::ready::ReadyQueue;
use crate::router::{InputTarget, RouteAction, routed_under};
use crate::stream::EventSource;
use crate::task::{Job, Task, TaskId, TaskPoll, decode_route_fold};
use crate::wake::fire_model;

verus! {

/// A previously constructed waker handle, bound to one task for its whole
/// lifetime.  Invoking it marks exactly that task ready again.
#[derive(Clone, Copy, PartialEq, Eq, Structural, Debug)]
pub struct WakerHandle {
    pub task: TaskId,
}

impl WakerHandle {
    pub fn new(task: TaskId) -> (r: WakerHandle)
        ensures
            r.task == task,
    {
        WakerHandle { task }
    }
}

/// One task slot: the task itself plus its cached waker handle, built on
/// the first poll and dropped with the task when it completes.
pub(crate) struct TaskEntry {
    pub(crate) task: Task,
    pub(crate) waker: Option<WakerHandle>,
}

/// What one scheduling step did.
#[derive(Clone, Copy, PartialEq, Eq, Structural, Debug)]
pub enum StepResult {
    /// The ready-queue was empty: nothing is runnable, and the caller may
    /// halt the processor until the next wake-up arrives.
    Idle,
    /// The drained identifier's task had already completed and been
    /// removed; the stale entry was skipped without polling anything.
    Skipped(u64),
    /// The task was polled and reported "not yet finished".
    Suspended(u64),
    /// The task was polled, completed, and was removed together with its
    /// cached waker.
    Completed(u64),
}

/// Spawning failed: the ready-queue capacity is exhausted.
#[derive(Clone, Copy, PartialEq, Eq, Structural, Debug)]
pub struct SpawnError;

/// Outcome of handing one byte to the core from interrupt context.
#[derive(Clone, Copy, PartialEq, Eq, Structural, Debug)]
pub enum PushOutcome {
    /// The byte was stored and the wake cell was fired.
    Stored,
    /// The queue was full: the byte was dropped, nothing was woken, and
    /// the caller should surface a diagnostic rather than retry.
    DroppedFull,
}

/// The cooperative, single-core scheduler.  It owns every task, the
/// ready-queue of identifiers awaiting a poll, and a per-task cached waker
/// handle.  Task identifiers index the slot table and are handed out
/// monotonically, so an identifier is never reused and a stale ready entry
/// is detected by finding its slot empty.
pub struct Executor {
    slots: Vec<Option<TaskEntry>>,
    ready: ReadyQueue,
    poll_log: Ghost<Map<u64, nat>>,
}

impl Executor {
    spec fn slot_inv(entry: Option<TaskEntry>, i: int) -> bool {
        match entry {
            None => true,
            Some(e) => e.task.spec_id() == i && (match e.waker {
                Some(h) => h.task.0 == i,
                None => true,
            }),
        }
    }

    pub closed spec fn wf(&self) -> bool {
        &&& self.ready.wf()
        &&& forall|i: int|
            0 <= i < self.slots@.len() ==> Self::slot_inv(#[trigger] self.slots@[i], i)
        &&& forall|id: u64| #[trigger] self.poll_log@.dom().contains(id) ==> id < self.slots@.len()
    }

    /// How many tasks have ever been spawned; also the next fresh
    /// identifier.
    pub closed spec fn spawned(&self) -> nat {
        self.slots@.len()
    }

    /// Whether this identifier's task is registered and not yet completed.
    pub closed spec fn alive(&self, id: u64) -> bool {
        id < self.slots@.len() && self.slots@[id as int] is Some
    }

    /// Whether this identifier's task ran to completion and was removed.
    pub closed spec fn completed(&self, id: u64) -> bool {
        id < self.slots@.len() && self.slots@[id as int] is None
    }

    /// The job a live task currently owns.
    pub closed spec fn job_of(&self, id: u64) -> Job {
        match self.slots@[id as int] {
            Some(e) => e.task.spec_job(),
            None => vstd::pervasive::arbitrary(),
        }
    }

    /// The identifiers awaiting a poll, oldest first.
    pub closed spec fn ready_ids(&self) -> Seq<u64> {
        self.ready@
    }

    /// The fixed capacity of the ready-queue.
    pub closed spec fn ready_bound(&self) -> nat {
        self.ready.bound()
    }

    /// How many times this identifier's task has been polled.
    pub closed spec fn polls(&self, id: u64) -> nat {
        if self.poll_log@.dom().contains(id) {
            self.poll_log@[id]
        } else {
            0
        }
    }

    pub fn new(ready_bound: usize) -> (r: Executor)
        requires
            ready_bound >= 1,
        ensures
            r.wf(),
            r.spawned() == 0,
            r.ready_ids() == Seq::<u64>::empty(),
            r.ready_bound() == ready_bound as nat,
            forall|id: u64| !r.alive(id) && !r.completed(id) && r.polls(id) == 0,
    {
        Executor {
            slots: Vec::new(),
            ready: ReadyQueue::new(ready_bound),
            poll_log: Ghost(Map::empty()),
        }
    }

    /// Allocate a fresh identifier, store the task, and enqueue it as
    /// ready.  Fails exactly when the ready-queue capacity is exhausted,
    /// in which case nothing changes.
    pub fn spawn(&mut self, job: Job) -> (r: Result<TaskId, SpawnError>)
        requires
            old(self).wf(),
        ensures
            final(self).wf(),
            final(self).ready_bound() == old(self).ready_bound(),
            (r is Ok) == (old(self).ready_ids().len() < old(self).ready_bound()),
            r matches Ok(id) ==> {
                &&& id.0 == old(self).spawned()
                &&& final(self).spawned() == old(self).spawned() + 1
                &&& final(self).alive(id.0)
                &&& final(self).job_of(id.0) == job
                &&& final(self).ready_ids() == old(self).ready_ids().push(id.0)
                &&& forall|j: u64|
                    j != id.0 ==> final(self).alive(j) == old(self).alive(j) && final(self).completed(j) == old(self).completed(j)
                &&& forall|j: u64|
                    old(self).alive(j) ==> final(self).job_of(j) == old(self).job_of(j)
                &&& forall|j: u64| final(self).polls(j) == old(self).polls(j)
            },
            r is Err ==> *final(self) == *old(self),
    {
        if self.ready.len() == self.ready.capacity() {
            return Err(SpawnError);
        }
        let id_value = self.slots.len() as u64;
        let id = TaskId::new(id_value);
        let entry = TaskEntry { task: Task::new(id, job), waker: None };
        self.slots.push(Some(entry));
        let accepted = self.ready.enqueue(id_value);
        assert(accepted);
        assert forall|i: int|
            0 <= i < self.slots@.len() implies Self::slot_inv(#[trigger] self.slots@[i], i) by {
            if i < old(self).slots@.len() {
                assert(Self::slot_inv(old(self).slots@[i], i));
            }
        }
        Ok(id)
    }

    /// Waker invocation: mark the task with this identifier ready.  Safe
    /// from any context; never allocates; reports whether the identifier
    /// was actually enqueued (the ready-queue may be full).
    pub fn wake(&mut self, id: u64) -> (delivered: bool)
        requires
            old(self).wf(),
        ensures
            final(self).wf(),
            final(self).ready_bound() == old(self).ready_bound(),
            final(self).spawned() == old(self).spawned(),
            delivered == (old(self).ready_ids().len() < old(self).ready_bound()),
            delivered ==> final(self).ready_ids() == old(self).ready_ids().push(id),
            !delivered ==> final(self).ready_ids() == old(self).ready_ids(),
            forall|j: u64|
                final(self).alive(j) == old(self).alive(j) && final(self).completed(j) == old(self).completed(j) && final(self).polls(j) == old(self).polls(j),
            forall|j: u64| old(self).alive(j) ==> final(self).job_of(j) == old(self).job_of(j),
    {
        self.ready.enqueue(id)
    }

    /// Whether nothing is runnable.  When this holds, the run loop may
    /// halt the processor until the next interrupt, after re-checking
    /// emptiness with interrupts disabled.
    pub fn is_idle(&self) -> (r: bool)
        requires
            self.wf(),
        ensures
            r == (self.ready_ids().len() == 0),
    {
        self.ready.is_empty()
    }

    /// The number of ready entries awaiting a drain.
    pub fn ready_len(&self) -> (r: usize)
        ensures
            r == self.ready_ids().len(),
    {
        self.ready.len()
    }

    /// One scheduling step: drain the oldest ready identifier and poll its
    /// task.  A stale identifier (task already completed and removed) is
    /// skipped silently.  A poll that reports completion removes the task
    /// and its cached waker; one that suspends leaves the task registered.
    /// A completed task is never polled again.
    pub fn step(
        &mut self,
        source: &mut EventSource,
        target: InputTarget,
        actions: &mut Vec<RouteAction>,
    ) -> (r: StepResult)
        requires
            old(self).wf(),
        ensures
            final(self).wf(),
            final(self).spawned() == old(self).spawned(),
            final(self).ready_bound() == old(self).ready_bound(),
            final(source).bound() == old(source).bound(),
            final(source).claimed() == old(source).claimed(),
            forall|i: u64|
                old(self).completed(i) ==> final(self).completed(i) && final(self).polls(i) == old(self).polls(i),
            old(self).ready_ids().len() == 0 ==> r == StepResult::Idle && final(self).ready_ids()
                == old(self).ready_ids() && (forall|j: u64|
                final(self).alive(j) == old(self).alive(j) && final(self).completed(j) == old(self).completed(j) && final(self).polls(j) == old(self).polls(j)) && (forall|j: u64|
                old(self).alive(j) ==> final(self).job_of(j) == old(self).job_of(j)) && *final(source) == *old(source) && final(actions)@ == old(actions)@,
            old(self).ready_ids().len() > 0 ==> final(self).ready_ids() == old(self).ready_ids().drop_first() && ({
                let id = old(self).ready_ids()[0];
                &&& (!old(self).alive(id) ==> r == StepResult::Skipped(id) && *final(source) == *old(source) && final(actions)@ == old(actions)@ && (forall|j: u64|
                    final(self).alive(j) == old(self).alive(j) && final(self).completed(j) == old(self).completed(j) && final(self).polls(j) == old(self).polls(j)) && (forall|j: u64|
                    old(self).alive(j) ==> final(self).job_of(j) == old(self).job_of(j)))
                &&& (old(self).alive(id) ==> {
                    &&& final(self).polls(id) == old(self).polls(id) + 1
                    &&& forall|j: u64| j != id ==> final(self).polls(j) == old(self).polls(j)
                    &&& forall|j: u64|
                        j != id ==> final(self).alive(j) == old(self).alive(j) && final(self).completed(j) == old(self).completed(j)
                    &&& forall|j: u64|
                        j != id && old(self).alive(j) ==> final(self).job_of(j) == old(self).job_of(j)
                    &&& (old(self).job_of(id) matches Job::Consume(job) ==> {
                        let k = crate::task::ConsumerJob::consumed(
                            job.spec_remaining(),
                            old(source).bytes().len(),
                        );
                        &&& final(source).bytes() == old(source).bytes().skip(k as int)
                        &&& final(actions)@ == old(actions)@
                        &&& (job.spec_remaining() as nat <= old(source).bytes().len() ==> r
                            == StepResult::Completed(id) && final(self).completed(id) && !final(self).alive(id) && final(source).waker() == old(source).waker())
                        &&& (job.spec_remaining() as nat > old(source).bytes().len() ==> r
                            == StepResult::Suspended(id) && final(self).alive(id) && (final(self).job_of(id) matches Job::Consume(job2) && job2.spec_remaining() as nat + k
                            == job.spec_remaining() as nat) && final(source).waker() == Some(id))
                    })
                    &&& (old(self).job_of(id) matches Job::Keypress(job) ==> {
                        &&& r == StepResult::Suspended(id)
                        &&& final(self).alive(id)
                        &&& (final(self).job_of(id) matches Job::Keypress(job2)
                            && job2.spec_decoder() == decode_route_fold(
                            job.spec_decoder(),
                            old(source).bytes(),
                            target,
                        ).0)
                        &&& final(source).bytes().len() == 0
                        &&& final(source).waker() == Some(id)
                        &&& final(actions)@ == old(actions)@ + decode_route_fold(
                            job.spec_decoder(),
                            old(source).bytes(),
                            target,
                        ).1
                        &&& old(actions)@.len() <= final(actions)@.len() <= old(actions)@.len()
                            + old(source).bytes().len()
                        &&& forall|i: int|
                            0 <= i < old(actions)@.len() ==> final(actions)@[i] == old(actions)@[i]
                        &&& forall|i: int|
                            old(actions)@.len() <= i < final(actions)@.len() ==> routed_under(
                                #[trigger] final(actions)@[i],
                                target,
                            )
                    })
                })
            }),
    {
        let popped = self.ready.dequeue();
        let id = match popped {
            None => {
                return StepResult::Idle;
            },
            Some(id) => id,
        };
        if id >= self.slots.len() as u64 {
            return StepResult::Skipped(id);
        }
        let id_usize = id as usize;
        if self.slots[id_usize].is_none() {
            return StepResult::Skipped(id);
        }
        let mut taken: Option<TaskEntry> = None;
        self.slots.set_and_swap(id_usize, &mut taken);
        let mut entry = match taken {
            Some(e) => e,
            None => unreached(),
        };
        let handle = match entry.waker {
            Some(h) => h,
            None => {
                let h = WakerHandle::new(TaskId::new(id));
                entry.waker = Some(h);
                h
            },
        };
        assert(handle.task.0 == id);
        let result = entry.task.poll(source, handle.task.0, target, actions);
        proof {
            self.poll_log@ = self.poll_log@.insert(id, old(self).polls(id) + 1);
        }
        match result {
            TaskPoll::Ready => {
                // the slot stays empty: the task and its cached waker are
                // dropped, and the identifier is never reused
                assert forall|i: int|
                    0 <= i < self.slots@.len() implies Self::slot_inv(
                    #[trigger] self.slots@[i],
                    i,
                ) by {
                    assert(Self::slot_inv(old(self).slots@[i], i));
                }
                StepResult::Completed(id)
            },
            TaskPoll::Pending => {
                self.slots.set(id_usize, Some(entry));
                assert forall|i: int|
                    0 <= i < self.slots@.len() implies Self::slot_inv(
                    #[trigger] self.slots@[i],
                    i,
                ) by {
                    if i != id {
                        assert(Self::slot_inv(old(self).slots@[i], i));
                    }
                }
                StepResult::Suspended(id)
            },
        }
    }

    /// Drain the ready-queue completely: step until nothing is runnable,
    /// polling each drained identifier's task as `step` says.  Every task
    /// that was awaiting a poll when the drain began is polled at least
    /// once before it ends.  Polling never wakes anything by itself here
    /// (wake-ups come only from producers), so this terminates after at
    /// most one step per ready entry.
    pub fn run_until_idle(
        &mut self,
        source: &mut EventSource,
        target: InputTarget,
        actions: &mut Vec<RouteAction>,
    )
        requires
            old(self).wf(),
        ensures
            final(self).wf(),
            final(self).ready_ids().len() == 0,
            final(self).spawned() == old(self).spawned(),
            final(self).ready_bound() == old(self).ready_bound(),
            final(source).bound() == old(source).bound(),
            final(source).claimed() == old(source).claimed(),
            forall|id: u64|
                #[trigger] old(self).ready_ids().contains(id) && old(self).alive(id) ==> final(self).polls(id) > old(self).polls(id),
            forall|i: u64|
                old(self).completed(i) ==> final(self).completed(i) && final(self).polls(i) == old(self).polls(i),
            final(actions)@.len() >= old(actions)@.len(),
            forall|i: int| 0 <= i < old(actions)@.len() ==> final(actions)@[i] == old(actions)@[i],
            forall|i: int|
                old(actions)@.len() <= i < final(actions)@.len() ==> routed_under(
                    #[trigger] final(actions)@[i],
                    target,
                ),
    {
        while !self.is_idle()
            invariant
                self.wf(),
                self.spawned() == old(self).spawned(),
                self.ready_bound() == old(self).ready_bound(),
                source.bound() == old(source).bound(),
                source.claimed() == old(source).claimed(),
                forall|id: u64|
                    #[trigger] old(self).ready_ids().contains(id) && old(self).alive(id)
                        ==> self.polls(id) > old(self).polls(id) || (self.ready_ids().contains(id)
                        && self.alive(id) && self.polls(id) >= old(self).polls(id)),
                forall|i: u64|
                    old(self).completed(i) ==> self.completed(i) && self.polls(i) == old(self).polls(i),
                actions@.len() >= old(actions)@.len(),
                forall|i: int| 0 <= i < old(actions)@.len() ==> actions@[i] == old(actions)@[i],
                forall|i: int|
                    old(actions)@.len() <= i < actions@.len() ==> routed_under(
                        #[trigger] actions@[i],
                        target,
                    ),
            decreases self.ready_ids().len(),
        {
            let ghost prev = *self;
            self.step(source, target, actions);
            proof {
                assert forall|id: u64|
                    #[trigger] old(self).ready_ids().contains(id) && old(self).alive(id)
                        implies self.polls(id) > old(self).polls(id) || (
                    self.ready_ids().contains(id) && self.alive(id) && self.polls(id) >= old(self).polls(id)) by {
                    if !(prev.polls(id) > old(self).polls(id)) {
                        // this identifier was still queued and alive when
                        // the step began
                        assert(prev.ready_ids().contains(id) && prev.alive(id) && prev.polls(id)
                            >= old(self).polls(id));
                        let d = prev.ready_ids()[0];
                        if id == d {
                            // the step polled exactly this identifier
                            assert(self.polls(id) == prev.polls(id) + 1);
                        } else {
                            // the identifier sits deeper in the queue and
                            // survives the drain of the head entry
                            let i = choose|i: int|
                                0 <= i < prev.ready_ids().len() && prev.ready_ids()[i] == id;
                            assert(i != 0);
                            assert(self.ready_ids() == prev.ready_ids().drop_first());
                            assert(self.ready_ids()[i - 1] == id);
                            assert(self.ready_ids().contains(id));
                        }
                    }
                }
            }
        }
    }
}

/// A task identifier is registered exactly while its computation has not
/// yet completed: every identifier below the spawn counter is either
/// alive or completed, never both, and identifiers at or past the counter
/// are neither.
pub proof fn lemma_registered_iff_not_completed(ex: &Executor)
    ensures
        forall|id: u64| ex.alive(id) <==> (id < ex.spawned() && !ex.completed(id)),
        forall|id: u64| !(ex.alive(id) && ex.completed(id)),
{
}

/// One wake per suspension means one poll per wake, plus the first: a task
/// that suspends `n` times and is woken once per suspension is polled
/// exactly `n + 1` times in total — `n` suspending polls and one final
/// completing poll — and is then removed and never polled again.
///
/// This runs the whole interaction for any `n`: spawn a task that needs
/// `n` bytes, poll it once on an empty queue (first suspension for
/// `n > 0`), then `n` times deliver one byte and let the wake-up drive
/// exactly one more poll.
pub fn suspend_wake_cycles(n: u64) -> (ex: Executor)
    ensures
        ex.spawned() == 1,
        ex.completed(0),
        !ex.alive(0),
        ex.polls(0) == n + 1,
{
    let mut source = EventSource::new(1);
    let mut ex = Executor::new(2);
    let stream = crate::stream::ScancodeStream::new(&mut source);
    let job = Job::Consume(crate::task::ConsumerJob::new(stream, n));
    let spawned = ex.spawn(job);
    let id = match spawned {
        Ok(id) => id,
        Err(_) => unreached(),
    };
    assert(id.0 == 0);
    let mut actions: Vec<RouteAction> = Vec::new();
    // first poll: the queue is empty, so the task either completes at once
    // (n == 0) or registers its waker and suspends
    ex.step(&mut source, InputTarget::Nobody, &mut actions);
    let mut i: u64 = 0;
    while i < n
        invariant
            i <= n,
            source.wf(),
            source.bound() == 1,
            source.bytes().len() == 0,
            ex.wf(),
            ex.spawned() == 1,
            ex.ready_bound() == 2,
            ex.ready_ids() == Seq::<u64>::empty(),
            ex.polls(0) == i + 1,
            i < n ==> ex.alive(0) && (ex.job_of(0) matches Job::Consume(j)
                && j.spec_remaining() + i == n) && source.waker() == Some(0u64),
            i == n ==> ex.completed(0) && !ex.alive(0),
        decreases n - i,
    {
        // the producer stores one byte and fires the wake cell, which
        // enqueues exactly the suspended task's identifier
        let out = push_byte(&mut source, &mut ex, 0u8);
        assert(out == PushOutcome::Stored);
        assert(ex.ready_ids() == Seq::<u64>::empty().push(0u64));
        // the run loop resumes and polls exactly the woken task
        ex.step(&mut source, InputTarget::Nobody, &mut actions);
        i = i + 1;
    }
    ex
}

/// Entry point for the hardware interrupt handler: store one raw scancode
/// byte and fire the wake cell, so the task that registered interest is
/// marked ready.  Never blocks and never retries: when the queue is full
/// the byte is dropped and reported, since the producer may run with
/// interrupts masked.
pub fn push_byte(source: &mut EventSource, executor: &mut Executor, byte: u8) -> (r: PushOutcome)
    requires
        old(source).wf(),
        old(executor).wf(),
    ensures
        final(source).wf(),
        final(executor).wf(),
        final(source).bound() == old(source).bound(),
        final(source).claimed() == old(source).claimed(),
        final(executor).spawned() == old(executor).spawned(),
        final(executor).ready_bound() == old(executor).ready_bound(),
        forall|j: u64|
            final(executor).alive(j) == old(executor).alive(j) && final(executor).completed(j)
                == old(executor).completed(j) && final(executor).polls(j) == old(executor).polls(
                j,
            ),
        forall|j: u64|
            old(executor).alive(j) ==> final(executor).job_of(j) == old(executor).job_of(j),
        old(source).bytes().len() < old(source).bound() ==> r == PushOutcome::Stored && final(source).bytes() == old(source).bytes().push(byte) && (
        final(source).waker(),
        final(executor).ready_ids(),
        ) == fire_model(
            old(source).waker(),
            old(executor).ready_ids(),
            old(executor).ready_bound(),
        ),
        old(source).bytes().len() >= old(source).bound() ==> r == PushOutcome::DroppedFull && final(source).bytes() == old(source).bytes() && final(source).waker() == old(source).waker() && final(executor).ready_ids() == old(executor).ready_ids(),
{
    match source.push_raw(byte) {
        Ok(()) => {
            source.fire_into(&mut executor.ready);
            PushOutcome::Stored
        },
        Err(_) => PushOutcome::DroppedFull,
    }
}

} // verus!
