use midas::{
    ConsumerJob, EventQueue, EventSource, Executor, InputTarget, Job, KeypressJob, PushOutcome,
    RouteAction, ScancodeStream, StepResult, StreamPoll, Task, TaskId, TaskPoll, push_byte,
    suspend_wake_cycles,
};

fn quiet_actions() -> Vec<RouteAction> {
    Vec::new()
}

#[test]
fn queue_starts_empty_with_requested_capacity() {
    let mut q = EventQueue::new(4);
    assert_eq!(q.capacity(), 4);
    assert_eq!(q.len(), 0);
    assert!(q.try_pop().is_err());
}

#[test]
fn queue_keeps_fifo_order() {
    let mut q = EventQueue::new(8);
    q.try_push(1).unwrap();
    q.try_push(2).unwrap();
    assert_eq!(q.try_pop().unwrap(), 1);
    q.try_push(3).unwrap();
    assert_eq!(q.try_pop().unwrap(), 2);
    assert_eq!(q.try_pop().unwrap(), 3);
    assert!(q.try_pop().is_err());
}

#[test]
fn full_queue_refuses_byte_and_keeps_entries() {
    let mut q = EventQueue::new(2);
    q.try_push(10).unwrap();
    q.try_push(20).unwrap();
    assert_eq!(q.len(), 2);
    assert!(q.try_push(30).is_err());
    assert_eq!(q.len(), 2);
    assert_eq!(q.try_pop().unwrap(), 10);
    assert_eq!(q.try_pop().unwrap(), 20);
    assert!(q.try_pop().is_err());
}

#[test]
fn scenario_three_scancodes_through_capacity_four() {
    let mut source = EventSource::new(4);
    let mut executor = Executor::new(8);
    let stream = ScancodeStream::new(&mut source);
    assert_eq!(source.capacity(), 4);
    assert_eq!(push_byte(&mut source, &mut executor, 0x1E), PushOutcome::Stored);
    assert_eq!(push_byte(&mut source, &mut executor, 0x30), PushOutcome::Stored);
    assert_eq!(push_byte(&mut source, &mut executor, 0x2E), PushOutcome::Stored);
    assert_eq!(source.occupied(), 3);
    assert_eq!(stream.poll_next(&mut source, 0), StreamPoll::Ready(0x1E));
    assert_eq!(stream.poll_next(&mut source, 0), StreamPoll::Ready(0x30));
    assert_eq!(stream.poll_next(&mut source, 0), StreamPoll::Ready(0x2E));
    assert_eq!(stream.poll_next(&mut source, 0), StreamPoll::Pending);
}

#[test]
fn dropped_byte_is_reported_and_entries_survive() {
    let mut source = EventSource::new(2);
    let mut executor = Executor::new(8);
    let stream = ScancodeStream::new(&mut source);
    assert_eq!(push_byte(&mut source, &mut executor, 7), PushOutcome::Stored);
    assert_eq!(push_byte(&mut source, &mut executor, 8), PushOutcome::Stored);
    assert_eq!(push_byte(&mut source, &mut executor, 9), PushOutcome::DroppedFull);
    assert_eq!(source.occupied(), 2);
    assert_eq!(stream.poll_next(&mut source, 0), StreamPoll::Ready(7));
    assert_eq!(stream.poll_next(&mut source, 0), StreamPoll::Ready(8));
}

#[test]
fn wake_cell_fires_once_per_registration() {
    let mut source = EventSource::new(4);
    let mut executor = Executor::new(8);
    let stream = ScancodeStream::new(&mut source);
    // an empty poll registers interest
    assert_eq!(stream.poll_next(&mut source, 5), StreamPoll::Pending);
    assert_eq!(executor.ready_len(), 0);
    // the first push fires the cell: exactly one ready entry appears
    assert_eq!(push_byte(&mut source, &mut executor, 1), PushOutcome::Stored);
    assert_eq!(executor.ready_len(), 1);
    // the registration was cleared, so a second push wakes nothing more
    assert_eq!(push_byte(&mut source, &mut executor, 2), PushOutcome::Stored);
    assert_eq!(executor.ready_len(), 1);
}

#[test]
fn fast_path_skips_registration() {
    let mut source = EventSource::new(4);
    let mut executor = Executor::new(8);
    let stream = ScancodeStream::new(&mut source);
    // a byte is already waiting: the poll takes the fast path and does
    // not register any waker
    assert_eq!(push_byte(&mut source, &mut executor, 42), PushOutcome::Stored);
    assert_eq!(stream.poll_next(&mut source, 5), StreamPoll::Ready(42));
    // with nothing registered, a later push wakes nobody
    assert_eq!(push_byte(&mut source, &mut executor, 43), PushOutcome::Stored);
    assert_eq!(executor.ready_len(), 0);
}

#[test]
fn stream_claim_is_single_use() {
    let mut source = EventSource::new(4);
    assert!(!source.is_claimed());
    let _stream = ScancodeStream::new(&mut source);
    assert!(source.is_claimed());
}

#[test]
fn immediately_completing_task_is_removed_and_never_polled_again() {
    let mut source = EventSource::new(4);
    let mut executor = Executor::new(8);
    let stream = ScancodeStream::new(&mut source);
    let id = executor.spawn(Job::Consume(ConsumerJob::new(stream, 0))).unwrap();
    let mut actions = quiet_actions();
    // the first poll completes the task at once
    assert_eq!(
        executor.step(&mut source, InputTarget::Nobody, &mut actions),
        StepResult::Completed(id.0)
    );
    // waking the finished task leaves only a stale entry, which is skipped
    assert!(executor.wake(id.0));
    assert_eq!(
        executor.step(&mut source, InputTarget::Nobody, &mut actions),
        StepResult::Skipped(id.0)
    );
    assert!(executor.is_idle());
}

#[test]
fn suspending_task_is_polled_once_per_wake_plus_once() {
    let n: u64 = 3;
    let mut source = EventSource::new(1);
    let mut executor = Executor::new(2);
    let stream = ScancodeStream::new(&mut source);
    let id = executor.spawn(Job::Consume(ConsumerJob::new(stream, n))).unwrap();
    let mut actions = quiet_actions();
    let mut polls: u64 = 0;
    // first poll: nothing buffered, the task suspends
    assert_eq!(
        executor.step(&mut source, InputTarget::Nobody, &mut actions),
        StepResult::Suspended(id.0)
    );
    polls += 1;
    for round in 0..n {
        assert!(executor.is_idle());
        assert_eq!(push_byte(&mut source, &mut executor, 0), PushOutcome::Stored);
        let result = executor.step(&mut source, InputTarget::Nobody, &mut actions);
        polls += 1;
        if round + 1 < n {
            assert_eq!(result, StepResult::Suspended(id.0));
        } else {
            assert_eq!(result, StepResult::Completed(id.0));
        }
    }
    assert_eq!(polls, n + 1);
    assert!(executor.is_idle());
}

#[test]
fn verified_wake_cycle_driver_runs() {
    let executor = suspend_wake_cycles(5);
    assert!(executor.is_idle());
    let immediate = suspend_wake_cycles(0);
    assert!(immediate.is_idle());
}

#[test]
fn idle_executor_resumes_with_exactly_the_woken_task() {
    let mut source = EventSource::new(4);
    let mut executor = Executor::new(8);
    let stream = ScancodeStream::new(&mut source);
    let id = executor.spawn(Job::Consume(ConsumerJob::new(stream, 1))).unwrap();
    let mut actions = quiet_actions();
    // drain: the task suspends and the ready-queue empties
    assert_eq!(
        executor.step(&mut source, InputTarget::Nobody, &mut actions),
        StepResult::Suspended(id.0)
    );
    assert_eq!(
        executor.step(&mut source, InputTarget::Nobody, &mut actions),
        StepResult::Idle
    );
    // nothing is runnable: this is where the run loop halts the core
    assert!(executor.is_idle());
    // an external wake fires
    assert_eq!(push_byte(&mut source, &mut executor, 0x2A), PushOutcome::Stored);
    assert!(!executor.is_idle());
    // the loop resumes and polls exactly the woken task, nothing else
    assert_eq!(
        executor.step(&mut source, InputTarget::Nobody, &mut actions),
        StepResult::Completed(id.0)
    );
    assert!(executor.is_idle());
}

#[test]
fn spawn_fails_only_when_ready_capacity_is_exhausted() {
    let mut source_a = EventSource::new(4);
    let mut source_b = EventSource::new(4);
    let mut executor = Executor::new(1);
    let stream_a = ScancodeStream::new(&mut source_a);
    let stream_b = ScancodeStream::new(&mut source_b);
    assert!(executor.spawn(Job::Consume(ConsumerJob::new(stream_a, 1))).is_ok());
    assert!(executor.spawn(Job::Consume(ConsumerJob::new(stream_b, 1))).is_err());
}

#[test]
fn keypress_task_routes_decoded_keys() {
    let mut source = EventSource::new(16);
    let mut executor = Executor::new(8);
    let stream = ScancodeStream::new(&mut source);
    let id = executor.spawn(Job::Keypress(KeypressJob::new(stream))).unwrap();
    let mut actions = quiet_actions();
    // nothing buffered yet: the task suspends
    assert_eq!(
        executor.step(&mut source, InputTarget::Terminal, &mut actions),
        StepResult::Suspended(id.0)
    );
    assert!(actions.is_empty());
    // press 'a' (scancode set 1 make code 0x1E), then wake and poll
    assert_eq!(push_byte(&mut source, &mut executor, 0x1E), PushOutcome::Stored);
    assert_eq!(executor.ready_len(), 1);
    assert_eq!(
        executor.step(&mut source, InputTarget::Terminal, &mut actions),
        StepResult::Suspended(id.0)
    );
    assert_eq!(actions, vec![RouteAction::InsertEcho('a')]);
}

#[test]
fn keypress_task_routes_a_burst_in_order() {
    let mut source = EventSource::new(16);
    let mut executor = Executor::new(8);
    let stream = ScancodeStream::new(&mut source);
    let id = executor.spawn(Job::Keypress(KeypressJob::new(stream))).unwrap();
    let mut actions = quiet_actions();
    // 'a' down then 'b' down arrive as one burst
    assert_eq!(push_byte(&mut source, &mut executor, 0x1E), PushOutcome::Stored);
    assert_eq!(push_byte(&mut source, &mut executor, 0x30), PushOutcome::Stored);
    assert_eq!(
        executor.step(&mut source, InputTarget::Terminal, &mut actions),
        StepResult::Suspended(id.0)
    );
    assert_eq!(
        actions,
        vec![RouteAction::InsertEcho('a'), RouteAction::InsertEcho('b')]
    );
}

#[test]
fn decoder_state_carries_across_bytes() {
    let mut source = EventSource::new(16);
    let mut executor = Executor::new(8);
    let stream = ScancodeStream::new(&mut source);
    let id = executor.spawn(Job::Keypress(KeypressJob::new(stream))).unwrap();
    let mut actions = quiet_actions();
    // left shift down, then 'a' down: the shift byte itself yields no
    // action, but it changes what the next byte decodes to
    assert_eq!(push_byte(&mut source, &mut executor, 0x2A), PushOutcome::Stored);
    assert_eq!(push_byte(&mut source, &mut executor, 0x1E), PushOutcome::Stored);
    assert_eq!(
        executor.step(&mut source, InputTarget::Terminal, &mut actions),
        StepResult::Suspended(id.0)
    );
    assert_eq!(actions, vec![RouteAction::InsertEcho('A')]);
}

#[test]
fn drain_polls_every_waiting_task() {
    let mut source = EventSource::new(4);
    let mut executor = Executor::new(8);
    let stream = ScancodeStream::new(&mut source);
    let id = executor.spawn(Job::Consume(ConsumerJob::new(stream, 2))).unwrap();
    // two bytes are already buffered when the drain begins
    assert_eq!(push_byte(&mut source, &mut executor, 1), PushOutcome::Stored);
    assert_eq!(push_byte(&mut source, &mut executor, 2), PushOutcome::Stored);
    let mut actions = quiet_actions();
    executor.run_until_idle(&mut source, InputTarget::Nobody, &mut actions);
    assert!(executor.is_idle());
    // the waiting task was polled: it consumed its two bytes and finished,
    // so a later wake finds only a stale entry
    assert!(executor.wake(id.0));
    assert_eq!(
        executor.step(&mut source, InputTarget::Nobody, &mut actions),
        StepResult::Skipped(id.0)
    );
}

#[test]
fn task_dispatches_to_its_job() {
    let mut source = EventSource::new(4);
    let stream = ScancodeStream::new(&mut source);
    let mut task = Task::new(TaskId::new(9), Job::Consume(ConsumerJob::new(stream, 0)));
    let mut actions = quiet_actions();
    let poll = task.poll(&mut source, 9, InputTarget::Nobody, &mut actions);
    assert_eq!(poll, TaskPoll::Ready);
}
