use cotask::Executor;
use cotask::OffloadError;
use cotask::OffloadTask;
use cotask::PollResult;
use cotask::ScriptedTask;
use cotask::Task;
use cotask::TaskEvent;

fn find_nth_prime(n: usize) -> u64 {
    let mut found: usize = 0;
    let mut candidate: u64 = 1;
    while found < n {
        candidate += 1;
        let mut is_prime = true;
        let mut d: u64 = 2;
        while d * d <= candidate {
            if candidate % d == 0 {
                is_prime = false;
                break;
            }
            d += 1;
        }
        if is_prime {
            found += 1;
        }
    }
    candidate
}

#[test]
fn offload_yields_computed_result_without_blocking_scheduler() {
    let mut work: OffloadTask<u64> = OffloadTask::new();
    let mut quick: ScriptedTask<u64, String> =
        ScriptedTask::new(vec![TaskEvent::Wait, TaskEvent::Finish(1)]);

    // Round-robin: the offloaded work stays pending while the scheduler
    // keeps advancing an unrelated task, which completes first.
    assert!(matches!(work.advance(), PollResult::Pending));
    assert!(work.needs_submission());
    assert!(matches!(quick.advance(), PollResult::Pending));
    assert!(matches!(work.advance(), PollResult::Pending));
    assert!(matches!(quick.advance(), PollResult::Ready(1)));

    // The worker finishes the blocking computation and delivers.
    let result = find_nth_prime(1000);
    work.deliver(Ok(result));
    match work.advance() {
        PollResult::Ready(v) => assert_eq!(v, 7919),
        _ => panic!("the offloaded result expected"),
    }
}

#[test]
fn offload_pool_rejection_is_distinguishable() {
    let mut work: OffloadTask<u64> = OffloadTask::new();
    assert!(matches!(work.advance(), PollResult::Pending));
    work.deliver(Err(OffloadError::Rejected));
    match work.advance() {
        PollResult::Failed(e) => assert_eq!(e, OffloadError::Rejected),
        _ => panic!("a rejected submission must fail the task"),
    }
}

#[test]
fn offload_panic_in_work_becomes_failure() {
    let mut work: OffloadTask<u64> = OffloadTask::new();
    assert!(matches!(work.advance(), PollResult::Pending));
    work.deliver(Err(OffloadError::WorkPanicked));
    match work.advance() {
        PollResult::Failed(e) => assert_eq!(e, OffloadError::WorkPanicked),
        _ => panic!("a panic in the work must fail the task"),
    }
}

#[test]
fn offload_waiting_rounds_are_idempotent() {
    let mut work: OffloadTask<u64> = OffloadTask::new();
    assert!(matches!(work.advance(), PollResult::Pending));
    assert!(matches!(work.advance(), PollResult::Pending));
    assert!(matches!(work.advance(), PollResult::Pending));
    assert!(work.needs_submission());
}

#[test]
fn executor_drives_spawned_tasks_to_completion() {
    let mut ex: Executor<ScriptedTask<u64, String>> = Executor::new();
    ex.spawn(ScriptedTask::new(vec![TaskEvent::Wait, TaskEvent::Finish(1)]));
    ex.spawn(ScriptedTask::new(vec![TaskEvent::Finish(2)]));
    ex.spawn(ScriptedTask::new(vec![
        TaskEvent::Wait,
        TaskEvent::Wait,
        TaskEvent::Fault("late failure".to_string()),
    ]));
    let completed = ex.run_until_stalled();
    assert_eq!(completed, 3);
    assert_eq!(ex.task_count(), 0);
}

#[test]
fn executor_stalls_when_no_task_can_progress() {
    let mut ex: Executor<ScriptedTask<u64, String>> = Executor::new();
    // An exhausted script with no terminal event waits forever.
    ex.spawn(ScriptedTask::new(Vec::new()));
    ex.spawn(ScriptedTask::new(vec![TaskEvent::Finish(9)]));
    let completed = ex.run_until_stalled();
    assert_eq!(completed, 1);
    assert_eq!(ex.task_count(), 1);
}

#[test]
fn executor_on_empty_queue_is_idle() {
    let mut ex: Executor<ScriptedTask<u64, String>> = Executor::new();
    assert_eq!(ex.run_until_stalled(), 0);
    assert_eq!(ex.task_count(), 0);
}
