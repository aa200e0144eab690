use cotask::AndThenTask;
use cotask::MapTask;
use cotask::PollResult;
use cotask::ScriptedStream;
use cotask::ScriptedTask;
use cotask::Stream;
use cotask::StreamEvent;
use cotask::TakeTask;
use cotask::Task;
use cotask::TaskEvent;
use cotask::ZipStream;

fn items_stream(values: &[u64]) -> ScriptedStream<u64, String> {
    let mut script: Vec<StreamEvent<u64, String>> = Vec::new();
    for v in values {
        script.push(StreamEvent::Item(*v));
    }
    script.push(StreamEvent::End);
    ScriptedStream::new(script)
}

#[test]
fn take_returns_first_n_in_order() {
    let source = items_stream(&[11, 22, 33, 44, 55]);
    let mut take = TakeTask::new(source, 3);
    match take.advance() {
        PollResult::Ready(out) => assert_eq!(out, vec![11, 22, 33]),
        _ => panic!("expected the first three items"),
    }
}

#[test]
fn take_waits_through_pending_rounds() {
    let script = vec![
        StreamEvent::Item(1),
        StreamEvent::Wait,
        StreamEvent::Item(2),
        StreamEvent::End,
    ];
    let source: ScriptedStream<u64, String> = ScriptedStream::new(script);
    let mut take = TakeTask::new(source, 2);
    assert!(matches!(take.advance(), PollResult::Pending));
    match take.advance() {
        PollResult::Ready(out) => assert_eq!(out, vec![1, 2]),
        _ => panic!("expected both items after the wait"),
    }
}

#[test]
fn take_short_stream_yields_all_without_error() {
    let source = items_stream(&[7, 8]);
    let mut take = TakeTask::new(source, 5);
    match take.advance() {
        PollResult::Ready(out) => assert_eq!(out, vec![7, 8]),
        _ => panic!("early exhaustion must yield the shorter sequence"),
    }
}

#[test]
fn take_zero_completes_immediately() {
    let source = items_stream(&[1, 2, 3]);
    let mut take = TakeTask::new(source, 0);
    match take.advance() {
        PollResult::Ready(out) => assert_eq!(out, Vec::<u64>::new()),
        _ => panic!("taking zero items must complete at once"),
    }
}

#[test]
fn take_failure_short_circuits_without_partial_result() {
    let script = vec![
        StreamEvent::Item(1),
        StreamEvent::Fault("boom".to_string()),
    ];
    let source: ScriptedStream<u64, String> = ScriptedStream::new(script);
    let mut take = TakeTask::new(source, 3);
    match take.advance() {
        PollResult::Failed(e) => assert_eq!(e, "boom"),
        _ => panic!("a stream failure must surface unchanged"),
    }
}

#[test]
fn zip_pairs_in_order_until_shorter_side_ends() {
    let left = items_stream(&[1, 2, 3]);
    let right_script = vec![
        StreamEvent::Item(10),
        StreamEvent::Wait,
        StreamEvent::Item(20),
        StreamEvent::End,
    ];
    let right: ScriptedStream<u64, String> = ScriptedStream::new(right_script);
    let mut zip = ZipStream::new(left, right);

    match zip.advance_next() {
        PollResult::Ready(Some(p)) => assert_eq!(p, (1, 10)),
        _ => panic!("both sides ready: first pair expected"),
    }
    assert!(matches!(zip.advance_next(), PollResult::Pending));
    match zip.advance_next() {
        PollResult::Ready(Some(p)) => assert_eq!(p, (2, 20)),
        _ => panic!("cached left value must pair with the late right one"),
    }
    assert!(matches!(zip.advance_next(), PollResult::Ready(None)));
    assert!(matches!(zip.advance_next(), PollResult::Ready(None)));
}

#[test]
fn zip_ends_with_min_length() {
    let left = items_stream(&[1]);
    let right = items_stream(&[10, 20, 30]);
    let mut zip = ZipStream::new(left, right);
    match zip.advance_next() {
        PollResult::Ready(Some(p)) => assert_eq!(p, (1, 10)),
        _ => panic!("one pair expected"),
    }
    assert!(matches!(zip.advance_next(), PollResult::Ready(None)));
}

#[test]
fn zip_failure_short_circuits() {
    let left = items_stream(&[1, 2]);
    let right_script = vec![StreamEvent::Fault("wire broke".to_string())];
    let right: ScriptedStream<u64, String> = ScriptedStream::new(right_script);
    let mut zip = ZipStream::new(left, right);
    match zip.advance_next() {
        PollResult::Failed(e) => assert_eq!(e, "wire broke"),
        _ => panic!("a child failure must surface unchanged"),
    }
}

#[test]
fn map_applies_function_to_success_value() {
    let script = vec![TaskEvent::Wait, TaskEvent::Finish(21u64)];
    let inner: ScriptedTask<u64, String> = ScriptedTask::new(script);
    let mut mapped = MapTask::new(inner, |x: u64| x.wrapping_mul(2));
    assert!(matches!(mapped.advance(), PollResult::Pending));
    match mapped.advance() {
        PollResult::Ready(v) => assert_eq!(v, 42),
        _ => panic!("mapped value expected"),
    }
}

#[test]
fn map_propagates_failure_without_calling_function() {
    let script = vec![TaskEvent::Fault("bad luck".to_string())];
    let inner: ScriptedTask<u64, String> = ScriptedTask::new(script);
    let mut mapped = MapTask::new(inner, |_x: u64| -> u64 {
        panic!("the function must never run on a failure")
    });
    match mapped.advance() {
        PollResult::Failed(e) => assert_eq!(e, "bad luck"),
        _ => panic!("the inner failure must pass through unchanged"),
    }
}

#[test]
fn and_then_chains_second_task_from_first_value() {
    let first: ScriptedTask<u64, String> = ScriptedTask::new(vec![TaskEvent::Finish(5)]);
    let mut chained = AndThenTask::new(first, |v: u64| {
        ScriptedTask::<u64, String>::new(vec![TaskEvent::Wait, TaskEvent::Finish(v + 1)])
    });
    assert!(matches!(chained.advance(), PollResult::Pending));
    assert!(matches!(chained.advance(), PollResult::Pending));
    match chained.advance() {
        PollResult::Ready(v) => assert_eq!(v, 6),
        _ => panic!("the follow-up task's value expected"),
    }
}

#[test]
fn and_then_first_failure_short_circuits() {
    let first: ScriptedTask<u64, String> =
        ScriptedTask::new(vec![TaskEvent::Fault("no value".to_string())]);
    let mut chained = AndThenTask::new(first, |v: u64| {
        ScriptedTask::<u64, String>::new(vec![TaskEvent::Finish(v)])
    });
    match chained.advance() {
        PollResult::Failed(e) => assert_eq!(e, "no value"),
        _ => panic!("the first task's failure must pass through"),
    }
}

#[test]
fn scripted_task_pending_round_is_idempotent() {
    let script = vec![TaskEvent::Wait, TaskEvent::Wait, TaskEvent::Finish(3u64)];
    let mut t: ScriptedTask<u64, String> = ScriptedTask::new(script);
    assert!(matches!(t.advance(), PollResult::Pending));
    assert!(matches!(t.advance(), PollResult::Pending));
    match t.advance() {
        PollResult::Ready(v) => assert_eq!(v, 3),
        _ => panic!("scripted completion expected"),
    }
}

#[test]
fn stream_stays_closed_after_end() {
    let mut s = items_stream(&[4]);
    assert!(matches!(s.advance_next(), PollResult::Ready(Some(4))));
    assert!(matches!(s.advance_next(), PollResult::Ready(None)));
    assert!(matches!(s.advance_next(), PollResult::Ready(None)));
    assert!(matches!(s.advance_next(), PollResult::Ready(None)));
}
