use cotask::BufferedChannel;
use cotask::Executor;
use cotask::MapTask;
use cotask::OneShotChannel;
use cotask::PollResult;
use cotask::ScriptedStream;
use cotask::SendAttempt;
use cotask::Stream;
use cotask::StreamEvent;
use cotask::TakeTask;
use cotask::Task;
use cotask::ZipStream;

#[test]
fn map_over_one_shot_receiver() {
    let mut receiver: OneShotChannel<u64> = OneShotChannel::new();
    assert_eq!(receiver.send(6), Ok(()));
    let mut mapped = MapTask::new(receiver, |x: u64| x + 1);
    match mapped.advance() {
        PollResult::Ready(v) => assert_eq!(v, 7),
        _ => panic!("the mapped one-shot value expected"),
    }
}

#[test]
fn zip_channel_with_scripted_stream() {
    let mut ticks: BufferedChannel<u64> = BufferedChannel::new(4);
    assert_eq!(ticks.send(1), SendAttempt::Accepted);
    assert_eq!(ticks.send(2), SendAttempt::Accepted);
    let fib: ScriptedStream<u64, cotask::ChannelError> = ScriptedStream::new(vec![
        StreamEvent::Item(1),
        StreamEvent::Item(1),
        StreamEvent::Item(2),
        StreamEvent::End,
    ]);
    let mut zipped = ZipStream::new(ticks, fib);
    assert!(matches!(zipped.advance_next(), PollResult::Ready(Some((1, 1)))));
    assert!(matches!(zipped.advance_next(), PollResult::Ready(Some((2, 1)))));
    // The channel is empty with its sender alive: the tick side is pending,
    // the fibonacci value is cached for the next round.
    assert!(matches!(zipped.advance_next(), PollResult::Pending));
}

#[test]
fn executor_drives_take_tasks() {
    let mut ex: Executor<TakeTask<ScriptedStream<u64, String>>> = Executor::new();
    let stream: ScriptedStream<u64, String> = ScriptedStream::new(vec![
        StreamEvent::Item(1),
        StreamEvent::Wait,
        StreamEvent::Item(2),
        StreamEvent::End,
    ]);
    ex.spawn(TakeTask::new(stream, 2));
    let mut wait_rounds: Vec<StreamEvent<u64, String>> = Vec::new();
    for _ in 0..16 {
        wait_rounds.push(StreamEvent::Wait);
    }
    let endless: ScriptedStream<u64, String> = ScriptedStream::new(wait_rounds);
    ex.spawn(TakeTask::new(endless, 1));
    // First run: both tasks report a not-ready round, so the executor
    // parks them and stalls without a completion.
    assert_eq!(ex.run_until_stalled(), 0);
    assert_eq!(ex.task_count(), 2);
    // A new run stands for an external wake: the first take now gathers
    // its second item and completes; the slow one keeps waiting.
    assert_eq!(ex.run_until_stalled(), 1);
    assert_eq!(ex.task_count(), 1);
}

#[test]
fn zip_of_empty_channels_waits_unchanged() {
    let a: BufferedChannel<u64> = BufferedChannel::new(2);
    let b: BufferedChannel<u64> = BufferedChannel::new(2);
    let mut z = ZipStream::new(a, b);
    assert!(matches!(z.advance_next(), PollResult::Pending));
    assert!(matches!(z.advance_next(), PollResult::Pending));
    assert!(matches!(z.advance_next(), PollResult::Pending));
}
