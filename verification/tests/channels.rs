use cotask::BufferedChannel;
use cotask::ChannelError;
use cotask::OneShotChannel;
use cotask::PollResult;
use cotask::SendAttempt;
use cotask::TakeTask;
use cotask::Task;

#[test]
fn one_shot_delivers_single_value() {
    let mut c: OneShotChannel<u64> = OneShotChannel::new();
    assert!(matches!(c.poll_receive(), PollResult::Pending));
    assert!(c.send(9).is_ok());
    match c.poll_receive() {
        PollResult::Ready(v) => assert_eq!(v, 9),
        _ => panic!("the sent value expected"),
    }
}

#[test]
fn one_shot_second_send_is_rejected() {
    let mut c: OneShotChannel<u64> = OneShotChannel::new();
    assert!(c.send(1).is_ok());
    assert_eq!(c.send(2), Err(ChannelError::AlreadySent));
    match c.poll_receive() {
        PollResult::Ready(v) => assert_eq!(v, 1),
        _ => panic!("the first value must survive the rejected send"),
    }
}

#[test]
fn one_shot_dropped_sender_fails_receiver() {
    let mut c: OneShotChannel<u64> = OneShotChannel::new();
    c.drop_sender();
    match c.poll_receive() {
        PollResult::Failed(e) => assert_eq!(e, ChannelError::SenderDropped),
        _ => panic!("a dropped sender must fail the receiver"),
    }
}

#[test]
fn one_shot_send_after_drop_is_rejected() {
    let mut c: OneShotChannel<u64> = OneShotChannel::new();
    c.drop_sender();
    assert_eq!(c.send(5), Err(ChannelError::SenderDropped));
}

#[test]
fn one_shot_drop_after_send_keeps_value() {
    let mut c: OneShotChannel<u64> = OneShotChannel::new();
    assert!(c.send(8).is_ok());
    c.drop_sender();
    match c.poll_receive() {
        PollResult::Ready(v) => assert_eq!(v, 8),
        _ => panic!("the sent value must survive the sender going away"),
    }
}

#[test]
fn buffered_accepts_up_to_capacity_then_backpressures() {
    let mut c: BufferedChannel<u64> = BufferedChannel::new(3);
    assert_eq!(c.send(1), SendAttempt::Accepted);
    assert_eq!(c.send(2), SendAttempt::Accepted);
    assert_eq!(c.send(3), SendAttempt::Accepted);
    assert_eq!(c.send(4), SendAttempt::MustWait);
    assert!(matches!(c.poll_next(), PollResult::Ready(Some(1))));
    assert_eq!(c.send(4), SendAttempt::Accepted);
}

#[test]
fn buffered_receives_in_send_order() {
    let mut c: BufferedChannel<u64> = BufferedChannel::new(8);
    for v in [5, 6, 7] {
        assert_eq!(c.send(v), SendAttempt::Accepted);
    }
    assert!(matches!(c.poll_next(), PollResult::Ready(Some(5))));
    assert!(matches!(c.poll_next(), PollResult::Ready(Some(6))));
    assert!(matches!(c.poll_next(), PollResult::Ready(Some(7))));
    assert!(matches!(c.poll_next(), PollResult::Pending));
}

#[test]
fn buffered_ends_only_after_all_senders_gone_and_drained() {
    let mut c: BufferedChannel<u64> = BufferedChannel::new(4);
    c.clone_sender();
    assert_eq!(c.send(1), SendAttempt::Accepted);
    c.drop_sender();
    assert!(matches!(c.poll_next(), PollResult::Ready(Some(1))));
    assert!(matches!(c.poll_next(), PollResult::Pending));
    c.drop_sender();
    assert!(matches!(c.poll_next(), PollResult::Ready(None)));
    assert!(matches!(c.poll_next(), PollResult::Ready(None)));
}

#[test]
fn buffered_channel_feeds_take_as_a_stream() {
    let mut c: BufferedChannel<u64> = BufferedChannel::new(4);
    assert_eq!(c.send(100), SendAttempt::Accepted);
    assert_eq!(c.send(200), SendAttempt::Accepted);
    let mut take = TakeTask::new(c, 2);
    match take.advance() {
        PollResult::Ready(out) => assert_eq!(out, vec![100, 200]),
        _ => panic!("the buffered values expected, in send order"),
    }
}
