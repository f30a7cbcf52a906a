use goshenite::channel::{ChannelClosed, QueueChannel, ValueChannel};
use goshenite::command::{
    check_channel_sender_result, check_channel_updater_result, EngineCommand, EngineError,
    RenderThreadCommand,
};

#[test]
fn queue_hands_out_what_was_sent_in_order() {
    let mut queue: QueueChannel<u32> = QueueChannel::new();
    let sent: Vec<u32> = (0..100).map(|n| n * 7 % 13).collect();
    for event in &sent {
        assert_eq!(queue.send(*event), Ok(()));
    }
    let drained = queue.drain().unwrap();
    assert_eq!(drained.len(), 100);
    assert_eq!(drained, sent);
}

#[test]
fn queue_drain_empties_and_never_waits() {
    let mut queue: QueueChannel<&str> = QueueChannel::new();
    assert_eq!(queue.drain(), Ok(vec![]));
    queue.send("press").unwrap();
    queue.send("release").unwrap();
    assert_eq!(queue.drain(), Ok(vec!["press", "release"]));
    assert_eq!(queue.drain(), Ok(vec![]));
    queue.send("move").unwrap();
    assert_eq!(queue.drain(), Ok(vec!["move"]));
}

#[test]
fn queue_send_fails_once_the_receiver_is_gone() {
    let mut queue: QueueChannel<u8> = QueueChannel::new();
    queue.send(1).unwrap();
    queue.drop_receiver();
    assert_eq!(queue.send(2), Err(ChannelClosed));
    // what was queued before is untouched by the failed send
    assert_eq!(queue.drain(), Ok(vec![1]));
}

#[test]
fn queue_drain_fails_once_the_sender_is_gone() {
    let mut queue: QueueChannel<u8> = QueueChannel::new();
    queue.send(1).unwrap();
    queue.drop_sender();
    assert_eq!(queue.drain(), Err(ChannelClosed));
    assert_eq!(queue.drain(), Err(ChannelClosed));
}

#[test]
fn value_channel_returns_the_last_of_many_publications() {
    let mut channel: ValueChannel<u32> = ValueChannel::starting_with(0);
    for value in 1..=50u32 {
        assert_eq!(channel.publish(value), Ok(()));
    }
    assert_eq!(channel.latest(), Ok(50));
}

#[test]
fn value_channel_keeps_answering_with_the_cached_value() {
    let mut channel: ValueChannel<Option<u8>> = ValueChannel::starting_with(None);
    assert_eq!(channel.latest(), Ok(None));
    channel.publish(Some(3)).unwrap();
    assert_eq!(channel.latest(), Ok(Some(3)));
    assert_eq!(channel.latest(), Ok(Some(3)));
    channel.publish(Some(4)).unwrap();
    channel.publish(Some(5)).unwrap();
    assert_eq!(channel.latest(), Ok(Some(5)));
}

#[test]
fn value_channel_reports_a_dropped_counterpart() {
    let mut channel: ValueChannel<u8> = ValueChannel::starting_with(1);
    channel.publish(2).unwrap();
    channel.drop_receiver();
    assert_eq!(channel.publish(3), Err(ChannelClosed));
    // the failed publication replaced nothing
    assert_eq!(channel.latest(), Ok(2));
    channel.drop_updater();
    assert_eq!(channel.latest(), Err(ChannelClosed));
}

#[test]
fn publishing_quit_twice_is_publishing_it_once() {
    let mut once: ValueChannel<Option<RenderThreadCommand>> = ValueChannel::starting_with(None);
    let mut thrice: ValueChannel<Option<RenderThreadCommand>> = ValueChannel::starting_with(None);
    once.publish(Some(RenderThreadCommand::RenderFrame)).unwrap();
    thrice.publish(Some(RenderThreadCommand::RenderFrame)).unwrap();
    once.publish(Some(RenderThreadCommand::Quit)).unwrap();
    for _ in 0..3 {
        thrice.publish(Some(RenderThreadCommand::Quit)).unwrap();
    }
    for _ in 0..3 {
        assert_eq!(once.latest(), Ok(Some(RenderThreadCommand::Quit)));
        assert_eq!(thrice.latest(), Ok(Some(RenderThreadCommand::Quit)));
    }
}

#[test]
fn updater_result_of_a_live_channel_is_ok() {
    let (receiver, updater) = single_value_channel::channel_starting_with(EngineCommand::Run);
    let checked = check_channel_updater_result(updater.update(EngineCommand::Quit));
    assert_eq!(checked, Ok(()));
    drop(receiver);
}

#[test]
fn updater_result_of_a_dead_channel_is_the_engine_error() {
    let (receiver, updater) = single_value_channel::channel_starting_with(0u32);
    drop(receiver);
    let checked = check_channel_updater_result(updater.update(1));
    assert_eq!(checked, Err(EngineError::RenderThreadClosedPrematurely));
}

#[test]
fn sender_result_of_a_live_channel_is_ok() {
    let (sender, receiver) = std::sync::mpsc::channel::<u32>();
    assert_eq!(check_channel_sender_result(sender.send(1)), Ok(()));
    drop(receiver);
}

#[test]
fn sender_result_of_a_dead_channel_is_the_engine_error() {
    let (sender, receiver) = std::sync::mpsc::channel::<u32>();
    drop(receiver);
    assert_eq!(
        check_channel_sender_result(sender.send(1)),
        Err(EngineError::RenderThreadClosedPrematurely)
    );
}

#[test]
fn engine_error_has_its_message() {
    assert_eq!(
        EngineError::RenderThreadClosedPrematurely.message(),
        "render thread was closed prematurely"
    );
}

#[test]
fn value_channel_behaves_as_the_channel_crate_does() {
    let (mut receiver, updater) = single_value_channel::channel_starting_with(0u32);
    let mut channel: ValueChannel<u32> = ValueChannel::starting_with(0);
    assert_eq!(Ok(*receiver.latest()), channel.latest());
    for value in [4u32, 9, 2] {
        updater.update(value).unwrap();
        channel.publish(value).unwrap();
    }
    assert_eq!(Ok(*receiver.latest()), channel.latest());
    assert_eq!(Ok(*receiver.latest()), channel.latest());
}
