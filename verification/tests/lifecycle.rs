use goshenite::channel::{ChannelClosed, ValueChannel};
use goshenite::command::{EngineCommand, RenderThreadCommand};
use goshenite::lifecycle::{
    engine_signal, join_poll, render_signal, report_join, JoinOutcome, JoinPoll, LoopAction,
    LoopSignal, ShutdownReport, ThreadHandle, ThreadState, WorkerLoop,
};

#[test]
fn join_poll_joins_a_finished_thread_whatever_the_time() {
    assert_eq!(join_poll(true, 0, 2_000), JoinPoll::Join);
    assert_eq!(join_poll(true, 5_000, 2_000), JoinPoll::Join);
}

#[test]
fn join_poll_abandons_only_past_the_timeout() {
    assert_eq!(join_poll(false, 0, 2_000), JoinPoll::KeepWaiting);
    assert_eq!(join_poll(false, 2_000, 2_000), JoinPoll::KeepWaiting);
    assert_eq!(join_poll(false, 2_001, 2_000), JoinPoll::Abandon);
    assert_eq!(join_poll(false, u128::MAX, u64::MAX), JoinPoll::Abandon);
}

#[test]
fn hung_thread_is_given_up_within_the_timeout_and_one_interval() {
    let mut handle = ThreadHandle::spawned(2_000);
    handle.started();
    assert!(handle.signal_quit());
    let interval: u128 = 5;
    let mut elapsed: u128 = 0;
    let mut looks = 0;
    loop {
        elapsed += interval;
        looks += 1;
        match handle.poll_join(false, elapsed) {
            JoinPoll::KeepWaiting => assert!(elapsed <= 2_000),
            JoinPoll::Abandon => break,
            JoinPoll::Join => panic!("a hung thread cannot be joined"),
        }
    }
    assert_eq!(looks, 401);
    assert!(elapsed > 2_000 && elapsed <= 2_000 + interval);
    assert_eq!(handle.state, ThreadState::TimedOut);
    assert_eq!(handle.report(), Some(ShutdownReport::Hang));
    assert!(!handle.signal_quit());
}

#[test]
fn finished_thread_is_joined_and_reported() {
    for (outcome, report) in [
        (JoinOutcome::Clean, ShutdownReport::Clean),
        (JoinOutcome::Failed, ShutdownReport::Error),
        (JoinOutcome::Panicked, ShutdownReport::Panic),
    ] {
        let mut handle = ThreadHandle::spawned(2_000);
        assert_eq!(handle.state, ThreadState::Spawned);
        handle.started();
        assert_eq!(handle.state, ThreadState::Running);
        assert_eq!(handle.report(), None);
        assert!(handle.signal_quit());
        assert_eq!(handle.state, ThreadState::QuitSignaled);
        assert_eq!(handle.poll_join(false, 10), JoinPoll::KeepWaiting);
        assert_eq!(handle.state, ThreadState::JoiningWithTimeout);
        assert_eq!(handle.poll_join(true, 20), JoinPoll::Join);
        assert_eq!(handle.joined(outcome), report);
        assert_eq!(handle.state, ThreadState::Joined { outcome });
        assert_eq!(handle.report(), Some(report));
        assert_eq!(report_join(outcome), report);
    }
}

#[test]
fn signaling_quit_again_changes_nothing() {
    let mut once = ThreadHandle::spawned(100);
    once.started();
    once.signal_quit();
    let mut twice = once;
    assert!(twice.signal_quit());
    assert_eq!(once, twice);
}

#[test]
fn signals_follow_the_polled_command() {
    assert_eq!(render_signal(Ok(Some(RenderThreadCommand::RenderFrame))), LoopSignal::Work);
    assert_eq!(render_signal(Ok(Some(RenderThreadCommand::Quit))), LoopSignal::Quit);
    assert_eq!(render_signal(Ok(None)), LoopSignal::Idle);
    assert_eq!(render_signal(Err(ChannelClosed)), LoopSignal::PeerGone);
    assert_eq!(engine_signal(Ok(Some(EngineCommand::Run))), LoopSignal::Work);
    assert_eq!(engine_signal(Ok(Some(EngineCommand::Quit))), LoopSignal::Quit);
    assert_eq!(engine_signal(Ok(None)), LoopSignal::Idle);
    assert_eq!(engine_signal(Err(ChannelClosed)), LoopSignal::PeerGone);
}

#[test]
fn worker_never_works_after_quit() {
    let mut worker = WorkerLoop::new();
    assert_eq!(worker.on_signal(LoopSignal::Idle), LoopAction::Wait);
    assert_eq!(worker.on_signal(LoopSignal::Work), LoopAction::DoWork);
    assert_eq!(worker.on_signal(LoopSignal::Quit), LoopAction::Teardown);
    for signal in [LoopSignal::Work, LoopSignal::Quit, LoopSignal::Idle, LoopSignal::PeerGone] {
        assert_eq!(worker.on_signal(signal), LoopAction::Finished);
    }
    assert!(worker.stopped);
}

#[test]
fn worker_tears_down_when_the_peer_is_gone() {
    let mut worker = WorkerLoop::new();
    assert_eq!(worker.on_signal(LoopSignal::PeerGone), LoopAction::Teardown);
    assert_eq!(worker.on_signal(LoopSignal::Work), LoopAction::Finished);
}

#[test]
fn worker_tears_down_once_when_its_work_fails() {
    let mut worker = WorkerLoop::new();
    assert_eq!(worker.on_work_failed(), LoopAction::Teardown);
    assert_eq!(worker.on_work_failed(), LoopAction::Finished);
    assert_eq!(worker.on_signal(LoopSignal::Work), LoopAction::Finished);
}

#[test]
fn render_thread_exits_once_however_often_quit_is_published() {
    let mut commands: ValueChannel<Option<RenderThreadCommand>> = ValueChannel::starting_with(None);
    let mut worker = WorkerLoop::new();
    commands.publish(Some(RenderThreadCommand::RenderFrame)).unwrap();
    assert_eq!(worker.on_signal(render_signal(commands.latest())), LoopAction::DoWork);
    for _ in 0..4 {
        commands.publish(Some(RenderThreadCommand::Quit)).unwrap();
    }
    let mut teardowns = 0;
    for _ in 0..10 {
        match worker.on_signal(render_signal(commands.latest())) {
            LoopAction::Teardown => teardowns += 1,
            LoopAction::Finished => {}
            other => panic!("unexpected action {:?}", other),
        }
        commands.publish(Some(RenderThreadCommand::Quit)).unwrap();
    }
    assert_eq!(teardowns, 1);
}
