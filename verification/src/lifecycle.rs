//! The life of a managed thread, seen from both sides: the owner that
//! signals it to quit and waits a bounded time for it, and the thread's
//! own loop that works until it is told to stop.

use vstd::prelude::*;
use crate::channel::ChannelClosed;
use crate::command::{EngineCommand, RenderThreadCommand};

verus! {

/// How a joined thread ended.
#[derive(Clone, Copy, Debug, PartialEq, Eq, Structural)]
pub enum JoinOutcome {
    /// It returned normally.
    Clean,
    /// It returned an error.
    Failed,
    /// It panicked.
    Panicked,
}

/// What the owner writes to its log when the shutdown is over.
#[derive(Clone, Copy, Debug, PartialEq, Eq, Structural)]
pub enum ShutdownReport {
    Clean,
    Error,
    Panic,
    Hang,
}

/// Where a managed thread stands, as its owner knows it.
#[derive(Clone, Copy, Debug, PartialEq, Eq, Structural)]
pub enum ThreadState {
    Spawned,
    Running,
    QuitSignaled,
    JoiningWithTimeout,
    Joined { outcome: JoinOutcome },
    TimedOut,
}

/// What the owner does after looking at the thread once.
#[derive(Clone, Copy, Debug, PartialEq, Eq, Structural)]
pub enum JoinPoll {
    /// Look again after a short sleep.
    KeepWaiting,
    /// The thread has finished: join it, which will not block.
    Join,
    /// The deadline has passed: log the hang and go on without the
    /// thread.
    Abandon,
}

/// The decision of one look at a thread that was told to quit: join it if
/// it has finished, abandon it if more than the timeout has elapsed, else
/// keep waiting.
pub open spec fn spec_join_poll(finished: bool, elapsed_millis: u128, timeout_millis: u64) -> JoinPoll {
    if finished {
        JoinPoll::Join
    } else if elapsed_millis > timeout_millis {
        JoinPoll::Abandon
    } else {
        JoinPoll::KeepWaiting
    }
}

/// The decision of one look at a thread that was told to quit.
pub fn join_poll(finished: bool, elapsed_millis: u128, timeout_millis: u64) -> (decision: JoinPoll)
    ensures
        decision == spec_join_poll(finished, elapsed_millis, timeout_millis),
{
    if finished {
        JoinPoll::Join
    } else if elapsed_millis > timeout_millis as u128 {
        JoinPoll::Abandon
    } else {
        JoinPoll::KeepWaiting
    }
}

/// The owner's hold on a managed thread: its state and the time granted
/// to it at shutdown.
#[derive(Clone, Copy, Debug, PartialEq, Eq, Structural)]
pub struct ThreadHandle {
    pub state: ThreadState,
    pub timeout_millis: u64,
}

impl ThreadHandle {
    /// The handle of a thread just spawned.
    pub fn spawned(timeout_millis: u64) -> (handle: Self)
        ensures
            handle == (ThreadHandle { state: ThreadState::Spawned, timeout_millis }),
    {
        ThreadHandle { state: ThreadState::Spawned, timeout_millis }
    }

    /// The initial run command was published: a spawned thread is
    /// running. Any other state stays.
    pub fn started(&mut self)
        ensures
            final(self).timeout_millis == old(self).timeout_millis,
            final(self).state == if old(self).state is Spawned {
                ThreadState::Running
            } else {
                old(self).state
            },
    {
        if let ThreadState::Spawned = self.state {
            self.state = ThreadState::Running;
        }
    }

    /// The state after the owner decided to shut the thread down.
    pub open spec fn after_quit_signal(self) -> ThreadHandle {
        if self.state is Spawned || self.state is Running {
            ThreadHandle { state: ThreadState::QuitSignaled, ..self }
        } else {
            self
        }
    }

    /// The owner decides to shut the thread down. Returns whether the
    /// quit command is to be published now: it is, unless the shutdown
    /// has already ended.
    pub fn signal_quit(&mut self) -> (publish: bool)
        ensures
            *final(self) == old(self).after_quit_signal(),
            publish == !(old(self).state is Joined || old(self).state is TimedOut),
    {
        match self.state {
            ThreadState::Spawned | ThreadState::Running => {
                self.state = ThreadState::QuitSignaled;
                true
            },
            ThreadState::QuitSignaled | ThreadState::JoiningWithTimeout => true,
            _ => false,
        }
    }

    /// One look at the thread during the bounded wait. The wait goes on
    /// or leads to the join; past the deadline the thread is given up.
    pub fn poll_join(&mut self, finished: bool, elapsed_millis: u128) -> (decision: JoinPoll)
        requires
            old(self).state is QuitSignaled || old(self).state is JoiningWithTimeout,
        ensures
            decision == spec_join_poll(finished, elapsed_millis, old(self).timeout_millis),
            final(self).timeout_millis == old(self).timeout_millis,
            final(self).state == if decision is Abandon {
                ThreadState::TimedOut
            } else {
                ThreadState::JoiningWithTimeout
            },
    {
        let decision = join_poll(finished, elapsed_millis, self.timeout_millis);
        match decision {
            JoinPoll::Abandon => {
                self.state = ThreadState::TimedOut;
            },
            _ => {
                self.state = ThreadState::JoiningWithTimeout;
            },
        }
        decision
    }

    /// The thread was joined with this outcome; the handle is spent.
    pub fn joined(&mut self, outcome: JoinOutcome) -> (report: ShutdownReport)
        requires
            old(self).state is JoiningWithTimeout,
        ensures
            final(self).timeout_millis == old(self).timeout_millis,
            final(self).state == (ThreadState::Joined { outcome }),
            report == spec_report_join(outcome),
    {
        self.state = ThreadState::Joined { outcome };
        report_join(outcome)
    }

    /// What a finished shutdown is logged as; nothing before it has
    /// finished.
    pub fn report(&self) -> (report: Option<ShutdownReport>)
        ensures
            report == match self.state {
                ThreadState::Joined { outcome } => Some(spec_report_join(outcome)),
                ThreadState::TimedOut => Some(ShutdownReport::Hang),
                _ => None,
            },
    {
        match self.state {
            ThreadState::Joined { outcome } => Some(report_join(outcome)),
            ThreadState::TimedOut => Some(ShutdownReport::Hang),
            _ => None,
        }
    }
}

/// What the join of a thread is logged as: a clean return, a returned
/// error, or a panic, each told apart.
pub open spec fn spec_report_join(outcome: JoinOutcome) -> ShutdownReport {
    match outcome {
        JoinOutcome::Clean => ShutdownReport::Clean,
        JoinOutcome::Failed => ShutdownReport::Error,
        JoinOutcome::Panicked => ShutdownReport::Panic,
    }
}

/// What the join of a thread is logged as.
pub fn report_join(outcome: JoinOutcome) -> (report: ShutdownReport)
    ensures
        report == spec_report_join(outcome),
{
    match outcome {
        JoinOutcome::Clean => ShutdownReport::Clean,
        JoinOutcome::Failed => ShutdownReport::Error,
        JoinOutcome::Panicked => ShutdownReport::Panic,
    }
}

/// Signaling quit again changes nothing: the handle after two signals is
/// the handle after one.
pub proof fn lemma_quit_signal_idempotent(handle: ThreadHandle)
    ensures
        handle.after_quit_signal().after_quit_signal() == handle.after_quit_signal(),
{
}

/// The index of the first look that ends the wait for a thread that never
/// finishes, among looks taken at the elapsed times `looks`.
pub open spec fn first_abandon(looks: Seq<u128>, timeout_millis: u64) -> Option<int>
    decreases looks.len(),
{
    if looks.len() == 0 {
        None
    } else if looks[0] > timeout_millis {
        Some(0)
    } else {
        match first_abandon(looks.subrange(1, looks.len() as int), timeout_millis) {
            Some(index) => Some(index + 1),
            None => None,
        }
    }
}

/// Join timeout: the owner of a thread that never finishes looks at it at
/// the elapsed times `looks`, the first at most `interval` after the
/// start and each at most `interval` after the one before. If a look
/// falls past the timeout, the wait ends at the first such look, with
/// the decision to abandon the thread, and no later than the timeout
/// plus the interval; at every look before it the owner keeps waiting.
pub proof fn lemma_join_wait_is_bounded(looks: Seq<u128>, timeout_millis: u64, interval: u128)
    requires
        looks.len() > 0,
        looks[0] <= interval,
        forall|i: int| 0 <= i < looks.len() - 1 ==> #[trigger] looks[i + 1] <= looks[i] + interval,
        exists|i: int| 0 <= i < looks.len() && looks[i] > timeout_millis,
    ensures
        first_abandon(looks, timeout_millis) is Some,
        ({
            let last = first_abandon(looks, timeout_millis)->Some_0;
            &&& 0 <= last < looks.len()
            &&& spec_join_poll(false, looks[last], timeout_millis) == JoinPoll::Abandon
            &&& looks[last] <= timeout_millis + interval
            &&& forall|earlier: int|
                0 <= earlier < last ==> spec_join_poll(false, #[trigger] looks[earlier], timeout_millis)
                    == JoinPoll::KeepWaiting
        }),
    decreases looks.len(),
{
    if looks[0] > timeout_millis {
    } else {
        let rest = looks.subrange(1, looks.len() as int);
        let witness = choose|i: int| 0 <= i < looks.len() && looks[i] > timeout_millis;
        assert(witness >= 1);
        assert(rest[witness - 1] == looks[witness]);
        assert(rest[0] == looks[0int + 1]);
        // The wait on the rest starts from the first look, which is within
        // the timeout, so the shifted times obey the same spacing.
        lemma_first_abandon_after(rest, timeout_millis, interval, looks[0]);
        let last = first_abandon(rest, timeout_millis)->Some_0;
        assert(looks[last + 1] == rest[last]);
        assert forall|earlier: int| 0 <= earlier < last + 1 implies spec_join_poll(
            false,
            #[trigger] looks[earlier],
            timeout_millis,
        ) == JoinPoll::KeepWaiting by {
            if earlier > 0 {
                assert(looks[earlier] == rest[earlier - 1]);
            }
        }
    }
}

/// The same bound for looks that follow a look at `before`, itself within
/// the timeout.
proof fn lemma_first_abandon_after(
    looks: Seq<u128>,
    timeout_millis: u64,
    interval: u128,
    before: u128,
)
    requires
        looks.len() > 0,
        before <= timeout_millis,
        looks[0] <= before + interval,
        forall|i: int| 0 <= i < looks.len() - 1 ==> #[trigger] looks[i + 1] <= looks[i] + interval,
        exists|i: int| 0 <= i < looks.len() && looks[i] > timeout_millis,
    ensures
        first_abandon(looks, timeout_millis) is Some,
        ({
            let last = first_abandon(looks, timeout_millis)->Some_0;
            &&& 0 <= last < looks.len()
            &&& looks[last] > timeout_millis
            &&& looks[last] <= timeout_millis + interval
            &&& forall|earlier: int| 0 <= earlier < last ==> #[trigger] looks[earlier] <= timeout_millis
        }),
    decreases looks.len(),
{
    if looks[0] > timeout_millis {
    } else {
        let rest = looks.subrange(1, looks.len() as int);
        let witness = choose|i: int| 0 <= i < looks.len() && looks[i] > timeout_millis;
        assert(witness >= 1);
        assert(rest[witness - 1] == looks[witness]);
        assert(rest[0] == looks[0int + 1]);
        assert forall|i: int| 0 <= i < rest.len() - 1 implies #[trigger] rest[i + 1] <= rest[i]
            + interval by {
            assert(rest[i + 1] == looks[(i + 1) + 1]);
            assert(rest[i] == looks[i + 1]);
        }
        lemma_first_abandon_after(rest, timeout_millis, interval, looks[0]);
        let last = first_abandon(rest, timeout_millis)->Some_0;
        assert(looks[last + 1] == rest[last]);
        assert forall|earlier: int| 0 <= earlier < last + 1 implies #[trigger] looks[earlier]
            <= timeout_millis by {
            if earlier > 0 {
                assert(looks[earlier] == rest[earlier - 1]);
            }
        }
    }
}

/// What a managed thread learns when it polls its command channel.
#[derive(Clone, Copy, Debug, PartialEq, Eq, Structural)]
pub enum LoopSignal {
    /// Do one unit of work.
    Work,
    /// Nothing was ever published.
    Idle,
    /// Stop.
    Quit,
    /// The channel is closed: the peer thread is gone.
    PeerGone,
}

/// What a managed thread does in one iteration of its loop.
#[derive(Clone, Copy, Debug, PartialEq, Eq, Structural)]
pub enum LoopAction {
    DoWork,
    Wait,
    /// Leave the loop and release what the thread owns, in the reverse
    /// order of acquisition.
    Teardown,
    /// The loop has been left before; nothing is done.
    Finished,
}

/// The signal in a poll of the render thread's command channel.
pub fn render_signal(polled: Result<Option<RenderThreadCommand>, ChannelClosed>) -> (signal:
    LoopSignal)
    ensures
        signal == match polled {
            Ok(Some(RenderThreadCommand::RenderFrame)) => LoopSignal::Work,
            Ok(Some(RenderThreadCommand::Quit)) => LoopSignal::Quit,
            Ok(None) => LoopSignal::Idle,
            Err(_) => LoopSignal::PeerGone,
        },
{
    match polled {
        Ok(Some(RenderThreadCommand::RenderFrame)) => LoopSignal::Work,
        Ok(Some(RenderThreadCommand::Quit)) => LoopSignal::Quit,
        Ok(None) => LoopSignal::Idle,
        Err(_) => LoopSignal::PeerGone,
    }
}

/// The signal in a poll of the engine thread's command channel.
pub fn engine_signal(polled: Result<Option<EngineCommand>, ChannelClosed>) -> (signal: LoopSignal)
    ensures
        signal == match polled {
            Ok(Some(EngineCommand::Run)) => LoopSignal::Work,
            Ok(Some(EngineCommand::Quit)) => LoopSignal::Quit,
            Ok(None) => LoopSignal::Idle,
            Err(_) => LoopSignal::PeerGone,
        },
{
    match polled {
        Ok(Some(EngineCommand::Run)) => LoopSignal::Work,
        Ok(Some(EngineCommand::Quit)) => LoopSignal::Quit,
        Ok(None) => LoopSignal::Idle,
        Err(_) => LoopSignal::PeerGone,
    }
}

/// The main loop of a managed thread.
#[derive(Clone, Copy, Debug, PartialEq, Eq, Structural)]
pub struct WorkerLoop {
    /// The loop was told to stop, or its work failed.
    pub stopped: bool,
}

impl WorkerLoop {
    /// The loop after one signal, with what it does about it. A stopped
    /// loop stays stopped and does nothing; quit and a closed channel
    /// stop it and make it tear down.
    pub open spec fn step(self, signal: LoopSignal) -> (WorkerLoop, LoopAction) {
        if self.stopped {
            (self, LoopAction::Finished)
        } else {
            match signal {
                LoopSignal::Work => (self, LoopAction::DoWork),
                LoopSignal::Idle => (self, LoopAction::Wait),
                _ => (WorkerLoop { stopped: true }, LoopAction::Teardown),
            }
        }
    }

    /// The loop after `signals`, one per iteration.
    pub open spec fn after(self, signals: Seq<LoopSignal>) -> WorkerLoop
        decreases signals.len(),
    {
        if signals.len() == 0 {
            self
        } else {
            self.after(signals.drop_last()).step(signals.last()).0
        }
    }

    /// What the loop does at iteration `index` of `signals`.
    pub open spec fn action_at(self, signals: Seq<LoopSignal>, index: int) -> LoopAction
        recommends
            0 <= index < signals.len(),
    {
        self.after(signals.subrange(0, index)).step(signals[index]).1
    }

    /// A loop that has not been told to stop.
    pub fn new() -> (worker: Self)
        ensures
            !worker.stopped,
    {
        WorkerLoop { stopped: false }
    }

    /// Takes the signal of one poll and says what the iteration does.
    pub fn on_signal(&mut self, signal: LoopSignal) -> (action: LoopAction)
        ensures
            (*final(self), action) == old(self).step(signal),
    {
        if self.stopped {
            LoopAction::Finished
        } else {
            match signal {
                LoopSignal::Work => LoopAction::DoWork,
                LoopSignal::Idle => LoopAction::Wait,
                _ => {
                    self.stopped = true;
                    LoopAction::Teardown
                },
            }
        }
    }

    /// The unit of work failed beyond repair: the loop stops and tears
    /// down, unless it had stopped before.
    pub fn on_work_failed(&mut self) -> (action: LoopAction)
        ensures
            final(self).stopped,
            action == if old(self).stopped {
                LoopAction::Finished
            } else {
                LoopAction::Teardown
            },
    {
        if self.stopped {
            LoopAction::Finished
        } else {
            self.stopped = true;
            LoopAction::Teardown
        }
    }
}

/// A stopped loop stays stopped whatever it is signaled.
pub proof fn lemma_stopped_stays(worker: WorkerLoop, signals: Seq<LoopSignal>)
    requires
        worker.stopped,
    ensures
        worker.after(signals).stopped,
    decreases signals.len(),
{
    if signals.len() > 0 {
        lemma_stopped_stays(worker, signals.drop_last());
    }
}

/// Once a loop has been signaled to quit, or found its channel closed, it
/// is stopped after every longer run of signals.
pub proof fn lemma_stop_is_kept(worker: WorkerLoop, signals: Seq<LoopSignal>, at: int, until: int)
    requires
        0 <= at < until <= signals.len(),
        signals[at] is Quit || signals[at] is PeerGone,
    ensures
        worker.after(signals.subrange(0, until)).stopped,
    decreases until - at,
{
    let upto = signals.subrange(0, until);
    assert(upto.drop_last() =~= signals.subrange(0, until - 1));
    assert(upto.last() == signals[until - 1]);
    if until - 1 > at {
        lemma_stop_is_kept(worker, signals, at, until - 1);
    }
}

/// Quit is final: in a run of signals, after one that says quit, or that
/// the peer is gone, the loop never works again and never tears down a
/// second time: every later iteration finds it finished.
pub proof fn lemma_quit_is_final(worker: WorkerLoop, signals: Seq<LoopSignal>, at: int, later: int)
    requires
        0 <= at < later < signals.len(),
        signals[at] is Quit || signals[at] is PeerGone,
    ensures
        worker.action_at(signals, later) == LoopAction::Finished,
{
    lemma_stop_is_kept(worker, signals, at, later);
}

/// A running loop tears down exactly at the first signal that says quit
/// or that the peer is gone, and works or waits at every signal before.
pub proof fn lemma_teardown_at_first_quit(signals: Seq<LoopSignal>, at: int)
    requires
        0 <= at < signals.len(),
        signals[at] is Quit || signals[at] is PeerGone,
        forall|i: int| 0 <= i < at ==> (#[trigger] signals[i]) is Work || signals[i] is Idle,
    ensures
        (WorkerLoop { stopped: false }).action_at(signals, at) == LoopAction::Teardown,
        forall|i: int|
            0 <= i < at ==> #[trigger] (WorkerLoop { stopped: false }).action_at(signals, i) == (
            if signals[i] is Work {
                LoopAction::DoWork
            } else {
                LoopAction::Wait
            }),
{
    let worker = WorkerLoop { stopped: false };
    assert forall|i: int| 0 <= i <= at implies !(#[trigger] worker.after(
        signals.subrange(0, i),
    )).stopped by {
        lemma_running_while_no_quit(worker, signals, i);
    }
}

/// A running loop is still running after signals that only say work or
/// idle.
proof fn lemma_running_while_no_quit(worker: WorkerLoop, signals: Seq<LoopSignal>, until: int)
    requires
        !worker.stopped,
        0 <= until <= signals.len(),
        forall|i: int| 0 <= i < until ==> (#[trigger] signals[i]) is Work || signals[i] is Idle,
    ensures
        !worker.after(signals.subrange(0, until)).stopped,
    decreases until,
{
    if until > 0 {
        let upto = signals.subrange(0, until);
        assert(upto.drop_last() =~= signals.subrange(0, until - 1));
        assert(upto.last() == signals[until - 1]);
        lemma_running_while_no_quit(worker, signals, until - 1);
    }
}

} // verus!
