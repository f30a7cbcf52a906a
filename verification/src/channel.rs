//! The two communication primitives between threads, as values: a value
//! channel that keeps only the freshest publication, and a queue channel
//! that keeps every event in arrival order.

use vstd::prelude::*;

verus! {

/// Why a channel operation failed: the counterpart endpoint is gone.
#[derive(Clone, Copy, Debug, PartialEq, Eq, Structural)]
pub struct ChannelClosed;

/// A single slot that a writer overwrites and a reader polls. The reader
/// sees the freshest publication; what was published and never read is
/// discarded.
pub struct ValueChannel<T> {
    cached: T,
    pending: Option<T>,
    updater_alive: bool,
    receiver_alive: bool,
}

impl<T> ValueChannel<T> {
    /// The value the reader took at its last poll, or the initial one.
    pub closed spec fn cached(&self) -> T {
        self.cached
    }

    /// The publication that no poll has taken yet.
    pub closed spec fn pending(&self) -> Option<T> {
        self.pending
    }

    /// Whether the writing endpoint still exists.
    pub closed spec fn updater_alive(&self) -> bool {
        self.updater_alive
    }

    /// Whether the reading endpoint still exists.
    pub closed spec fn receiver_alive(&self) -> bool {
        self.receiver_alive
    }

    /// What the next poll returns: the pending publication if there is one,
    /// else the value of the poll before.
    pub open spec fn observable(&self) -> T {
        match self.pending() {
            Some(value) => value,
            None => self.cached(),
        }
    }

    /// The channel after one publication, as a value.
    pub closed spec fn after_publish(self, value: T) -> Self {
        if self.receiver_alive {
            ValueChannel { pending: Some(value), ..self }
        } else {
            self
        }
    }

    /// The channel after publishing `values` in order, with no poll between.
    pub open spec fn after_publish_all(self, values: Seq<T>) -> Self
        decreases values.len(),
    {
        if values.len() == 0 {
            self
        } else {
            self.after_publish_all(values.drop_last()).after_publish(values.last())
        }
    }

    /// A channel whose reader sees `initial` until something is published.
    pub fn starting_with(initial: T) -> (channel: Self)
        ensures
            channel.cached() == initial,
            channel.pending() is None,
            channel.updater_alive(),
            channel.receiver_alive(),
    {
        ValueChannel { cached: initial, pending: None, updater_alive: true, receiver_alive: true }
    }

    /// Stores `value`, replacing whatever was published and not yet read.
    /// Fails, and changes nothing, exactly when the reader is gone.
    pub fn publish(&mut self, value: T) -> (sent: Result<(), ChannelClosed>)
        ensures
            *final(self) == old(self).after_publish(value),
            old(self).receiver_alive() ==> sent is Ok && final(self).pending() == Some(value)
                && final(self).cached() == old(self).cached(),
            !old(self).receiver_alive() ==> sent is Err && *final(self) == *old(self),
            final(self).updater_alive() == old(self).updater_alive(),
            final(self).receiver_alive() == old(self).receiver_alive(),
    {
        if self.receiver_alive {
            self.pending = Some(value);
            Ok(())
        } else {
            Err(ChannelClosed)
        }
    }

    /// The writing endpoint is dropped: polls fail from now on.
    pub fn drop_updater(&mut self)
        ensures
            !final(self).updater_alive(),
            final(self).receiver_alive() == old(self).receiver_alive(),
            final(self).pending() == old(self).pending(),
            final(self).cached() == old(self).cached(),
    {
        self.updater_alive = false;
    }

    /// The reading endpoint is dropped: publications fail from now on.
    pub fn drop_receiver(&mut self)
        ensures
            !final(self).receiver_alive(),
            final(self).updater_alive() == old(self).updater_alive(),
            final(self).pending() == old(self).pending(),
            final(self).cached() == old(self).cached(),
    {
        self.receiver_alive = false;
    }
}

impl<T: Copy> ValueChannel<T> {
    /// Polls the channel: the freshest publication, which then stays the
    /// answer until the next one arrives. Fails, and changes nothing,
    /// exactly when the writer is gone.
    pub fn latest(&mut self) -> (polled: Result<T, ChannelClosed>)
        ensures
            old(self).updater_alive() ==> polled == Ok::<T, ChannelClosed>(old(self).observable())
                && final(self).cached() == old(self).observable()
                && final(self).pending() is None,
            !old(self).updater_alive() ==> polled is Err && *final(self) == *old(self),
            final(self).updater_alive() == old(self).updater_alive(),
            final(self).receiver_alive() == old(self).receiver_alive(),
    {
        if !self.updater_alive {
            return Err(ChannelClosed);
        }
        match self.pending {
            Some(value) => {
                self.cached = value;
                self.pending = None;
            },
            None => {},
        }
        Ok(self.cached)
    }
}

/// Freshness: after one or more publications with no poll between them, on
/// a channel whose reader exists, the next poll returns the last one, and
/// nothing earlier is left in the channel.
pub proof fn lemma_value_channel_freshness<T>(channel: ValueChannel<T>, values: Seq<T>)
    requires
        channel.receiver_alive(),
        values.len() >= 1,
    ensures
        channel.after_publish_all(values).observable() == values.last(),
        channel.after_publish_all(values).pending() == Some(values.last()),
        channel.after_publish_all(values).cached() == channel.cached(),
        channel.after_publish_all(values) == channel.after_publish(values.last()),
    decreases values.len(),
{
    lemma_publish_all_keeps_endpoints(channel, values.drop_last());
    let before = channel.after_publish_all(values.drop_last());
    if values.len() > 1 {
        lemma_value_channel_freshness(channel, values.drop_last());
    } else {
        assert(before == channel);
    }
}

/// Publishing changes neither endpoint and never the value already polled.
pub proof fn lemma_publish_all_keeps_endpoints<T>(channel: ValueChannel<T>, values: Seq<T>)
    ensures
        channel.after_publish_all(values).receiver_alive() == channel.receiver_alive(),
        channel.after_publish_all(values).updater_alive() == channel.updater_alive(),
        channel.after_publish_all(values).cached() == channel.cached(),
    decreases values.len(),
{
    if values.len() > 0 {
        lemma_publish_all_keeps_endpoints(channel, values.drop_last());
    }
}

/// Idempotence: publishing one value several times before it is polled
/// leaves the channel exactly as publishing it once does.
pub proof fn lemma_repeated_publish_is_one_publish<T>(channel: ValueChannel<T>, value: T, times: nat)
    requires
        times >= 1,
    ensures
        channel.after_publish_all(Seq::new(times, |i: int| value)) == channel.after_publish(value),
    decreases times,
{
    let all = Seq::new(times, |i: int| value);
    let fewer = Seq::new((times - 1) as nat, |i: int| value);
    assert(all.drop_last() =~= fewer);
    assert(all.last() == value);
    if times > 1 {
        lemma_repeated_publish_is_one_publish(channel, value, (times - 1) as nat);
    } else {
        assert(channel.after_publish_all(fewer) == channel);
    }
}

/// What a queue channel holds, as a value.
pub struct QueueState<T> {
    /// The events sent and not yet drained, oldest first.
    pub pending: Seq<T>,
    /// Whether the sending endpoint still exists.
    pub sender_alive: bool,
    /// Whether the receiving endpoint still exists.
    pub receiver_alive: bool,
}

impl<T> QueueState<T> {
    /// The queue after one send: the event joins the tail, unless the
    /// receiver is gone.
    pub open spec fn after_send(self, event: T) -> Self {
        if self.receiver_alive {
            QueueState { pending: self.pending.push(event), ..self }
        } else {
            self
        }
    }

    /// The queue after sending `events` in order, with no drain between.
    pub open spec fn after_send_all(self, events: Seq<T>) -> Self
        decreases events.len(),
    {
        if events.len() == 0 {
            self
        } else {
            self.after_send_all(events.drop_last()).after_send(events.last())
        }
    }
}

/// An unbounded first-in first-out queue between a sender and a receiver.
/// Every event sent is handed out once, in the order of arrival.
pub struct QueueChannel<T> {
    queue: Vec<T>,
    sender_alive: bool,
    receiver_alive: bool,
}

impl<T> View for QueueChannel<T> {
    type V = QueueState<T>;

    closed spec fn view(&self) -> QueueState<T> {
        QueueState {
            pending: self.queue@,
            sender_alive: self.sender_alive,
            receiver_alive: self.receiver_alive,
        }
    }
}

impl<T> QueueChannel<T> {
    /// A queue with both endpoints and nothing pending.
    pub fn new() -> (channel: Self)
        ensures
            channel@.pending == Seq::<T>::empty(),
            channel@.sender_alive,
            channel@.receiver_alive,
    {
        QueueChannel { queue: Vec::new(), sender_alive: true, receiver_alive: true }
    }

    /// Appends `event` behind everything pending. Fails, and changes
    /// nothing, exactly when the receiver is gone.
    pub fn send(&mut self, event: T) -> (sent: Result<(), ChannelClosed>)
        ensures
            final(self)@ == old(self)@.after_send(event),
            sent is Ok <==> old(self)@.receiver_alive,
    {
        if self.receiver_alive {
            self.queue.push(event);
            Ok(())
        } else {
            Err(ChannelClosed)
        }
    }

    /// Hands out everything pending, oldest first, and leaves the queue
    /// empty; never waits. Once the sender is gone the drain reports the
    /// closed channel instead, and what was pending is discarded with it.
    pub fn drain(&mut self) -> (drained: Result<Vec<T>, ChannelClosed>)
        ensures
            old(self)@.sender_alive ==> drained is Ok && drained->Ok_0@ == old(self)@.pending,
            !old(self)@.sender_alive ==> drained is Err,
            final(self)@ == (QueueState { pending: Seq::<T>::empty(), ..old(self)@ }),
    {
        let mut events: Vec<T> = Vec::new();
        std::mem::swap(&mut events, &mut self.queue);
        if self.sender_alive {
            Ok(events)
        } else {
            Err(ChannelClosed)
        }
    }

    /// The sending endpoint is dropped: drains fail from now on.
    pub fn drop_sender(&mut self)
        ensures
            final(self)@ == (QueueState { sender_alive: false, ..old(self)@ }),
    {
        self.sender_alive = false;
    }

    /// The receiving endpoint is dropped: sends fail from now on.
    pub fn drop_receiver(&mut self)
        ensures
            final(self)@ == (QueueState { receiver_alive: false, ..old(self)@ }),
    {
        self.receiver_alive = false;
    }
}

/// Ordering: the events sent before a drain, on a queue whose receiver
/// exists, stand behind what was pending in the order sent, none lost and
/// none twice. On an empty queue the next drain hands out exactly them.
pub proof fn lemma_queue_preserves_order<T>(queue: QueueState<T>, events: Seq<T>)
    requires
        queue.receiver_alive,
    ensures
        queue.after_send_all(events).pending == queue.pending + events,
        queue.after_send_all(events).pending.len() == queue.pending.len() + events.len(),
        queue.after_send_all(events).sender_alive == queue.sender_alive,
        queue.after_send_all(events).receiver_alive,
        queue.pending.len() == 0 ==> queue.after_send_all(events).pending == events,
    decreases events.len(),
{
    if events.len() == 0 {
        assert(queue.pending + events =~= queue.pending);
    } else {
        lemma_queue_preserves_order(queue, events.drop_last());
        assert(queue.pending + events =~= (queue.pending + events.drop_last()).push(events.last()));
    }
    if queue.pending.len() == 0 {
        assert(queue.pending + events =~= events);
    }
}

} // verus!
