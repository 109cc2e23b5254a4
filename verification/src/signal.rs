//! The bounded channel on which the element announces peer changes and
//! unlock requests to a render that waits.
use tokio::sync::mpsc::error::TrySendError;
use tokio::sync::mpsc::{Receiver, Sender};
use vstd::prelude::*;

verus! {

/// The sending half of a tokio channel.
#[verifier::external_type_specification]
#[verifier::external_body]
#[verifier::reject_recursive_types(T)]
pub struct ExSender<T>(tokio::sync::mpsc::Sender<T>);

/// The receiving half of a tokio channel.
#[verifier::external_type_specification]
#[verifier::external_body]
#[verifier::reject_recursive_types(T)]
pub struct ExReceiver<T>(tokio::sync::mpsc::Receiver<T>);

/// The messages that were sent on a channel and not yet received, oldest
/// first. The channel is its two halves together.
pub uninterp spec fn queued(channel: (Sender<i32>, Receiver<i32>)) -> Seq<i32>;

/// The number of messages a channel was made to hold.
pub uninterp spec fn capacity(channel: (Sender<i32>, Receiver<i32>)) -> nat;

/// What became of a message handed to the channel.
#[derive(Debug, Clone, Copy, PartialEq, Eq, Structural)]
pub enum Sent {
    /// The message is in the channel.
    Delivered,
    /// The channel already held as many messages as it can.
    Full,
    /// The receiving half is gone.
    Closed,
}

/// `tokio::sync::mpsc::channel`: a new channel is empty and holds up to
/// `buffer` messages. It panics on a buffer of zero or beyond the largest
/// semaphore, which is an eighth of the `usize` range.
#[verifier::external_body]
fn new_channel(buffer: usize) -> (channel: (Sender<i32>, Receiver<i32>))
    requires
        0 < buffer <= usize::MAX / 8,
    ensures
        queued(channel) == Seq::<i32>::empty(),
        capacity(channel) == buffer as nat,
{
    tokio::sync::mpsc::channel(buffer)
}

/// `Sender::try_send`, on a channel whose receiving half is held beside the
/// sender and is therefore open: the message joins the queue if there is room
/// for it, and the queue is left as it was if there is none.
#[verifier::external_body]
fn try_send(channel: &mut (Sender<i32>, Receiver<i32>), message: i32) -> (sent: Sent)
    requires
        capacity(*old(channel)) > 0,
    ensures
        capacity(*final(channel)) == capacity(*old(channel)),
        queued(*old(channel)).len() < capacity(*old(channel)) ==> sent is Delivered && queued(
            *final(channel),
        ) == queued(*old(channel)).push(message),
        queued(*old(channel)).len() >= capacity(*old(channel)) ==> sent is Full && queued(
            *final(channel),
        ) == queued(*old(channel)),
{
    match channel.0.try_send(message) {
        Ok(()) => Sent::Delivered,
        Err(TrySendError::Full(_)) => Sent::Full,
        Err(TrySendError::Closed(_)) => Sent::Closed,
    }
}

/// `Receiver::try_recv`, on a channel whose sending half is held beside the
/// receiver, so that no message is on its way: the oldest message leaves the
/// queue, and an empty queue is left as it was.
#[verifier::external_body]
fn try_receive(channel: &mut (Sender<i32>, Receiver<i32>)) -> (message: Option<i32>)
    ensures
        capacity(*final(channel)) == capacity(*old(channel)),
        queued(*old(channel)).len() > 0 ==> message == Some(queued(*old(channel))[0]) && queued(
            *final(channel),
        ) == queued(*old(channel)).skip(1),
        queued(*old(channel)).len() == 0 ==> message is None && queued(*final(channel)) == queued(
            *old(channel),
        ),
{
    channel.1.try_recv().ok()
}

/// How many messages the element's channel holds.
pub const SIGNAL_CAPACITY: usize = 1;

/// The element's own channel: both halves, so that it stays open for as long
/// as it exists.
pub struct Signal {
    halves: (Sender<i32>, Receiver<i32>),
}

impl View for Signal {
    type V = Seq<i32>;

    /// The messages waiting in the channel.
    closed spec fn view(&self) -> Seq<i32> {
        queued(self.halves)
    }
}

/// The queue of a channel with room for [`SIGNAL_CAPACITY`] messages after
/// `message` was handed to it.
pub open spec fn queue_after(queue: Seq<i32>, message: i32) -> Seq<i32> {
    if queue.len() < SIGNAL_CAPACITY {
        queue.push(message)
    } else {
        queue
    }
}

/// The queue after its oldest message, if it has one, was received.
pub open spec fn queue_left(queue: Seq<i32>) -> Seq<i32> {
    if queue.len() > 0 {
        queue.skip(1)
    } else {
        queue
    }
}

/// The oldest message of a queue.
pub open spec fn oldest(queue: Seq<i32>) -> Option<i32> {
    if queue.len() > 0 {
        Some(queue[0])
    } else {
        None
    }
}

/// Whether a message handed to such a channel is accepted.
pub open spec fn accepted(queue: Seq<i32>) -> Sent {
    if queue.len() < SIGNAL_CAPACITY {
        Sent::Delivered
    } else {
        Sent::Full
    }
}

impl Signal {
    /// The channel was made with the element's capacity and never holds more.
    pub closed spec fn wf(&self) -> bool {
        capacity(self.halves) == SIGNAL_CAPACITY as nat && queued(self.halves).len()
            <= SIGNAL_CAPACITY
    }

    /// Opens an empty channel.
    pub fn new() -> (signal: Self)
        ensures
            signal.wf(),
            signal@ == Seq::<i32>::empty(),
    {
        Signal { halves: new_channel(SIGNAL_CAPACITY) }
    }

    /// Hands a message to the channel without waiting.
    pub fn try_send(&mut self, message: i32) -> (sent: Sent)
        requires
            old(self).wf(),
        ensures
            final(self).wf(),
            final(self)@ == queue_after(old(self)@, message),
            sent == accepted(old(self)@),
    {
        try_send(&mut self.halves, message)
    }

    /// Receives the oldest message without waiting for one.
    pub fn try_receive(&mut self) -> (message: Option<i32>)
        requires
            old(self).wf(),
        ensures
            final(self).wf(),
            message == oldest(old(self)@),
            final(self)@ == queue_left(old(self)@),
    {
        try_receive(&mut self.halves)
    }
}

/// A message that an empty channel accepted is the next one received, and
/// leaves the channel empty again.
pub proof fn law_an_accepted_message_arrives(queue: Seq<i32>, message: i32)
    requires
        queue.len() == 0,
    ensures
        accepted(queue) is Delivered,
        oldest(queue_after(queue, message)) == Some(message),
        queue_left(queue_after(queue, message)) == queue,
{
    assert(queue.push(message).skip(1) =~= queue);
}

/// A message joins the end of the queue while the queue is empty, and is
/// refused, leaving the queue alone, while one message waits.
pub proof fn law_one_message_waits(message: i32, sent: Sent)
    ensures
        forall|signal: &mut Signal| #[trigger]
            call_ensures(Signal::try_send, (signal, message), sent) ==> if (*signal)@.len() == 0 {
                sent is Delivered && (*final(signal))@ == seq![message]
            } else {
                sent is Full && (*final(signal))@ == (*signal)@
            },
{
    assert(forall|queue: Seq<i32>|
        queue.len() == 0 ==> (#[trigger] queue.push(message)) =~= seq![message]);
}

/// What is received is the head of the queue, and what is left is its tail:
/// put together they are the queue as it was.
pub proof fn law_messages_are_received_in_order(message: Option<i32>)
    ensures
        forall|signal: &mut Signal| #[trigger]
            call_ensures(Signal::try_receive, (signal,), message) ==> match message {
                Some(m) => (*signal)@ == seq![m] + (*final(signal))@,
                None => (*signal)@.len() == 0 && (*final(signal))@ == (*signal)@,
            },
{
    assert(forall|queue: Seq<i32>|
        queue.len() > 0 ==> seq![queue[0]] + (#[trigger] queue.skip(1)) =~= queue);
}

} // verus!
