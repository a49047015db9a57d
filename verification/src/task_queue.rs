//! The queue of messages for the compilation worker, and what is taken on trust of the channel
//! behind it.
//!
//! A channel changes through shared references to its ends. Here both ends stay together, and
//! every call that changes the channel takes them by exclusive reference, so that what the
//! channel holds is a value that its owner can speak of.
use crate::compilation::TaskMessage;
use crossbeam_channel::{bounded, Receiver, Sender};
use vstd::prelude::*;

verus! {

#[verifier::external_type_specification]
#[verifier::external_body]
#[verifier::reject_recursive_types(T)]
pub struct ExSender<T>(Sender<T>);

#[verifier::external_type_specification]
#[verifier::external_body]
#[verifier::reject_recursive_types(T)]
pub struct ExReceiver<T>(Receiver<T>);

/// The messages that a channel holds, in the order in which they were sent.
pub uninterp spec fn held_messages(
    channel: (Sender<TaskMessage>, Receiver<TaskMessage>),
) -> Seq<TaskMessage>;

/// How many messages a channel can hold.
pub uninterp spec fn message_limit(channel: (Sender<TaskMessage>, Receiver<TaskMessage>)) -> nat;

/// The two are the ends of one channel that has no other ends.
pub uninterp spec fn only_ends(channel: (Sender<TaskMessage>, Receiver<TaskMessage>)) -> bool;

/// `crossbeam_channel::bounded`: an empty channel that can hold `limit` messages. Larger limits
/// than these can be too large to make a channel.
#[verifier::external_body]
fn channel_bounded(limit: u16) -> (channel: (Sender<TaskMessage>, Receiver<TaskMessage>))
    requires
        limit > 0,
    ensures
        held_messages(channel) == Seq::<TaskMessage>::empty(),
        message_limit(channel) == limit as nat,
        only_ends(channel),
{
    bounded(usize::from(limit))
}

/// `Sender::send`: the message comes behind those that the channel holds. On a full channel the
/// call would wait for a receiver; without a receiver it would fail.
#[verifier::external_body]
fn channel_send(
    channel: &mut (Sender<TaskMessage>, Receiver<TaskMessage>),
    message: TaskMessage,
) -> (sent: bool)
    requires
        only_ends(*old(channel)),
        held_messages(*old(channel)).len() < message_limit(*old(channel)),
    ensures
        sent,
        held_messages(*final(channel)) == held_messages(*old(channel)).push(message),
        message_limit(*final(channel)) == message_limit(*old(channel)),
        only_ends(*final(channel)),
{
    channel.0.send(message).is_ok()
}

/// `Receiver::try_recv`: takes the message that was sent first out of the channel, or gives none
/// where the channel holds none.
#[verifier::external_body]
fn channel_try_recv(channel: &mut (Sender<TaskMessage>, Receiver<TaskMessage>)) -> (received:
    Option<TaskMessage>)
    requires
        only_ends(*old(channel)),
    ensures
        received is Some <==> held_messages(*old(channel)).len() > 0,
        received matches Some(message) ==> message == held_messages(*old(channel))[0]
            && held_messages(*final(channel)) == held_messages(*old(channel)).skip(1),
        received is None ==> held_messages(*final(channel)) == held_messages(*old(channel)),
        message_limit(*final(channel)) == message_limit(*old(channel)),
        only_ends(*final(channel)),
{
    channel.1.try_recv().ok()
}

/// `Receiver::is_empty`: the channel holds no message.
#[verifier::external_body]
fn channel_is_empty(channel: &(Sender<TaskMessage>, Receiver<TaskMessage>)) -> (empty: bool)
    requires
        only_ends(*channel),
    ensures
        empty == (held_messages(*channel).len() == 0),
{
    channel.1.is_empty()
}

/// How many messages can wait for the compilation worker.
pub const TASK_QUEUE_CAPACITY: u16 = 1;

/// The messages that wait for the compilation worker.
pub struct TaskQueue {
    channel: (Sender<TaskMessage>, Receiver<TaskMessage>),
}

impl View for TaskQueue {
    type V = Seq<TaskMessage>;

    closed spec fn view(&self) -> Seq<TaskMessage> {
        held_messages(self.channel)
    }
}

impl TaskQueue {
    /// The queue holds no more messages than it can.
    pub closed spec fn wf(&self) -> bool {
        &&& only_ends(self.channel)
        &&& message_limit(self.channel) == TASK_QUEUE_CAPACITY
        &&& held_messages(self.channel).len() <= TASK_QUEUE_CAPACITY
    }

    /// No more than one message waits.
    pub proof fn law_one_message_waits(&self)
        requires
            self.wf(),
        ensures
            self@.len() <= 1,
    {
    }

    /// An empty queue.
    pub fn new() -> (queue: TaskQueue)
        ensures
            queue.wf(),
            queue@ == Seq::<TaskMessage>::empty(),
    {
        TaskQueue { channel: channel_bounded(TASK_QUEUE_CAPACITY) }
    }

    /// Tells whether no message waits.
    pub fn is_empty(&self) -> (empty: bool)
        requires
            self.wf(),
        ensures
            empty == (self@.len() == 0),
    {
        channel_is_empty(&self.channel)
    }

    /// Takes the message that has waited longest.
    pub fn try_recv(&mut self) -> (received: Option<TaskMessage>)
        requires
            old(self).wf(),
        ensures
            final(self).wf(),
            match received {
                Some(message) => {
                    &&& old(self)@.len() > 0
                    &&& message == old(self)@[0]
                    &&& final(self)@ == old(self)@.skip(1)
                },
                None => {
                    &&& old(self)@.len() == 0
                    &&& final(self)@ == old(self)@
                },
            },
    {
        channel_try_recv(&mut self.channel)
    }

    /// Lets `message` wait. A message that finds the queue full is given back.
    pub fn send(&mut self, message: TaskMessage) -> (refused: Option<TaskMessage>)
        requires
            old(self).wf(),
        ensures
            final(self).wf(),
            if old(self)@.len() < TASK_QUEUE_CAPACITY {
                &&& refused is None
                &&& final(self)@ == old(self)@.push(message)
            } else {
                &&& refused == Some(message)
                &&& final(self)@ == old(self)@
            },
            refused is None <==> old(self)@.len() == 0,
    {
        // With room for one message, only an empty queue has room.
        if channel_is_empty(&self.channel) {
            channel_send(&mut self.channel, message);
            None
        } else {
            Some(message)
        }
    }
}

} // verus!
