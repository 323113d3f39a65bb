//! The unbounded first-in, first-out queue that carries messages between the
//! caller and the relay.

use vstd::prelude::*;
use crate::message::Message;
use crate::message::MessageView;

verus! {

/// `flume::Sender`, the sending end of a channel: an opaque value.
#[verifier::external_type_specification]
#[verifier::external_body]
#[verifier::reject_recursive_types(T)]
pub struct ExSender<T>(flume::Sender<T>);

/// `flume::Receiver`, the receiving end of a channel: an opaque value.
#[verifier::external_type_specification]
#[verifier::external_body]
#[verifier::reject_recursive_types(T)]
pub struct ExReceiver<T>(flume::Receiver<T>);

/// The messages that wait in the channel behind `rx`, oldest first. It is a
/// function of the receiver only because the queue below is the sole owner
/// of both ends.
pub uninterp spec fn channel_contents(rx: flume::Receiver<Message>) -> Seq<MessageView>;

/// Both ends of one unbounded channel. The queue never hands either end out and
/// never clones one, so nothing but its own methods can reach the channel: what
/// it holds changes only through them.
pub struct MessageQueue {
    tx: flume::Sender<Message>,
    rx: flume::Receiver<Message>,
}

impl View for MessageQueue {
    type V = Seq<MessageView>;

    closed spec fn view(&self) -> Seq<MessageView> {
        channel_contents(self.rx)
    }
}

/// `flume::unbounded`: a fresh channel holds nothing. The two ends it returns
/// belong to the same channel and are stored side by side.
#[verifier::external_body]
fn channel_open() -> (q: MessageQueue)
    ensures
        channel_contents(q.rx) == Seq::<MessageView>::empty(),
{
    let (tx, rx) = flume::unbounded();
    MessageQueue { tx, rx }
}

/// `flume::Sender::send`: on an unbounded channel whose receiver is alive the
/// call does not block and appends the message behind those already waiting.
/// The receiver is alive because the queue holds it.
#[verifier::external_body]
fn channel_send(q: &mut MessageQueue, message: Message)
    ensures
        channel_contents(final(q).rx) == channel_contents(old(q).rx).push(message@),
{
    let _ = q.tx.send(message);
}

/// `flume::Receiver::try_recv`: takes the oldest waiting message, or returns
/// at once with nothing when none waits.
#[verifier::external_body]
fn channel_try_recv(q: &mut MessageQueue) -> (r: Option<Message>)
    ensures
        channel_contents(old(q).rx).len() == 0 ==> r is None && channel_contents(final(q).rx)
            == channel_contents(old(q).rx),
        channel_contents(old(q).rx).len() > 0 ==> r is Some && r->0@ == channel_contents(
            old(q).rx,
        )[0] && channel_contents(final(q).rx) == channel_contents(old(q).rx).drop_first(),
{
    q.rx.try_recv().ok()
}

impl MessageQueue {
    /// An empty queue.
    pub fn new() -> (q: MessageQueue)
        ensures
            q@ == Seq::<MessageView>::empty(),
    {
        channel_open()
    }

    /// Appends `message` behind the messages that already wait.
    pub fn push(&mut self, message: Message)
        ensures
            final(self)@ == old(self)@.push(message@),
    {
        channel_send(self, message);
    }

    /// Takes the oldest message, if any waits.
    pub fn pop(&mut self) -> (r: Option<Message>)
        ensures
            old(self)@.len() == 0 ==> r is None && final(self)@ == old(self)@,
            old(self)@.len() > 0 ==> r is Some && r->0@ == old(self)@[0] && final(self)@ == old(
                self,
            )@.drop_first(),
    {
        channel_try_recv(self)
    }
}

} // verus!
