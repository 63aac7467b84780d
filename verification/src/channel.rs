//! The ordered multi-producer/single-consumer channel: producer handles that
//! enqueue [`Message`]s and a single consumer handle that dequeues them,
//! built over the standard library's mpsc queue.
//!
//! The queue itself is shared between threads, so nothing can be stated here
//! about which message a receive yields: that depends on what other threads
//! have sent. The contracts state what holds of every outcome (which errors
//! each operation can surface), and the verified consumer logic that gives
//! the received messages their meaning lives in [`crate::consumer`].

use vstd::prelude::*;

use crate::message::message_views;
use crate::message::ChannelError;
use crate::message::Message;
use crate::message::MessageView;

verus! {

#[verifier::external_type_specification]
#[verifier::external_body]
#[verifier::reject_recursive_types(T)]
pub struct ExSender<T>(std::sync::mpsc::Sender<T>);

#[verifier::external_type_specification]
#[verifier::external_body]
#[verifier::reject_recursive_types(T)]
pub struct ExReceiver<T>(std::sync::mpsc::Receiver<T>);

/// A producer handle of a channel. Handles may be duplicated freely; all of
/// them feed the same queue. Dropping the last handle closes the sending
/// side, after which the consumer's receives report `Disconnected` once the
/// queue is empty.
pub struct Producer {
    inner: std::sync::mpsc::Sender<Message>,
}

/// The single consumer handle of a channel; it is not shareable.
pub struct Consumer {
    inner: std::sync::mpsc::Receiver<Message>,
}

/// Creates a channel: a logically unbounded ordered queue of messages with
/// one producer handle and the consumer handle.
///
/// Relies on `std::sync::mpsc::channel`: it returns a connected
/// sender/receiver pair over an unbounded FIFO queue.
#[verifier::external_body]
pub fn channel() -> (Producer, Consumer) {
    let (sender, receiver) = std::sync::mpsc::channel();
    (Producer { inner: sender }, Consumer { inner: receiver })
}

impl Producer {
    /// Enqueues `message` at the tail of the queue without blocking; fails
    /// exactly when the consumer handle no longer exists, so the only error
    /// it can surface is `Disconnected`.
    ///
    /// Relies on `std::sync::mpsc::Sender::send`: it enqueues the message in
    /// send order for this handle and errs only when the receiver was
    /// dropped.
    #[verifier::external_body]
    pub fn send(&self, message: Message) -> (r: Result<(), ChannelError>)
        ensures
            r matches Err(e) ==> e == ChannelError::Disconnected,
    {
        match self.inner.send(message) {
            Ok(()) => Ok(()),
            Err(_) => Err(ChannelError::Disconnected),
        }
    }

    /// Duplicates this producer handle; both handles feed the same queue.
    ///
    /// Relies on `std::sync::mpsc::Sender::clone`: the clone sends into the
    /// same channel.
    #[verifier::external_body]
    pub fn clone_handle(&self) -> Producer {
        Producer { inner: self.inner.clone() }
    }
}

impl Consumer {
    /// Blocks until a message is available and dequeues it, or fails with
    /// `Disconnected` once the queue is empty and every producer handle has
    /// been dropped; `Disconnected` is the only error it can surface.
    ///
    /// Relies on `std::sync::mpsc::Receiver::recv`: it blocks while the
    /// queue is empty and a sender remains, and errs only on disconnection.
    #[verifier::external_body]
    pub fn receive(&self) -> (r: Result<Message, ChannelError>)
        ensures
            r matches Err(e) ==> e == ChannelError::Disconnected,
    {
        match self.inner.recv() {
            Ok(message) => Ok(message),
            Err(_) => Err(ChannelError::Disconnected),
        }
    }

    /// Blocks up to `timeout_ms` milliseconds for the next message; fails
    /// with `TimedOut` when none arrives in time, or with `Disconnected`
    /// when the queue is empty and every producer handle has been dropped.
    ///
    /// Relies on `std::sync::mpsc::Receiver::recv_timeout`: its two error
    /// variants distinguish the timeout from disconnection.
    #[verifier::external_body]
    pub fn receive_timeout(&self, timeout_ms: u64) -> (r: Result<Message, ChannelError>)
        ensures
            r matches Err(e) ==> e == ChannelError::TimedOut || e == ChannelError::Disconnected,
    {
        match self.inner.recv_timeout(core::time::Duration::from_millis(timeout_ms)) {
            Ok(message) => Ok(message),
            Err(std::sync::mpsc::RecvTimeoutError::Timeout) => Err(ChannelError::TimedOut),
            Err(std::sync::mpsc::RecvTimeoutError::Disconnected) => Err(
                ChannelError::Disconnected,
            ),
        }
    }

    /// Receives until the channel is empty and disconnected, returning every
    /// message in queue order: the eager form of iterating the channel, whose
    /// sequence ends exactly when [`Self::receive`] would fail with
    /// `Disconnected`. It blocks until every producer handle is dropped.
    ///
    /// The returned ghost sequence is the history of received messages; the
    /// returned messages are exactly that history, in receive order.
    /// Termination of the loop is proved against a receive budget of
    /// `usize::MAX` messages, a bound no real channel reaches.
    pub fn iterate(&self) -> (r: (Vec<Message>, Ghost<Seq<MessageView>>))
        ensures
            message_views(r.0@) == r.1@,
    {
        let mut received: Vec<Message> = Vec::new();
        let ghost mut history: Seq<MessageView> = Seq::empty();
        let mut budget: usize = usize::MAX;
        while budget > 0
            invariant
                message_views(received@) == history,
            decreases budget,
        {
            budget = budget - 1;
            let ghost previous = received@;
            match self.receive() {
                Ok(message) => {
                    let ghost v = message@;
                    received.push(message);
                    proof {
                        history = history.push(v);
                        assert(message_views(received@) =~= message_views(previous).push(v));
                    }
                },
                Err(_) => {
                    break ;
                },
            }
        }
        (received, Ghost(history))
    }
}

/// Sends every body in `bodies`, in order, as a payload message through
/// `producer`; stops at the first failed send. Success is owed whenever the
/// consumer handle still exists — and unconditionally when there is nothing
/// to send — and the only error a send can surface is `Disconnected`, so on
/// `Err` the channel's topology changed permanently.
///
/// The returned ghost sequence is what was handed to the channel: a prefix
/// of `bodies`, each wrapped as a payload message, the whole of `bodies` on
/// success.
pub fn run_producer(producer: &Producer, bodies: &Vec<String>) -> (r: (
    Result<usize, ChannelError>,
    Ghost<Seq<MessageView>>,
))
    ensures
        r.1@.len() <= bodies@.len(),
        forall|j: int| 0 <= j < r.1@.len() ==> #[trigger] r.1@[j] == MessageView::Payload(
            bodies@[j]@,
        ),
        r.0 matches Ok(n) ==> n == bodies@.len() && r.1@.len() == bodies@.len(),
        r.0 matches Err(e) ==> e == ChannelError::Disconnected,
        bodies@.len() == 0 ==> r.0 is Ok,
{
    let mut i: usize = 0;
    let ghost mut sent: Seq<MessageView> = Seq::empty();
    while i < bodies.len()
        invariant
            i <= bodies@.len(),
            sent.len() == i,
            forall|j: int| 0 <= j < sent.len() ==> #[trigger] sent[j] == MessageView::Payload(
                bodies@[j]@,
            ),
        decreases bodies@.len() - i,
    {
        let body = bodies[i].clone();
        let ghost b = body@;
        match producer.send(Message::Payload(body)) {
            Ok(()) => {},
            Err(e) => {
                return (Err(e), Ghost(sent));
            },
        }
        proof {
            sent = sent.push(MessageView::Payload(b));
        }
        i = i + 1;
    }
    (Ok(i), Ghost(sent))
}

} // verus!
