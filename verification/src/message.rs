//! The messages that flow through the channel and the errors its
//! operations can raise.

use vstd::prelude::*;

verus! {

/// A message carried by the channel: either a payload with an opaque string
/// body, or the `Stop` sentinel that tells the consumer to shut down. Keeping
/// the sentinel a variant of a closed enum (rather than a special body value)
/// lets every consumer handle it exhaustively.
#[derive(Clone, PartialEq, Eq, Debug)]
pub enum Message {
    Payload(String),
    Stop,
}

/// The mathematical value of a [`Message`]: the payload body as a sequence
/// of characters, or the stop sentinel.
pub enum MessageView {
    Payload(Seq<char>),
    Stop,
}

impl View for Message {
    type V = MessageView;

    open spec fn view(&self) -> MessageView {
        match self {
            Message::Payload(s) => MessageView::Payload(s@),
            Message::Stop => MessageView::Stop,
        }
    }
}

impl Message {
    /// Whether this message is the `Stop` sentinel.
    pub fn is_stop(&self) -> (r: bool)
        ensures
            r <==> self@ is Stop,
    {
        matches!(self, Message::Stop)
    }

    /// The payload body, or `None` for the `Stop` sentinel.
    pub fn into_body(self) -> (r: Option<String>)
        ensures
            self@ matches MessageView::Payload(b) ==> (r matches Some(s) && s@ == b),
            self@ is Stop ==> r is None,
    {
        match self {
            Message::Payload(s) => Some(s),
            Message::Stop => None,
        }
    }
}

/// The views of a sequence of messages: each message as its mathematical
/// value.
pub open spec fn message_views(messages: Seq<Message>) -> Seq<MessageView> {
    messages.map_values(|m: Message| m@)
}

/// A failure of a channel operation.
///
/// `Disconnected` reports a permanent topology change: the peer side of the
/// channel no longer exists. `TimedOut` reports only that no message arrived
/// within the bound given to a timed receive; the caller may retry or treat
/// it as an idle-shutdown signal.
#[derive(Clone, Copy, PartialEq, Eq, Structural, Debug)]
pub enum ChannelError {
    Disconnected,
    TimedOut,
}

} // verus!
