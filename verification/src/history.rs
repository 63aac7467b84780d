//! The mathematical model of a channel's life: the global history of send
//! events in queue order, each tagged with the producer handle that sent it,
//! and the queue state a receive acts on. The ordering law (what one producer
//! sends is observed in its send order) and the shutdown law (a closed
//! channel drains and then disconnects rather than blocking) are proved here.

use vstd::prelude::*;

use crate::message::MessageView;

verus! {

/// One send event of a channel history: which producer handle sent, and
/// what. A history lists the events in the order the queue serialized them;
/// one handle's events stand in its send order, since a single handle's
/// sends are sequenced ([`lemma_send_appends_in_order`]).
pub struct SendEvent {
    pub producer: nat,
    pub message: MessageView,
}

/// Everything the consumer observes, in order: the whole history's messages,
/// since the queue hands messages out in the order they were enqueued.
pub open spec fn observed(history: Seq<SendEvent>) -> Seq<MessageView>
    decreases history.len(),
{
    if history.len() == 0 {
        Seq::empty()
    } else {
        observed(history.drop_last()).push(history.last().message)
    }
}

/// The messages producer `p` sent, in the order they entered the queue.
pub open spec fn sends_of(history: Seq<SendEvent>, p: nat) -> Seq<MessageView>
    decreases history.len(),
{
    if history.len() == 0 {
        Seq::empty()
    } else {
        let rest = sends_of(history.drop_last(), p);
        if history.last().producer == p {
            rest.push(history.last().message)
        } else {
            rest
        }
    }
}

/// Whether `s` occurs inside `t` in order (not necessarily contiguously).
pub open spec fn is_subsequence_of(s: Seq<MessageView>, t: Seq<MessageView>) -> bool
    decreases t.len(),
{
    if s.len() == 0 {
        true
    } else if t.len() == 0 {
        false
    } else {
        (s.last() == t.last() && is_subsequence_of(s.drop_last(), t.drop_last()))
            || is_subsequence_of(s, t.drop_last())
    }
}

/// Law: a send appends to its own producer's projection and leaves every
/// other producer's projection untouched — so one handle's projection lists
/// exactly its messages, in its send order, and no send reorders, duplicates
/// or drops another's.
pub proof fn lemma_send_appends_in_order(history: Seq<SendEvent>, e: SendEvent)
    ensures
        sends_of(history.push(e), e.producer) == sends_of(history, e.producer).push(e.message),
        forall|q: nat| q != e.producer ==> sends_of(history.push(e), q) == sends_of(history, q),
        observed(history.push(e)) == observed(history).push(e.message),
{
    assert(history.push(e).drop_last() =~= history);
}

/// Law: for every history and every producer, the consumer's observation
/// contains that producer's messages as a subsequence in send order —
/// FIFO-per-producer, whatever the interleaving with other handles.
pub proof fn lemma_fifo_per_producer(history: Seq<SendEvent>, p: nat)
    ensures
        is_subsequence_of(sends_of(history, p), observed(history)),
    decreases history.len(),
{
    if history.len() > 0 {
        let shorter = history.drop_last();
        let e = history.last();
        lemma_fifo_per_producer(shorter, p);
        assert(shorter.push(e) =~= history);
        lemma_send_appends_in_order(shorter, e);
        let s_new = sends_of(history, p);
        let t_new = observed(history);
        assert(t_new.drop_last() =~= observed(shorter));
        if e.producer == p {
            assert(s_new == sends_of(shorter, p).push(e.message));
            assert(s_new.drop_last() =~= sends_of(shorter, p));
            assert(s_new.last() == t_new.last());
        }
        assert(is_subsequence_of(s_new, t_new));
    }
}

/// The queue state a receive acts on: the messages still queued, oldest
/// first, and how many producer handles remain.
pub struct ChannelModel {
    pub queue: Seq<MessageView>,
    pub producers: nat,
}

/// What one receive does to a queue state.
pub enum RecvOutcome {
    /// A message was queued: the oldest one is dequeued and returned.
    Received(MessageView, ChannelModel),
    /// The queue is empty and no producer handle remains: the receive fails
    /// with the disconnection error instead of waiting.
    Disconnected,
    /// The queue is empty but a producer handle remains, so a message may
    /// yet arrive: the receive blocks (or, timed, waits out its bound).
    WouldBlock,
}

/// One receive: dequeue the oldest message; on an empty queue, disconnect if
/// no producer handle remains, otherwise block.
pub open spec fn receive_model(c: ChannelModel) -> RecvOutcome {
    if c.queue.len() > 0 {
        RecvOutcome::Received(
            c.queue[0],
            ChannelModel { queue: c.queue.skip(1), producers: c.producers },
        )
    } else if c.producers == 0 {
        RecvOutcome::Disconnected
    } else {
        RecvOutcome::WouldBlock
    }
}

/// Receiving until the channel yields no more: the messages dequeued before
/// the first outcome that is not a message.
pub open spec fn receive_all(c: ChannelModel) -> Seq<MessageView>
    decreases c.queue.len(),
{
    match receive_model(c) {
        RecvOutcome::Received(m, rest) => seq![m] + receive_all(rest),
        RecvOutcome::Disconnected => Seq::empty(),
        RecvOutcome::WouldBlock => Seq::empty(),
    }
}

/// Law: once every producer handle has been dropped, no receive can block —
/// whatever was sent, iterating yields exactly the queued messages and then
/// fails with `Disconnected` rather than waiting forever.
pub proof fn lemma_closed_channel_drains(c: ChannelModel)
    requires
        c.producers == 0,
    ensures
        !(receive_model(c) is WouldBlock),
        receive_all(c) == c.queue,
        c.queue.len() == 0 ==> receive_model(c) is Disconnected,
    decreases c.queue.len(),
{
    if c.queue.len() > 0 {
        let rest = ChannelModel { queue: c.queue.skip(1), producers: c.producers };
        lemma_closed_channel_drains(rest);
        assert(seq![c.queue[0]] + c.queue.skip(1) =~= c.queue);
    } else {
        assert(receive_all(c) =~= c.queue);
    }
}

} // verus!
