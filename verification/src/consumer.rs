//! The consumer side of the pipeline: a state machine that listens until it
//! observes the `Stop` sentinel or the channel disconnects, emitting every
//! payload body it received before that, in order.

use vstd::prelude::*;

use crate::channel::Consumer;
use crate::message::ChannelError;
use crate::message::Message;
use crate::message::MessageView;

verus! {

/// The state of the consumer loop. `Listening` is the initial state;
/// `Stopped` is terminal: once entered, no further message is processed.
#[derive(Clone, Copy, PartialEq, Eq, Structural, Debug)]
pub enum ConsumerState {
    Listening,
    Stopped,
}

/// The output a consumer emits for a sequence of received messages: the
/// payload bodies, in order, up to but not including the first `Stop`
/// sentinel. `Stop` is authoritative and terminal: nothing received after it
/// is processed, even payloads that were already queued behind it.
pub open spec fn outputs_of(received: Seq<MessageView>) -> Seq<Seq<char>>
    decreases received.len(),
{
    if received.len() == 0 {
        Seq::empty()
    } else {
        match received[0] {
            MessageView::Stop => Seq::empty(),
            MessageView::Payload(b) => seq![b] + outputs_of(received.skip(1)),
        }
    }
}

/// The views of a sequence of emitted bodies: each `String` as its
/// sequence of characters.
pub open spec fn views_of(bodies: Seq<String>) -> Seq<Seq<char>> {
    bodies.map_values(|s: String| s@)
}

/// Whether no message of `received` is the `Stop` sentinel.
pub open spec fn stop_free(received: Seq<MessageView>) -> bool {
    forall|i: int| 0 <= i < received.len() ==> !(received[i] is Stop)
}

/// A receive history is terminal when it is stop-free (the channel
/// disconnected or went idle before any `Stop` arrived) or its one `Stop`
/// stands last (the consumer quit the moment it saw the sentinel).
pub open spec fn terminal_history(received: Seq<MessageView>) -> bool {
    ||| stop_free(received)
    ||| (received.len() > 0 && received.last() is Stop && stop_free(received.drop_last()))
}

/// While no `Stop` has been received yet, one more message extends the
/// output pointwise: a payload appends its body, a `Stop` leaves it as it
/// stands.
pub proof fn lemma_outputs_push(received: Seq<MessageView>, m: MessageView)
    requires
        stop_free(received),
    ensures
        m is Stop ==> outputs_of(received.push(m)) == outputs_of(received),
        m matches MessageView::Payload(b) ==> outputs_of(received.push(m)) == outputs_of(
            received,
        ).push(b),
    decreases received.len(),
{
    reveal_with_fuel(outputs_of, 2);
    if received.len() == 0 {
        match m {
            MessageView::Stop => {
                assert(outputs_of(received.push(m)) =~= outputs_of(received));
            },
            MessageView::Payload(b) => {
                assert(received.push(m)[0] == m);
                assert(received.push(m).skip(1) =~= received);
                assert(outputs_of(received.push(m)) =~= outputs_of(received).push(b));
            },
        }
    } else {
        assert(!(received[0] is Stop));
        assert(received.push(m).skip(1) =~= received.skip(1).push(m));
        lemma_outputs_push(received.skip(1), m);
        match m {
            MessageView::Stop => {
                assert(outputs_of(received.push(m)) =~= outputs_of(received));
            },
            MessageView::Payload(b) => {
                assert(outputs_of(received.push(m)) =~= outputs_of(received).push(b));
            },
        }
    }
}

/// One transition of the consumer's state machine, from the current state
/// and the outcome of one receive to the next state and the payload body to
/// emit, if any. In `Listening`, a payload is emitted and listening
/// continues; the `Stop` sentinel, a disconnection and a timeout all lead to
/// `Stopped`, which is terminal and emits nothing.
pub fn consumer_step(state: ConsumerState, event: Result<Message, ChannelError>) -> (r: (
    ConsumerState,
    Option<String>,
))
    ensures
        state is Stopped ==> r.0 is Stopped && r.1 is None,
        state is Listening ==> (match event {
            Ok(m) => match m@ {
                MessageView::Payload(b) => r.0 is Listening && (r.1 matches Some(s) && s@ == b),
                MessageView::Stop => r.0 is Stopped && r.1 is None,
            },
            Err(_) => r.0 is Stopped && r.1 is None,
        }),
{
    match state {
        ConsumerState::Stopped => (ConsumerState::Stopped, None),
        ConsumerState::Listening => match event {
            Ok(Message::Payload(body)) => (ConsumerState::Listening, Some(body)),
            Ok(Message::Stop) => (ConsumerState::Stopped, None),
            Err(_) => (ConsumerState::Stopped, None),
        },
    }
}

/// Runs the consumer loop to completion with blocking receives: emits every
/// payload body received before the first `Stop` sentinel, in receive order,
/// and stops at the sentinel or when the channel disconnects.
///
/// The returned ghost sequence is the history of received messages; the
/// emitted bodies are exactly the outputs that history owes. Termination of
/// the loop is proved against a receive budget of `usize::MAX` messages, a
/// bound no real channel reaches.
pub fn run_consumer(consumer: &Consumer) -> (r: (Vec<String>, Ghost<Seq<MessageView>>))
    ensures
        views_of(r.0@) == outputs_of(r.1@),
        terminal_history(r.1@),
{
    let mut out: Vec<String> = Vec::new();
    let ghost mut received: Seq<MessageView> = Seq::empty();
    let mut budget: usize = usize::MAX;
    while budget > 0
        invariant_except_break
            views_of(out@) == outputs_of(received),
            stop_free(received),
        ensures
            views_of(out@) == outputs_of(received),
            terminal_history(received),
        decreases budget,
    {
        budget = budget - 1;
        let event = consumer.receive();
        let ghost event_view: Option<MessageView> = if event is Ok {
            Some(event->Ok_0@)
        } else {
            None
        };
        proof {
            if let Some(v) = event_view {
                lemma_outputs_push(received, v);
            }
        }
        let ghost prev_out = out@;
        let ghost prev_received = received;
        let (next, emitted) = consumer_step(ConsumerState::Listening, event);
        proof {
            if let Some(v) = event_view {
                received = prev_received.push(v);
            }
        }
        match emitted {
            Some(body) => {
                let ghost b = body@;
                out.push(body);
                proof {
                    assert(views_of(out@) =~= views_of(prev_out).push(b));
                }
            },
            None => {},
        }
        if matches!(next, ConsumerState::Stopped) {
            break ;
        }
    }
    (out, Ghost(received))
}

/// Runs the consumer loop with timed receives: as [`run_consumer`], except
/// that a receive that waits `timeout_ms` milliseconds without a message
/// arriving also stops the loop, the idle timeout acting as an implicit
/// `Stop`.
pub fn run_consumer_with_timeout(consumer: &Consumer, timeout_ms: u64) -> (r: (
    Vec<String>,
    Ghost<Seq<MessageView>>,
))
    ensures
        views_of(r.0@) == outputs_of(r.1@),
        terminal_history(r.1@),
{
    let mut out: Vec<String> = Vec::new();
    let ghost mut received: Seq<MessageView> = Seq::empty();
    let mut budget: usize = usize::MAX;
    while budget > 0
        invariant_except_break
            views_of(out@) == outputs_of(received),
            stop_free(received),
        ensures
            views_of(out@) == outputs_of(received),
            terminal_history(received),
        decreases budget,
    {
        budget = budget - 1;
        let event = consumer.receive_timeout(timeout_ms);
        let ghost event_view: Option<MessageView> = if event is Ok {
            Some(event->Ok_0@)
        } else {
            None
        };
        proof {
            if let Some(v) = event_view {
                lemma_outputs_push(received, v);
            }
        }
        let ghost prev_out = out@;
        let ghost prev_received = received;
        let (next, emitted) = consumer_step(ConsumerState::Listening, event);
        proof {
            if let Some(v) = event_view {
                received = prev_received.push(v);
            }
        }
        match emitted {
            Some(body) => {
                let ghost b = body@;
                out.push(body);
                proof {
                    assert(views_of(out@) =~= views_of(prev_out).push(b));
                }
            },
            None => {},
        }
        if matches!(next, ConsumerState::Stopped) {
            break ;
        }
    }
    (out, Ghost(received))
}

} // verus!
