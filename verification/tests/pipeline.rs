use coord_core::channel::channel;
use coord_core::channel::run_producer;
use coord_core::consumer::consumer_step;
use coord_core::consumer::run_consumer;
use coord_core::consumer::run_consumer_with_timeout;
use coord_core::consumer::ConsumerState;
use coord_core::message::ChannelError;
use coord_core::message::Message;

fn payload(body: &str) -> Message {
    Message::Payload(String::from(body))
}

#[test]
fn single_producer_messages_arrive_in_send_order() {
    let (producer, consumer) = channel();
    let bodies = vec![String::from("a"), String::from("b"), String::from("c")];
    let (sent, _sent_history) = run_producer(&producer, &bodies);
    assert_eq!(sent.expect("the consumer is alive"), 3);
    producer.send(Message::Stop).expect("the consumer is alive");
    let (out, _history) = run_consumer(&consumer);
    assert_eq!(out, bodies);
}

#[test]
fn pipeline_with_threaded_producer_delivers_in_order() {
    let (producer, consumer) = channel();
    let (_, out) = rayon::join(
        move || {
            let bodies = vec![String::from("a"), String::from("b"), String::from("c")];
            run_producer(&producer, &bodies).0.expect("the consumer is alive");
            producer.send(Message::Stop).expect("the consumer is alive");
        },
        move || {
            let (out, _history) = run_consumer(&consumer);
            out
        },
    );
    assert_eq!(out, vec![String::from("a"), String::from("b"), String::from("c")]);
}

#[test]
fn stop_ends_consumption_even_with_payloads_queued_behind() {
    let (producer, consumer) = channel();
    producer.send(payload("before")).unwrap();
    producer.send(Message::Stop).unwrap();
    producer.send(payload("after")).unwrap();
    let (out, _history) = run_consumer(&consumer);
    assert_eq!(out, vec![String::from("before")]);
}

#[test]
fn two_producers_deliver_six_payloads_then_stop() {
    let (producer, consumer) = channel();
    let second = producer.clone_handle();
    rayon::join(
        || {
            for body in ["alpha-1", "alpha-2", "alpha-3"] {
                producer.send(payload(body)).unwrap();
            }
        },
        || {
            for body in ["beta-1", "beta-2", "beta-3"] {
                second.send(payload(body)).unwrap();
            }
        },
    );
    // Both producers have finished: only now may the orchestrator send the
    // single Stop, so it cannot overtake an in-flight payload.
    producer.send(Message::Stop).unwrap();
    drop(producer);
    drop(second);
    let (out, _history) = run_consumer(&consumer);
    assert_eq!(out.len(), 6);
    let first: Vec<&String> = out.iter().filter(|s| s.starts_with("alpha")).collect();
    let other: Vec<&String> = out.iter().filter(|s| s.starts_with("beta")).collect();
    assert_eq!(first, vec!["alpha-1", "alpha-2", "alpha-3"]);
    assert_eq!(other, vec!["beta-1", "beta-2", "beta-3"]);
}

#[test]
fn receive_disconnects_after_producers_drop() {
    let (producer, consumer) = channel();
    producer.send(payload("only")).unwrap();
    drop(producer);
    assert_eq!(consumer.receive(), Ok(payload("only")));
    assert_eq!(consumer.receive(), Err(ChannelError::Disconnected));
}

#[test]
fn iterate_yields_every_message_until_disconnect() {
    let (producer, consumer) = channel();
    producer.send(payload("x")).unwrap();
    producer.send(Message::Stop).unwrap();
    producer.send(payload("y")).unwrap();
    drop(producer);
    let (all, _history) = consumer.iterate();
    assert_eq!(all, vec![payload("x"), Message::Stop, payload("y")]);
}

#[test]
fn send_fails_disconnected_after_consumer_drop() {
    let (producer, consumer) = channel();
    drop(consumer);
    assert_eq!(producer.send(payload("late")), Err(ChannelError::Disconnected));
    assert_eq!(
        run_producer(&producer, &vec![String::from("z")]).0,
        Err(ChannelError::Disconnected)
    );
    // With nothing to send, success is owed even on a dead channel.
    assert_eq!(run_producer(&producer, &Vec::new()).0, Ok(0));
}

#[test]
fn receive_timeout_times_out_after_the_bound() {
    let (producer, consumer) = channel();
    let start = std::time::Instant::now();
    let outcome = consumer.receive_timeout(100);
    let elapsed = start.elapsed();
    assert_eq!(outcome, Err(ChannelError::TimedOut));
    assert!(elapsed >= std::time::Duration::from_millis(100));
    assert!(elapsed < std::time::Duration::from_millis(2000));
    drop(producer);
}

#[test]
fn timed_consumer_treats_idle_timeout_as_stop() {
    let (producer, consumer) = channel();
    producer.send(payload("tick")).unwrap();
    let (out, _history) = run_consumer_with_timeout(&consumer, 50);
    assert_eq!(out, vec![String::from("tick")]);
    drop(producer);
}

#[test]
fn consumer_step_emits_payload_and_keeps_listening() {
    let (next, emitted) = consumer_step(ConsumerState::Listening, Ok(payload("hello")));
    assert_eq!(next, ConsumerState::Listening);
    assert_eq!(emitted, Some(String::from("hello")));
}

#[test]
fn consumer_step_stops_on_stop_sentinel() {
    let (next, emitted) = consumer_step(ConsumerState::Listening, Ok(Message::Stop));
    assert_eq!(next, ConsumerState::Stopped);
    assert_eq!(emitted, None);
}

#[test]
fn consumer_step_stops_on_errors() {
    for error in [ChannelError::Disconnected, ChannelError::TimedOut] {
        let (next, emitted) = consumer_step(ConsumerState::Listening, Err(error));
        assert_eq!(next, ConsumerState::Stopped);
        assert_eq!(emitted, None);
    }
}

#[test]
fn consumer_step_is_terminal_in_stopped() {
    let (next, emitted) = consumer_step(ConsumerState::Stopped, Ok(payload("ignored")));
    assert_eq!(next, ConsumerState::Stopped);
    assert_eq!(emitted, None);
}

#[test]
fn message_accessors_tell_the_variants_apart() {
    assert!(Message::Stop.is_stop());
    assert!(!payload("p").is_stop());
    assert_eq!(payload("p").into_body(), Some(String::from("p")));
    assert_eq!(Message::Stop.into_body(), None);
}

#[test]
fn timed_consumer_drains_queued_payloads_then_times_out() {
    let (producer, consumer) = channel();
    for body in ["Hello 1!", "Hello 2!", "Hello 3!", "Hello 4!"] {
        producer.send(payload(body)).unwrap();
    }
    let start = std::time::Instant::now();
    let (out, _history) = run_consumer_with_timeout(&consumer, 150);
    assert_eq!(out, vec!["Hello 1!", "Hello 2!", "Hello 3!", "Hello 4!"]);
    assert!(start.elapsed() >= std::time::Duration::from_millis(150));
    drop(producer);
}
