use queue_relay::config::Mode;
use queue_relay::relay::{Action, Event, Fault, Relay};

fn consuming(mode: Mode) -> Relay {
    let (mut relay, _) = Relay::start(mode);
    if mode == Mode::Persist {
        assert_eq!(relay.step(Event::Succeeded), Action::ConnectBroker);
    }
    assert_eq!(relay.step(Event::Succeeded), Action::OpenChannel);
    assert_eq!(relay.step(Event::Succeeded), Action::DeclareQueue);
    assert_eq!(relay.step(Event::Succeeded), Action::RegisterConsumer);
    assert_eq!(relay.step(Event::Succeeded), Action::Pull);
    relay
}

#[test]
fn print_run_starts_with_the_broker() {
    let (relay, first) = Relay::start(Mode::Print);
    assert_eq!(first, Action::ConnectBroker);
    assert!(!relay.is_terminated());
}

#[test]
fn persist_run_starts_with_the_store() {
    let (_, first) = Relay::start(Mode::Persist);
    assert_eq!(first, Action::ConnectStore);
}

#[test]
fn store_failure_stops_before_the_broker() {
    let (mut relay, _) = Relay::start(Mode::Persist);
    let actions = relay.feed(vec![Event::Failed, Event::Succeeded]);
    assert_eq!(actions, vec![Action::Stop(Fault::StoreConnect), Action::Stop(Fault::StoreConnect)]);
    assert_eq!(Fault::StoreConnect.exit_code(), 1);
}

#[test]
fn unreachable_broker_stops_with_status_one() {
    let (mut relay, _) = Relay::start(Mode::Print);
    let actions = relay.feed(vec![Event::Failed, Event::Succeeded, Event::Succeeded]);
    assert_eq!(actions, vec![Action::Stop(Fault::BrokerConnect), Action::Stop(Fault::BrokerConnect), Action::Stop(Fault::BrokerConnect)]);
    assert!(relay.is_terminated());
    assert_eq!(Fault::BrokerConnect.exit_code(), 1);
}

#[test]
fn each_setup_failure_names_its_step() {
    let (mut relay, _) = Relay::start(Mode::Print);
    assert_eq!(relay.feed(vec![Event::Succeeded, Event::Failed]), vec![Action::OpenChannel, Action::Stop(Fault::ChannelOpen)]);
    let (mut relay, _) = Relay::start(Mode::Print);
    assert_eq!(relay.feed(vec![Event::Succeeded, Event::Succeeded, Event::Failed])[2], Action::Stop(Fault::QueueDeclare));
    let (mut relay, _) = Relay::start(Mode::Print);
    assert_eq!(
        relay.feed(vec![Event::Succeeded, Event::Succeeded, Event::Succeeded, Event::Failed])[3],
        Action::Stop(Fault::ConsumerRegister)
    );
}

#[test]
fn hello_is_acknowledged_then_handled() {
    let mut relay = consuming(Mode::Persist);
    let actions = relay.feed(vec![Event::Delivered(b"hello".to_vec()), Event::Succeeded, Event::Succeeded]);
    assert_eq!(actions, vec![Action::Acknowledge, Action::Handle("hello".to_string()), Action::Pull]);
}

#[test]
fn invalid_utf8_is_acknowledged_and_not_handled() {
    let mut relay = consuming(Mode::Persist);
    let actions = relay.feed(vec![Event::Delivered(vec![0xFF, 0xFE]), Event::Succeeded]);
    assert_eq!(actions, vec![Action::Acknowledge, Action::Pull]);
    assert!(!relay.is_terminated());
}

#[test]
fn failed_insert_ends_consumption() {
    let mut relay = consuming(Mode::Persist);
    let actions = relay.feed(vec![
        Event::Delivered(b"row".to_vec()),
        Event::Succeeded,
        Event::Failed,
        Event::Delivered(b"next".to_vec()),
        Event::Succeeded,
    ]);
    assert_eq!(
        actions,
        vec![
            Action::Acknowledge,
            Action::Handle("row".to_string()),
            Action::Stop(Fault::Handler),
            Action::Stop(Fault::Handler),
            Action::Stop(Fault::Handler),
        ]
    );
    assert_eq!(Fault::Handler.exit_code(), 1);
}

#[test]
fn failed_print_does_not_end_consumption() {
    let mut relay = consuming(Mode::Print);
    let actions = relay.feed(vec![Event::Delivered(b"x".to_vec()), Event::Succeeded, Event::Failed]);
    assert_eq!(actions, vec![Action::Acknowledge, Action::Handle("x".to_string()), Action::Pull]);
}

#[test]
fn failed_acknowledgment_ends_the_run() {
    let mut relay = consuming(Mode::Print);
    let actions = relay.feed(vec![Event::Delivered(b"x".to_vec()), Event::Failed]);
    assert_eq!(actions, vec![Action::Acknowledge, Action::Stop(Fault::Acknowledge)]);
}

#[test]
fn pull_failure_and_stream_end_end_the_run() {
    let mut relay = consuming(Mode::Print);
    assert_eq!(relay.step(Event::PullFailed), Action::Stop(Fault::DeliveryPull));
    let mut relay = consuming(Mode::Print);
    assert_eq!(relay.step(Event::StreamEnded), Action::Stop(Fault::StreamEnded));
    assert!(relay.is_terminated());
}

#[test]
fn unexpected_event_leaves_the_phase_alone() {
    let mut relay = consuming(Mode::Print);
    assert_eq!(relay.step(Event::Succeeded), Action::Wait);
    assert_eq!(relay.step(Event::Delivered(b"a".to_vec())), Action::Acknowledge);
    assert_eq!(relay.step(Event::StreamEnded), Action::Wait);
    assert_eq!(relay.step(Event::Succeeded), Action::Handle("a".to_string()));
}

#[test]
fn deliveries_are_handled_one_after_another() {
    let mut relay = consuming(Mode::Print);
    let actions = relay.feed(vec![
        Event::Delivered(b"one".to_vec()),
        Event::Succeeded,
        Event::Succeeded,
        Event::Delivered(vec![0xC3]),
        Event::Succeeded,
        Event::Delivered(b"two".to_vec()),
        Event::Succeeded,
        Event::Succeeded,
    ]);
    assert_eq!(
        actions,
        vec![
            Action::Acknowledge,
            Action::Handle("one".to_string()),
            Action::Pull,
            Action::Acknowledge,
            Action::Pull,
            Action::Acknowledge,
            Action::Handle("two".to_string()),
            Action::Pull,
        ]
    );
}
