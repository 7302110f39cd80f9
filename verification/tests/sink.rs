use sunspec_gateway::gateway_error::GatewayError;
use sunspec_gateway::ipc::{IPCError, IPCMessage, InboundMessage, PublishMessage};
use sunspec_gateway::mqtt_poll::{
    inbound_from_topic, is_publish_error, BusAction, BusEvent, PublishOutcome, SinkAction,
    SinkAdapter,
};
use sunspec_gateway::payload::Payload;
use sunspec_gateway::topics::{command_topic, input_topic_parts};

fn telemetry(topic: &str) -> IPCMessage {
    IPCMessage::Outbound(PublishMessage { topic: topic.to_string(), payload: Payload::Empty })
}

#[test]
fn an_input_topic_names_serial_number_model_and_point() {
    assert_eq!(input_topic_parts("sunspec_gateway/input/SN1/802/SocRsvMax"), Some(("SN1", "802", "SocRsvMax")));
    assert_eq!(input_topic_parts("a/b/c/d/e/f"), Some(("c", "d", "e/f")));
    assert_eq!(input_topic_parts("////"), Some(("", "", "")));
    assert_eq!(input_topic_parts("sunspec_gateway/input/SN1/802"), None);
    assert_eq!(input_topic_parts(""), None);
}

#[test]
fn the_announced_command_topic_leads_back_to_its_point() {
    for (sn, model, point) in [("SN1", "802", "SocRsvMax"), ("", "", ""), ("a.b", "1", "x/y")] {
        let topic = command_topic(sn, model, point);
        assert_eq!(input_topic_parts(&topic), Some((sn, model, point)));
    }
}

#[test]
fn a_message_on_an_input_topic_becomes_a_write() {
    let m = inbound_from_topic("sunspec_gateway/input/SN1/802/SocRsvMax", "42".to_string()).unwrap();
    assert_eq!(m.serial_number, "SN1");
    assert_eq!(m.model, "802");
    assert_eq!(m.point_name, "SocRsvMax");
    assert_eq!(m.payload, "42");
    assert!(inbound_from_topic("sunspec_gateway/SN1/802/W", "42".to_string()).is_none());
}

#[test]
fn arrivals_are_forwarded_or_dropped() {
    let mut sink = SinkAdapter::new();
    let ok = BusEvent::Publish { topic: "sunspec_gateway/input/SN1/802/Ena".into(), payload: "1".into() };
    match sink.on_event(ok) {
        BusAction::Forward(IPCMessage::Inbound(InboundMessage { serial_number, model, point_name, payload })) => {
            assert_eq!((serial_number.as_str(), model.as_str()), ("SN1", "802"));
            assert_eq!((point_name.as_str(), payload.as_str()), ("Ena", "1"));
        }
        other => panic!("unexpected action {other:?}"),
    }
    let bad = BusEvent::Publish { topic: "elsewhere".into(), payload: "1".into() };
    assert!(matches!(sink.on_event(bad), BusAction::Unroutable));
    assert!(matches!(sink.on_event(BusEvent::Other), BusAction::Continue));
    assert!(matches!(sink.on_event(BusEvent::Disconnect), BusAction::Stop));
    assert!(sink.unconfirmed.is_empty());
    assert!(sink.outbound.is_empty());
}

#[test]
fn publishes_are_remembered_until_they_are_confirmed() {
    let mut sink = SinkAdapter::new();
    for id in [4u16, 5, 6, 5, 7] {
        assert!(matches!(sink.on_event(BusEvent::PublishSent(id)), BusAction::Continue));
    }
    assert_eq!(sink.unconfirmed, vec![4, 5, 6, 5, 7]);
    assert!(matches!(sink.on_event(BusEvent::PubAck(5)), BusAction::Continue));
    assert_eq!(sink.unconfirmed, vec![4, 6, 7]);
    sink.on_event(BusEvent::PubAck(99));
    assert_eq!(sink.unconfirmed, vec![4, 6, 7]);
    sink.on_event(BusEvent::PubAck(4));
    sink.on_event(BusEvent::PubAck(7));
    sink.on_event(BusEvent::PubAck(6));
    assert!(sink.unconfirmed.is_empty());
}

#[test]
fn telemetry_is_offered_to_the_bus_once_and_in_order() {
    let mut sink = SinkAdapter::new();
    for t in ["a", "b", "c"] {
        assert!(matches!(sink.on_message(telemetry(t)), SinkAction::Continue));
    }
    assert_eq!(sink.next_outbound().unwrap().topic, "a");
    assert_eq!(sink.outbound.len(), 2);
    assert_eq!(sink.next_outbound().unwrap().topic, "b");
    assert_eq!(sink.next_outbound().unwrap().topic, "c");
    assert!(sink.next_outbound().is_none());
    assert!(is_publish_error(PublishOutcome::TimedOut));
    assert!(is_publish_error(PublishOutcome::Failed));
    assert!(!is_publish_error(PublishOutcome::Sent));
    assert!(sink.outbound.is_empty());
}

#[test]
fn the_adapter_ends_on_shutdown_and_on_error() {
    let mut sink = SinkAdapter::new();
    sink.on_message(telemetry("a"));
    assert!(matches!(sink.on_message(IPCMessage::Shutdown), SinkAction::Exit(GatewayError::ExitingThread)));
    let e = IPCMessage::Error(IPCError { serial_number: "SN1".into(), msg: "boom".into() });
    assert!(matches!(sink.on_message(e), SinkAction::Exit(GatewayError::Unspecified)));
    assert!(matches!(sink.on_message(IPCMessage::PleaseReconnect("a".into(), 1)), SinkAction::Continue));
    assert_eq!(sink.outbound.len(), 1);
    assert!(matches!(sink.on_broadcast(&IPCMessage::Shutdown), SinkAction::Exit(GatewayError::ExitingThread)));
    assert!(matches!(sink.on_broadcast(&telemetry("x")), SinkAction::Continue));
}
