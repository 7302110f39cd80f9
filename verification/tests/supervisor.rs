use sunspec_gateway::consts::RETRY_COOLDOWN_SECS;
use sunspec_gateway::gateway_error::GatewayError;
use sunspec_gateway::ipc::{IPCError, IPCMessage, InboundMessage, PublishMessage};
use sunspec_gateway::payload::Payload;
use sunspec_gateway::supervisor::{
    fatal_message, reap, ReapAction, RetryEntry, Supervisor, SupervisorAction,
};

fn telemetry(topic: &str) -> IPCMessage {
    IPCMessage::Outbound(PublishMessage { topic: topic.to_string(), payload: Payload::Empty })
}

#[test]
fn a_new_supervisor_has_nothing_queued() {
    let mut s = Supervisor::new();
    assert!(s.retry_queue.is_empty());
    assert!(s.msg_queue.is_empty());
    assert!(!s.stopped);
    assert!(s.next_publish().is_none());
    assert!(s.service_retry(1_000_000).is_none());
}

#[test]
fn telemetry_is_published_in_the_order_in_which_it_arrived() {
    let mut s = Supervisor::new();
    for t in ["a", "b", "c"] {
        assert!(matches!(s.route(telemetry(t), 0), SupervisorAction::Queued));
    }
    assert_eq!(s.msg_queue.len(), 3);
    assert_eq!(s.next_publish().unwrap().topic, "a");
    assert_eq!(s.next_publish().unwrap().topic, "b");
    assert!(matches!(s.route(telemetry("d"), 0), SupervisorAction::Queued));
    assert_eq!(s.next_publish().unwrap().topic, "c");
    assert_eq!(s.next_publish().unwrap().topic, "d");
    assert!(s.next_publish().is_none());
    assert!(s.retry_queue.is_empty());
}

#[test]
fn a_reconnect_request_puts_one_entry_on_the_retry_queue() {
    let mut s = Supervisor::new();
    let action = s.route(IPCMessage::PleaseReconnect("10.0.0.5:502".into(), 3), 1040);
    assert!(matches!(action, SupervisorAction::RetryQueued));
    assert_eq!(s.retry_queue.len(), 1);
    let e = &s.retry_queue[0];
    assert_eq!((e.addr.as_str(), e.slave_id, e.failed_at), ("10.0.0.5:502", 3, 1040));
    assert!(s.msg_queue.is_empty());
}

#[test]
fn an_entry_is_retried_only_after_its_cooldown() {
    assert_eq!(RETRY_COOLDOWN_SECS, 30);
    let mut s = Supervisor::new();
    s.route(IPCMessage::PleaseReconnect("a".into(), 1), 1000);
    for now in [1000, 1001, 1029, 999, i64::MIN] {
        assert!(s.service_retry(now).is_none(), "retried early at {now}");
        assert_eq!(s.retry_queue.len(), 1);
        let e = &s.retry_queue[0];
        assert_eq!((e.addr.as_str(), e.slave_id, e.failed_at), ("a", 1, 1000));
    }
    let due = s.service_retry(1030).unwrap();
    assert_eq!((due.addr.as_str(), due.slave_id, due.failed_at), ("a", 1, 1000));
    assert!(s.retry_queue.is_empty());
    assert!(s.service_retry(1031).is_none());
}

#[test]
fn an_entry_that_is_not_due_moves_to_the_tail() {
    let mut s = Supervisor::new();
    s.route(IPCMessage::PleaseReconnect("young".into(), 1), 1000);
    s.route(IPCMessage::PleaseReconnect("old".into(), 2), 900);
    s.route(IPCMessage::PleaseReconnect("older".into(), 3), 800);
    assert!(s.service_retry(1010).is_none());
    let order: Vec<&str> = s.retry_queue.iter().map(|e| e.addr.as_str()).collect();
    assert_eq!(order, vec!["old", "older", "young"]);
    assert_eq!(s.service_retry(1010).unwrap().addr, "old");
    assert_eq!(s.service_retry(1010).unwrap().addr, "older");
    assert!(s.service_retry(1010).is_none());
    assert_eq!(s.retry_queue.len(), 1);
    assert_eq!(s.service_retry(i64::MAX).unwrap().addr, "young");
}

#[test]
fn one_service_tries_at_most_one_device() {
    let mut s = Supervisor::new();
    for i in 0..5u8 {
        s.route(IPCMessage::PleaseReconnect(format!("d{i}"), i), 0);
    }
    let first = s.service_retry(10_000);
    assert_eq!(first.unwrap().addr, "d0");
    assert_eq!(s.retry_queue.len(), 4);
}

#[test]
fn a_failed_reconnect_waits_again_with_a_fresh_stamp() {
    let mut s = Supervisor::new();
    s.route(IPCMessage::PleaseReconnect("a".into(), 1), 1000);
    let RetryEntry { addr, slave_id, .. } = s.service_retry(1030).unwrap();
    s.reconnect_failed(addr, slave_id, 1031);
    assert_eq!(s.retry_queue.len(), 1);
    assert_eq!(s.retry_queue[0].failed_at, 1031);
    assert!(s.service_retry(1060).is_none());
    assert_eq!(s.service_retry(1061).unwrap().addr, "a");
}

#[test]
fn a_write_from_outside_is_handed_on_as_it_is() {
    let mut s = Supervisor::new();
    let m = InboundMessage {
        serial_number: "SN1".into(),
        model: "802".into(),
        point_name: "SocRsvMax".into(),
        payload: "42".into(),
    };
    match s.route(IPCMessage::Inbound(m), 5) {
        SupervisorAction::Broadcast(b) => {
            assert_eq!(b.serial_number, "SN1");
            assert_eq!(b.model, "802");
            assert_eq!(b.point_name, "SocRsvMax");
            assert_eq!(b.payload, "42");
        }
        other => panic!("unexpected action {other:?}"),
    }
    assert!(s.msg_queue.is_empty() && s.retry_queue.is_empty());
}

#[test]
fn a_workers_error_is_fatal() {
    let mut s = Supervisor::new();
    let e = IPCError { serial_number: "SN1".into(), msg: "boom".into() };
    match s.route(IPCMessage::Error(e), 5) {
        SupervisorAction::Fatal(e) => assert_eq!(fatal_message(&e), "serial_number=SN1: boom"),
        other => panic!("unexpected action {other:?}"),
    }
}

#[test]
fn after_a_shutdown_nothing_more_is_processed() {
    let mut s = Supervisor::new();
    s.route(telemetry("a"), 0);
    assert!(matches!(s.route(IPCMessage::Shutdown, 1), SupervisorAction::Stop));
    assert!(s.stopped);
    assert!(matches!(s.route(telemetry("b"), 2), SupervisorAction::Ignored));
    assert!(matches!(s.route(IPCMessage::PleaseReconnect("a".into(), 1), 2), SupervisorAction::Ignored));
    assert!(matches!(s.route(IPCMessage::Shutdown, 3), SupervisorAction::Ignored));
    assert_eq!(s.msg_queue.len(), 1);
    assert!(s.retry_queue.is_empty());
}

#[test]
fn the_end_of_a_worker_is_classified() {
    assert_eq!(reap(&Ok(())), ReapAction::WarnUnexpectedExit);
    assert_eq!(reap(&Err(GatewayError::CommunicationError("x".into()))), ReapAction::Nothing);
    assert_eq!(reap(&Err(GatewayError::ExitingThread)), ReapAction::Nothing);
    assert_eq!(reap(&Err(GatewayError::Error("x".into()))), ReapAction::Fatal);
    assert_eq!(reap(&Err(GatewayError::Unspecified)), ReapAction::Fatal);
    assert_eq!(GatewayError::Error("x".into()).message(), "Error from thread: x");
    assert_eq!(GatewayError::default().message(), "Unspecified error");
    assert!(!GatewayError::Unspecified.is_exit_by_request());
}
