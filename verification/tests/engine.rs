use ocpp_client::engine::{ClientClosed, Engine, Inbound};
use ocpp_client::envelope::{Outgoing, ParsedFrame};
use ocpp_client::transport::token_payload;
use ocpp_client::{Duration, KeepaliveBehavior, KeepalivePolicy};
use ocpp_client::json::parse_frame;
use serde_json::Value;

type TestEngine = Engine<&'static str, &'static str, u32, u32>;

fn parse(text: &str) -> ParsedFrame<Value> {
    parse_frame(text)
}

fn text_at(frame: &[Outgoing<Value>], i: usize) -> String {
    match &frame[i] {
        Outgoing::Text(s) => s.clone(),
        other => panic!("expected text at {i}, got {other:?}"),
    }
}

fn start(engine: &mut TestEngine, waiter: &'static str) -> (u128, String) {
    let (id, frame) = engine
        .start_request("Heartbeat".to_string(), Value::Null, waiter)
        .unwrap();
    assert!(matches!(frame[0], Outgoing::Unsigned(2)));
    assert_eq!(text_at(&frame, 2), "Heartbeat");
    let message_id = text_at(&frame, 1);
    assert_eq!(message_id, uuid::Uuid::from_u128(id).to_string());
    (id, message_id)
}

#[test]
fn call_resolves_on_matching_result() {
    let mut engine = TestEngine::new(KeepaliveBehavior::Disabled);
    let (_, message_id) = start(&mut engine, "heartbeat");
    assert_eq!(engine.pending_request_count(), 1);
    let frame = format!(r#"[3,"{message_id}",{{"currentTime":"2024-01-01T00:00:00Z"}}]"#);
    match engine.route(parse(&frame)) {
        Inbound::Resolve { waiter, outcome: Ok(payload) } => {
            assert_eq!(waiter, "heartbeat");
            assert_eq!(payload["currentTime"], "2024-01-01T00:00:00Z");
        }
        other => panic!("expected the request to resolve, got {other:?}"),
    }
    assert_eq!(engine.pending_request_count(), 0);
}

#[test]
fn call_surfaces_protocol_error_parts() {
    let mut engine = TestEngine::new(KeepaliveBehavior::Disabled);
    let (_, message_id) = start(&mut engine, "w");
    let frame = format!(r#"[4,"{message_id}","InternalError","boom",{{}}]"#);
    match engine.route(parse(&frame)) {
        Inbound::Resolve { outcome: Err(error), .. } => {
            assert_eq!(error.code, "InternalError");
            assert_eq!(error.description, "boom");
        }
        other => panic!("expected a protocol error, got {other:?}"),
    }
    assert_eq!(engine.pending_request_count(), 0);
}

#[test]
fn an_answer_to_no_outstanding_request_changes_nothing() {
    let mut engine = TestEngine::new(KeepaliveBehavior::Disabled);
    let (_, _) = start(&mut engine, "w");
    let stranger = uuid::Uuid::from_u128(42).to_string();
    let frame = format!(r#"[3,"{stranger}",{{}}]"#);
    assert!(matches!(engine.route(parse(&frame)), Inbound::Unmatched));
    assert!(matches!(engine.route(parse(r#"[3,"not-a-uuid",{}]"#)), Inbound::Unmatched));
    assert_eq!(engine.pending_request_count(), 1);
}

#[test]
fn a_timed_out_request_does_not_leak_its_pending_entry() {
    let mut engine = TestEngine::new(KeepaliveBehavior::Disabled);
    for _ in 0..25 {
        let (id, _) = start(&mut engine, "w");
        assert_eq!(engine.forget_request(id), Some("w"));
    }
    assert_eq!(engine.pending_request_count(), 0);
}

#[test]
fn unregistered_action_gets_not_implemented_with_the_same_id() {
    let mut engine = TestEngine::new(KeepaliveBehavior::Disabled);
    match engine.route(parse(r#"[2,"req-2","Reset",{"type":"Hard"}]"#)) {
        Inbound::Reply { frame } => {
            assert!(matches!(frame[0], Outgoing::Unsigned(4)));
            assert_eq!(text_at(&frame, 1), "req-2");
            assert_eq!(text_at(&frame, 2), "NotImplemented");
            assert_eq!(
                text_at(&frame, 3),
                "Action 'Action 'Reset' is not implemented' is not implemented"
            );
        }
        other => panic!("expected a CALLERROR reply, got {other:?}"),
    }
}

#[test]
fn a_registered_handler_receives_its_calls_and_replacing_it_retires_the_old_one() {
    let mut engine = TestEngine::new(KeepaliveBehavior::Disabled);
    let (first, previous) = engine.register_handler("TriggerMessage".to_string(), 1);
    assert!(previous.is_none());
    match engine.route(parse(r#"[2,"req-1","TriggerMessage",{"requestedMessage":"Heartbeat"}]"#)) {
        Inbound::Dispatch { serial, handler, message_id, payload } => {
            assert_eq!(serial, first);
            assert_eq!(handler, 1);
            assert_eq!(message_id, "req-1");
            assert_eq!(payload["requestedMessage"], "Heartbeat");
        }
        other => panic!("expected a dispatch, got {other:?}"),
    }
    let (second, previous) = engine.register_handler("TriggerMessage".to_string(), 2);
    assert_eq!(previous, Some(1));
    assert_ne!(first, second);
    assert!(matches!(
        engine.route(parse(r#"[2,"req-3","TriggerMessage",{}]"#)),
        Inbound::Dispatch { handler: 2, .. }
    ));
    // A stale registration cannot tear out the one that replaced it.
    assert!(!engine.unregister_handler_if(&"TriggerMessage".to_string(), first));
    assert!(engine.unregister_handler_if(&"TriggerMessage".to_string(), second));
    assert!(matches!(
        engine.route(parse(r#"[2,"m2","TriggerMessage",{}]"#)),
        Inbound::Reply { .. }
    ));
}

#[test]
fn sends_go_to_their_handler_and_are_never_answered() {
    let mut engine = TestEngine::new(KeepaliveBehavior::Disabled);
    assert!(matches!(
        engine.route(parse(r#"[6,"peer-1","NotifyPeriodicEventStream",{"id":123}]"#)),
        Inbound::UnhandledSend { action } if action == "NotifyPeriodicEventStream"
    ));
    let (serial, _) = engine.register_notification_handler("NotifyPeriodicEventStream".to_string(), 7);
    match engine.route(parse(r#"[6,"peer-1","NotifyPeriodicEventStream",{"id":123}]"#)) {
        Inbound::Notify { serial: s, handler, payload } => {
            assert_eq!(s, serial);
            assert_eq!(handler, 7);
            assert_eq!(payload["id"], 123);
        }
        other => panic!("expected a notification, got {other:?}"),
    }
    let frame = engine
        .notification_frame("NotifyPeriodicEventStream".to_string(), Value::Null)
        .unwrap();
    assert!(matches!(frame[0], Outgoing::Unsigned(6)));
    assert_eq!(text_at(&frame, 2), "NotifyPeriodicEventStream");
}

#[test]
fn malformed_frames_are_dropped() {
    let mut engine = TestEngine::new(KeepaliveBehavior::Disabled);
    assert!(matches!(engine.route(parse("not json")), Inbound::Malformed(_)));
    assert!(matches!(engine.route(parse("[7]")), Inbound::Malformed(_)));
}

#[test]
fn requests_after_disconnect_fail_fast_as_closed() {
    let mut engine = TestEngine::new(KeepaliveBehavior::Disabled);
    assert!(!engine.is_closed());
    assert!(engine.shut_down());
    assert!(engine.is_closed());
    assert!(!engine.shut_down(), "a second shutdown is a no-op");
    assert_eq!(
        engine.start_request("Heartbeat".to_string(), Value::Null, "w").unwrap_err(),
        ClientClosed
    );
    assert_eq!(engine.start_ping("p").unwrap_err(), ClientClosed);
    assert_eq!(
        engine.notification_frame("X".to_string(), Value::Null).unwrap_err(),
        ClientClosed
    );
    assert!(!engine.may_force_reconnect());
    assert_eq!(engine.pending_request_count(), 0);
}

#[test]
fn pongs_resolve_only_the_ping_whose_token_they_echo() {
    let mut engine = TestEngine::new(KeepaliveBehavior::Disabled);
    let (first, payload_a) = engine.start_ping("a").unwrap();
    let (second, payload_b) = engine.start_ping("b").unwrap();
    assert_ne!(first, second);
    assert_ne!(payload_a, payload_b);
    assert_eq!(payload_a.len(), 8);
    assert_eq!(engine.take_pong(&Vec::new()), None);
    assert_eq!(engine.take_pong(&token_payload(99)), None);
    assert_eq!(engine.pending_ping_count(), 2);
    assert_eq!(engine.take_pong(&payload_b), Some("b"));
    engine.forget_ping(first);
    assert_eq!(engine.take_pong(&payload_a), None);
    assert_eq!(engine.pending_ping_count(), 0);
    let (_, _) = engine.start_ping("c").unwrap();
    engine.clear_pings();
    assert_eq!(engine.pending_ping_count(), 0);
}

#[test]
fn ping_interval_reports_and_updates() {
    let mut engine = TestEngine::new(KeepaliveBehavior::Enabled(KeepalivePolicy::every(
        Duration::from_secs(90),
    )));
    assert_eq!(engine.ping_interval(), Some(Duration::from_secs(90)));
    engine.set_ping_interval(Some(Duration::from_secs(30)));
    assert_eq!(engine.ping_interval(), Some(Duration::from_secs(30)));
    engine.set_ping_interval(Some(Duration::zero()));
    assert_eq!(engine.ping_interval(), None);
    engine.set_ping_interval(Some(Duration::from_secs(20)));
    engine.set_ping_interval(None);
    assert_eq!(engine.ping_interval(), None);
    assert_eq!(engine.keepalive_policy().interval, Duration::from_secs(90));
}

#[test]
fn keepalive_is_off_by_default_on_the_bare_engine() {
    let engine = TestEngine::new(KeepaliveBehavior::default());
    assert_eq!(engine.ping_interval(), None);
    assert_eq!(engine.keepalive_policy(), KeepalivePolicy::default());
}
