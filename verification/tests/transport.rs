use ocpp_client::ids::new_message_id;
use ocpp_client::transport::{token_of_payload, token_payload, PongWaiters};
use ocpp_client::TransportEvent;

#[test]
fn a_token_travels_as_eight_big_endian_bytes() {
    assert_eq!(token_payload(0), vec![0, 0, 0, 0, 0, 0, 0, 0]);
    assert_eq!(token_payload(1), vec![0, 0, 0, 0, 0, 0, 0, 1]);
    assert_eq!(
        token_payload(0x0102_0304_0506_0708),
        vec![1, 2, 3, 4, 5, 6, 7, 8]
    );
    assert_eq!(token_payload(u64::MAX), vec![255; 8]);
}

#[test]
fn a_pong_payload_reads_back_its_token() {
    for token in [0u64, 1, 255, 256, 0xdead_beef, u64::MAX] {
        assert_eq!(token_of_payload(&token_payload(token)), Some(token));
    }
    assert_eq!(token_of_payload(&Vec::new()), None);
    assert_eq!(token_of_payload(&vec![1, 2, 3]), None);
    assert_eq!(token_of_payload(&vec![0; 9]), None);
}

#[test]
fn distinct_tokens_travel_as_distinct_payloads() {
    assert_ne!(token_payload(1), token_payload(2));
    assert_ne!(token_payload(0), token_payload(1 << 56));
}

#[test]
fn each_ping_gets_the_next_token() {
    let mut waiters: PongWaiters<&str> = PongWaiters::new();
    let (first, payload) = waiters.register("first");
    assert_eq!(first, 0);
    assert_eq!(payload, token_payload(0));
    let (second, _) = waiters.register("second");
    assert_eq!(second, 1);
    assert_eq!(waiters.len(), 2);
}

#[test]
fn a_pong_resolves_only_the_ping_whose_payload_it_echoes() {
    let mut waiters: PongWaiters<&str> = PongWaiters::new();
    let (_, first) = waiters.register("first");
    let (_, second) = waiters.register("second");
    assert_eq!(waiters.take_for_pong(&second), Some("second"));
    assert_eq!(waiters.take_for_pong(&second), None);
    assert_eq!(waiters.take_for_pong(&b"hello".to_vec()), None);
    assert_eq!(waiters.take_for_pong(&token_payload(99)), None);
    assert_eq!(waiters.len(), 1);
    assert_eq!(waiters.take_for_pong(&first), Some("first"));
    assert_eq!(waiters.len(), 0);
}

#[test]
fn a_forgotten_ping_is_not_resolved_later() {
    let mut waiters: PongWaiters<u8> = PongWaiters::new();
    let (token, payload) = waiters.register(7);
    waiters.forget(token);
    assert_eq!(waiters.len(), 0);
    assert_eq!(waiters.take_for_pong(&payload), None);
    let (next, _) = waiters.register(8);
    assert_eq!(next, token + 1);
}

#[test]
fn clearing_drops_every_waiter_but_keeps_counting() {
    let mut waiters: PongWaiters<u8> = PongWaiters::new();
    waiters.register(1);
    waiters.register(2);
    waiters.clear();
    assert_eq!(waiters.len(), 0);
    let (token, _) = waiters.register(3);
    assert_eq!(token, 2);
}

#[test]
fn transport_events_compare_by_content() {
    assert_eq!(
        TransportEvent::Frame("[2]".to_string()),
        TransportEvent::Frame("[2]".to_string())
    );
    assert_ne!(TransportEvent::Ping(vec![1]), TransportEvent::Pong(vec![1]));
}

#[test]
fn message_ids_are_fresh_hyphenated_uuids() {
    let (a, a_text) = new_message_id();
    let (b, b_text) = new_message_id();
    assert_ne!(a, b);
    assert_eq!(a_text, uuid::Uuid::from_u128(a).to_string());
    assert_eq!(uuid::Uuid::parse_str(&b_text).unwrap().as_u128(), b);
    assert_eq!(a_text.len(), 36);
    assert_eq!(uuid::Uuid::from_u128(a).get_version_num(), 4);
}
