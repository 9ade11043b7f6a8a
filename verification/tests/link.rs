use roam::link::{
    after_failure, call_failure_reconnects, call_outcome, classify_decode_failure, connection_error_to_io,
    negotiate, unknown_hello_version, ConnectionError, HandshakeConfig, IoFailure, IoKind,
    LinkAction, LinkCore, LinkEnd, LinkMessage, Negotiated, RetryStep, TransportError, WireHello,
};

fn link() -> LinkCore {
    LinkCore::new(Negotiated { max_payload_size: 1024, initial_credit: 64 })
}

#[test]
fn handshake_config_defaults_and_hello() {
    let c = HandshakeConfig::default();
    assert_eq!(c.max_payload_size, 1024 * 1024);
    assert_eq!(c.initial_channel_credit, 64 * 1024);
    assert_eq!(
        c.to_hello(),
        WireHello::V2 { max_payload_size: 1024 * 1024, initial_channel_credit: 64 * 1024 }
    );
}

#[test]
fn negotiation_takes_the_smaller_limits() {
    let ours = WireHello::V2 { max_payload_size: 4096, initial_channel_credit: 10 };
    let peers = WireHello::V1 { max_payload_size: 1024, initial_channel_credit: 99 };
    let n = negotiate(&ours, &peers);
    assert_eq!(n, Negotiated { max_payload_size: 1024, initial_credit: 10 });
}

#[test]
fn decode_failures_map_to_rules() {
    assert_eq!(classify_decode_failure(&[0, 3], false), Some("message.hello.unknown-version"));
    assert_eq!(unknown_hello_version(&[0, 3]), Some(3));
    assert_eq!(unknown_hello_version(&[0, 0]), None);
    assert_eq!(classify_decode_failure(&[12], false), Some("message.unknown-variant"));
    assert_eq!(classify_decode_failure(&[1, 2], true), Some("message.decode-error"));
    assert_eq!(classify_decode_failure(&[1, 2], false), None);
}

#[test]
fn incoming_requests_follow_the_rules() {
    let mut l = link();
    assert_eq!(l.accept_request(5, 1, Ok(()), 10), Err("message.conn-id"));
    assert_eq!(l.accept_request(0, 1, Ok(()), 10), Ok(()));
    assert!(l.is_in_flight(0, 1));
    assert_eq!(
        l.accept_request(0, 1, Ok(()), 10),
        Err("call.request-id.duplicate-detection")
    );
    assert_eq!(l.accept_request(0, 2, Err("metadata.bad"), 10), Err("metadata.bad"));
    assert!(!l.is_in_flight(0, 2));
    assert_eq!(l.accept_request(0, 3, Ok(()), 2000), Err("flow.call.payload-limit"));
    assert!(l.finish_request(0, 1));
    assert!(!l.finish_request(0, 1));
}

#[test]
fn data_and_close_checks() {
    let l = link();
    assert_eq!(l.check_data(0, 0, 1), Err("channeling.id.zero-reserved"));
    assert_eq!(l.check_data(0, 4, 4096), Err("flow.call.payload-limit"));
    assert_eq!(l.check_data(9, 4, 1), Err("message.conn-id"));
    assert_eq!(l.check_data(0, 4, 1), Ok(()));
    assert_eq!(l.check_close(0, 0), Err("channeling.id.zero-reserved"));
    assert_eq!(l.check_close(3, 1), Err("message.conn-id"));
    assert_eq!(l.check_close(0, 1), Ok(()));
}

#[test]
fn calls_get_one_response() {
    let mut l = link();
    assert!(!l.start_call(4, 1));
    assert!(l.start_call(0, 1));
    assert!(l.is_pending(0, 1));
    assert!(l.deliver_response(0, 1));
    assert!(!l.deliver_response(0, 1));
}

#[test]
fn virtual_connections_come_and_go() {
    let mut l = link();
    assert_eq!(l.incoming_connect(true), Some("not listening"));
    l.listen();
    assert!(l.is_listening());
    assert_eq!(l.incoming_connect(true), None);
    assert_eq!(l.incoming_connect(false), Some("not listening"));
    let c = l.accept_incoming();
    assert_eq!(c, 1);
    assert!(l.has_connection(1));
    l.start_connect(77);
    assert!(l.connect_accepted(77, 8));
    assert!(l.has_connection(8));
    assert!(!l.connect_accepted(77, 9));
    l.start_connect(78);
    assert!(l.connect_rejected(78));
    assert!(!l.connect_rejected(78));
    assert!(l.start_call(8, 5));
    let failed = l.peer_goodbye(8);
    assert!(!l.has_connection(8));
    assert!(failed.get(&8).unwrap().contains(&5));
    assert!(l.start_call(0, 6));
    let failed = l.goodbye();
    assert!(failed.get(&0).unwrap().contains(&6));
    assert!(!l.is_pending(0, 6));
    let failed = l.peer_goodbye(0);
    assert!(failed.is_empty());
    assert!(!l.has_connection(0));
}

#[test]
fn connection_errors_as_io_failures() {
    let f = connection_error_to_io(ConnectionError::ProtocolViolation {
        rule_id: "message.conn-id",
        context: "x".to_string(),
    });
    assert_eq!(f.kind, IoKind::InvalidData);
    assert_eq!(f.message, "protocol violation: message.conn-id: x");
    let f = connection_error_to_io(ConnectionError::Closed);
    assert_eq!(f.kind, IoKind::ConnectionReset);
    assert_eq!(f.message, "connection closed");
    let f = connection_error_to_io(ConnectionError::Dispatch("boom".to_string()));
    assert_eq!((f.kind, f.message.as_str()), (IoKind::Other, "dispatch error: boom"));
    let io = IoFailure { kind: IoKind::TimedOut, message: "slow".to_string() };
    assert_eq!(ConnectionError::Io(io.clone()).message(), "IO error: slow");
    assert_eq!(connection_error_to_io(ConnectionError::Io(io)).kind, IoKind::TimedOut);
    assert_eq!(ConnectionError::Closed.message(), "connection closed");
}

#[test]
fn retry_and_reconnect_decisions() {
    assert_eq!(after_failure(0, 3), RetryStep::Retry { attempt: 1 });
    assert_eq!(after_failure(1, 3), RetryStep::Retry { attempt: 2 });
    assert_eq!(after_failure(2, 3), RetryStep::GiveUp { attempts: 3 });
    assert!(!call_failure_reconnects(&TransportError::Encode("e".to_string())));
    assert!(call_failure_reconnects(&TransportError::ConnectionClosed));
    assert!(call_failure_reconnects(&TransportError::DriverGone));
}

#[test]
fn call_outcomes() {
    assert!(matches!(call_outcome::<u8, ()>(false, Some(Ok(1))), Err(TransportError::DriverGone)));
    assert!(matches!(call_outcome::<u8, ()>(true, None), Err(TransportError::DriverGone)));
    assert!(matches!(call_outcome::<u8, ()>(true, Some(Err(()))), Err(TransportError::ConnectionClosed)));
    assert!(matches!(call_outcome::<u8, ()>(true, Some(Ok(5))), Ok(5)));
}

#[test]
fn oversized_data_is_refused_whatever_its_length() {
    let l = LinkCore::new(Negotiated { max_payload_size: 1, initial_credit: 64 });
    assert_eq!(l.check_data(0, 3, 2), Err("flow.call.payload-limit"));
    assert_eq!(l.check_data(0, 3, 1), Ok(()));
    if usize::BITS > 32 {
        let huge = (1usize << 32) + 1;
        assert_eq!(l.check_data(0, 3, huge), Err("flow.call.payload-limit"));
    }
}

#[test]
fn messages_step_the_link() {
    let mut l = link();
    // A request on the root connection is dispatched.
    let r = l.handle_message(LinkMessage::Request {
        conn_id: 0,
        request_id: 7,
        metadata_check: Ok(()),
        payload_len: 10,
    });
    assert!(matches!(r, Ok(LinkAction::Dispatch { conn_id: 0, request_id: 7 })));
    // Pings and cancels change nothing.
    assert!(matches!(l.handle_message(LinkMessage::Hello), Ok(LinkAction::Nothing)));
    // An incoming Connect while not listening is rejected.
    assert!(matches!(
        l.handle_message(LinkMessage::Connect { request_id: 1, queued: true }),
        Ok(LinkAction::RejectConnect { request_id: 1, reason: "not listening" })
    ));
    // Our Connect is accepted: the connection opens.
    l.start_connect(4);
    assert!(matches!(
        l.handle_message(LinkMessage::Accept { request_id: 4, conn_id: 2 }),
        Ok(LinkAction::Opened { request_id: 4, conn_id: 2 })
    ));
    assert!(l.has_connection(2));
    assert!(l.start_call(2, 11));
    assert!(l.start_call(0, 12));
    // A response for a waiting call is delivered; a second one is ignored.
    assert!(matches!(
        l.handle_message(LinkMessage::Response { conn_id: 0, request_id: 12 }),
        Ok(LinkAction::Deliver { conn_id: 0, request_id: 12 })
    ));
    assert!(matches!(
        l.handle_message(LinkMessage::Response { conn_id: 0, request_id: 12 }),
        Ok(LinkAction::Nothing)
    ));
    // Credit for an unknown connection is ignored, for a known one forwarded.
    assert!(matches!(
        l.handle_message(LinkMessage::Credit { conn_id: 9, channel_id: 1 }),
        Ok(LinkAction::Nothing)
    ));
    assert!(matches!(
        l.handle_message(LinkMessage::Credit { conn_id: 2, channel_id: 1 }),
        Ok(LinkAction::Forward { conn_id: 2, channel_id: 1 })
    ));
    // Goodbye on connection 2 closes just it, failing its call.
    match l.handle_message(LinkMessage::Goodbye { conn_id: 2 }) {
        Ok(LinkAction::ConnectionClosed { conn_id: 2, failed }) => {
            assert_eq!(failed.get(&2).map(|s| s.len()), Some(1));
        },
        _ => panic!("expected the connection to close"),
    }
    assert!(!l.has_connection(2));
    assert!(l.has_connection(0));
    // Goodbye on the root connection ends the link cleanly.
    assert!(l.start_call(0, 13));
    match l.handle_message(LinkMessage::Goodbye { conn_id: 0 }) {
        Err(LinkEnd::Closed { failed }) => {
            assert_eq!(failed.get(&0).map(|s| s.len()), Some(1));
        },
        _ => panic!("expected the link to close"),
    }
    assert!(!l.has_connection(0));
}

#[test]
fn broken_rules_end_the_link() {
    let mut l = link();
    assert!(l.start_call(0, 5));
    match l.handle_message(LinkMessage::Data { conn_id: 0, channel_id: 0, payload_len: 1 }) {
        Err(LinkEnd::Violation { rule, failed }) => {
            assert_eq!(rule, "channeling.id.zero-reserved");
            assert_eq!(failed.get(&0).map(|s| s.len()), Some(1));
        },
        _ => panic!("expected a violation"),
    }
    assert!(!l.is_pending(0, 5));
    let mut l = link();
    assert!(matches!(
        l.handle_message(LinkMessage::Data { conn_id: 0, channel_id: 3, payload_len: 2048 }),
        Err(LinkEnd::Violation { rule: "flow.call.payload-limit", .. })
    ));
    let mut l = link();
    assert!(matches!(
        l.handle_message(LinkMessage::Close { conn_id: 8, channel_id: 3 }),
        Err(LinkEnd::Violation { rule: "message.conn-id", .. })
    ));
    let mut l = link();
    assert!(matches!(
        l.handle_message(LinkMessage::Request {
            conn_id: 0,
            request_id: 1,
            metadata_check: Err("call.metadata.invalid"),
            payload_len: 1,
        }),
        Err(LinkEnd::Violation { rule: "call.metadata.invalid", .. })
    ));
    let mut l = link();
    assert!(matches!(l.violation("channeling.unknown"), LinkEnd::Violation { rule: "channeling.unknown", .. }));
}
