use roam::session::{
    acceptor, initiator, ConnectionId, ConnectionSettings, ConnectionSlot, Hello, Message,
    MessagePayload, Parity, Session, SessionError, SessionEvent, PROTOCOL_VERSION,
};

fn settings(max_concurrent_requests: u32) -> ConnectionSettings {
    ConnectionSettings { max_concurrent_requests }
}

fn handshake(init_max: u32, acc_max: u32) -> (Session, Session) {
    let init = initiator().parity(Parity::Odd).root_settings(settings(init_max));
    let hello = init.hello();
    let acc = acceptor().root_settings(settings(acc_max)).establish(Some(hello));
    let reply = acc.send.expect("acceptor answers with HelloYourself");
    let acceptor_session = acc.result.expect("acceptor handshake should succeed");
    let initiator_session = init
        .establish(Some(reply))
        .result
        .expect("initiator handshake should succeed");
    (initiator_session, acceptor_session)
}

#[test]
fn handshake_establishes_root_connection() {
    let (initiator, acceptor) = handshake(17, 33);
    assert_eq!(initiator.local_session_parity(), Parity::Odd);
    assert_eq!(initiator.peer_session_parity(), Parity::Even);
    assert_eq!(acceptor.local_session_parity(), Parity::Even);
    assert_eq!(acceptor.peer_session_parity(), Parity::Odd);
    let root = initiator.connection(ConnectionId::root()).expect("root exists");
    assert_eq!(root.local_settings.max_concurrent_requests, 17);
    assert_eq!(root.peer_settings.max_concurrent_requests, 33);
    let acc_root = acceptor.connection(ConnectionId::root()).expect("root exists");
    assert_eq!(acc_root.local_settings.max_concurrent_requests, 33);
    assert_eq!(acc_root.peer_settings.max_concurrent_requests, 17);
}

#[test]
fn open_accept_and_close_virtual_connection() {
    let (mut initiator, mut acceptor) = handshake(10, 20);
    let conn_id = ConnectionId(1);
    let open = initiator
        .open_connection(conn_id, Parity::Even, settings(111), vec![])
        .expect("open_connection should produce OpenConnection");
    initiator.record_outbound_open(conn_id, Parity::Even, settings(111));

    let handled = acceptor.handle_incoming(open);
    match handled.result.expect("acceptor should get event") {
        SessionEvent::IncomingConnectionOpen { conn_id: opened, peer_parity, peer_settings, .. } => {
            assert_eq!(opened, conn_id);
            assert_eq!(peer_parity, Parity::Even);
            assert_eq!(peer_settings.max_concurrent_requests, 111);
        }
        other => panic!("expected IncomingConnectionOpen, got {other:?}"),
    }

    let accept = acceptor
        .accept_connection(conn_id, settings(222), vec![])
        .expect("accept_connection should produce AcceptConnection");
    let accepted = initiator.handle_incoming(accept);
    assert!(matches!(
        accepted.result,
        Ok(SessionEvent::OutgoingConnectionAccepted { conn_id: ConnectionId(1) })
    ));

    let state = initiator.connection(conn_id).expect("initiator connection should be active");
    assert_eq!(state.local_parity, Parity::Even);
    assert_eq!(state.peer_parity, Parity::Odd);
    assert_eq!(state.local_settings.max_concurrent_requests, 111);
    assert_eq!(state.peer_settings.max_concurrent_requests, 222);

    let close = initiator
        .close_connection(conn_id, vec![])
        .expect("close_connection should produce CloseConnection");
    assert!(initiator.connection(conn_id).is_none());
    let closed = acceptor.handle_incoming(close);
    match closed.result {
        Ok(SessionEvent::ConnectionClosed { conn_id: c, metadata }) => {
            assert_eq!(c, conn_id);
            assert!(metadata.is_empty());
        }
        other => panic!("expected ConnectionClosed, got {other:?}"),
    }
    assert!(acceptor.connection(conn_id).is_none());
}

#[test]
fn acceptor_rejects_invalid_hello_version_with_protocol_error() {
    let hello = Message {
        connection_id: ConnectionId::root(),
        payload: MessagePayload::Hello(Hello {
            version: PROTOCOL_VERSION + 1,
            parity: Parity::Odd,
            connection_settings: settings(5),
            metadata: vec![],
        }),
    };
    let h = acceptor().root_settings(settings(1)).establish(Some(hello));
    match h.send.expect("protocol error message").payload {
        MessagePayload::ProtocolError(err) => {
            assert!(err.description.contains("unsupported Hello version"))
        }
        other => panic!("expected ProtocolError, got {other:?}"),
    }
    match h.result {
        Err(SessionError::ProtocolViolation(msg)) => {
            assert!(msg.contains("unsupported Hello version"));
            assert_eq!(msg, format!("unsupported Hello version {}", PROTOCOL_VERSION + 1));
        }
        other => panic!("expected ProtocolViolation error, got {other:?}"),
    }
}

#[test]
fn handshake_eof_and_wrong_first_message() {
    let h = acceptor().establish(None);
    assert!(matches!(h.result, Err(SessionError::UnexpectedEof("waiting for Hello"))));
    assert!(h.send.is_none());
    let h = initiator().establish(None);
    assert!(matches!(h.result, Err(SessionError::UnexpectedEof("waiting for HelloYourself"))));
    let not_hello = Message {
        connection_id: ConnectionId::root(),
        payload: MessagePayload::Request(vec![1]),
    };
    let h = acceptor().establish(Some(not_hello));
    match h.result {
        Err(e) => assert_eq!(e.message(), "protocol violation: expected Hello during handshake"),
        Ok(_) => panic!("expected an error"),
    }
}

#[test]
fn open_connection_checks() {
    let (initiator, _) = handshake(1, 1);
    let e = initiator
        .open_connection(ConnectionId::root(), Parity::Odd, settings(1), vec![])
        .unwrap_err();
    assert_eq!(e.message(), "invalid state: cannot open root connection");
    let e = initiator
        .open_connection(ConnectionId(2), Parity::Odd, settings(1), vec![])
        .unwrap_err();
    assert_eq!(
        e.message(),
        "invalid state: connection id 2 does not match local session parity Odd"
    );
}

#[test]
fn rpc_messages_need_active_connection() {
    let (mut initiator, mut acceptor) = handshake(1, 1);
    let on_root = Message {
        connection_id: ConnectionId::root(),
        payload: MessagePayload::Request(vec![9]),
    };
    assert!(initiator.send_rpc_message(&on_root).is_ok());
    let unknown = Message {
        connection_id: ConnectionId(7),
        payload: MessagePayload::Request(vec![9]),
    };
    let e = initiator.send_rpc_message(&unknown).unwrap_err();
    assert_eq!(e.message(), "invalid state: connection 7 is not active");
    let handled = acceptor.handle_incoming(on_root);
    assert!(matches!(handled.result, Ok(SessionEvent::IncomingMessage(_))));
    let h = acceptor.handle_incoming(unknown);
    assert!(h.result.is_err());
    assert!(h.protocol_error.is_some());
    assert!(!acceptor.is_open());
    initiator.close();
    assert!(!initiator.is_open());
}

#[test]
fn reject_pending_inbound_open() {
    let (mut initiator, mut acceptor) = handshake(1, 1);
    let open = initiator
        .open_connection(ConnectionId(3), Parity::Even, settings(4), vec![])
        .unwrap();
    initiator.record_outbound_open(ConnectionId(3), Parity::Even, settings(4));
    assert!(acceptor.handle_incoming(open).result.is_ok());
    let reject = acceptor.reject_connection(ConnectionId(3), vec![]).unwrap();
    let h = initiator.handle_incoming(reject);
    assert!(matches!(
        h.result,
        Ok(SessionEvent::OutgoingConnectionRejected { conn_id: ConnectionId(3), .. })
    ));
    assert!(initiator.connection(ConnectionId(3)).is_none());
    let e = acceptor.reject_connection(ConnectionId(3), vec![]).unwrap_err();
    assert_eq!(e.message(), "invalid state: no pending inbound open for 3");
    let _ = ConnectionSlot::PendingInbound {
        peer_parity: Parity::Odd,
        peer_settings: settings(1),
    };
}
