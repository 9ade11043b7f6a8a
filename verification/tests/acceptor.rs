use roam::acceptor::{
    resume_key_of, route_first_read, session_id_of, FirstRead, IngestError, ReliableAcceptor,
    Route,
};
use roam::memory_link::{MemoryLinkRxError, TxProxy};
use roam::reliable::Packet;
use roam::request_ids::{request_slot_limit, RequestIdGenerator};

#[test]
fn first_read_routing() {
    assert_eq!(
        route_first_read::<u8>(FirstRead::Failed).unwrap_err(),
        IngestError::ReadFailed
    );
    assert_eq!(
        route_first_read::<u8>(FirstRead::Closed).unwrap_err(),
        IngestError::ConnectionClosed
    );
    assert_eq!(
        route_first_read(FirstRead::Packet(Packet::Data { seq: 0, ack: None, item: 1u8 }))
            .unwrap_err(),
        IngestError::ExpectedHello
    );
    assert_eq!(
        route_first_read::<u8>(FirstRead::Packet(Packet::Hello {
            resume_key: None,
            last_received: None
        }))
        .unwrap(),
        Route::NewSession
    );
    assert_eq!(
        route_first_read::<u8>(FirstRead::Packet(Packet::Hello {
            resume_key: Some(vec![1, 2]),
            last_received: Some(4)
        }))
        .unwrap(),
        Route::Reconnect(vec![1, 2])
    );
}

#[test]
fn resume_keys_are_big_endian_counters() {
    assert_eq!(resume_key_of(1), vec![0, 0, 0, 0, 0, 0, 0, 1]);
    assert_eq!(resume_key_of(0x0102_0304_0506_0708), vec![1, 2, 3, 4, 5, 6, 7, 8]);
    assert_eq!(session_id_of(&[1, 2, 3, 4, 5, 6, 7, 8]), Some(0x0102_0304_0506_0708));
    assert_eq!(session_id_of(&[1, 2, 3]), None);
}

#[test]
fn registered_sessions_route_and_removed_ones_do_not() {
    let mut a: ReliableAcceptor<&str> = ReliableAcceptor::new();
    let k1 = a.register("first");
    let k2 = a.register("second");
    assert_eq!(k1, vec![0, 0, 0, 0, 0, 0, 0, 1]);
    assert_eq!(k2, vec![0, 0, 0, 0, 0, 0, 0, 2]);
    assert_ne!(k1, k2);
    assert_eq!(a.session_count(), 2);
    assert_eq!(*a.route(&k1).unwrap(), "first");
    assert_eq!(*a.route(&k2).unwrap(), "second");
    assert_eq!(a.route(&[9; 8]).unwrap_err(), IngestError::UnknownResumeKey);
    assert_eq!(a.route(b"resume-key").unwrap_err(), IngestError::UnknownResumeKey);
    a.remove_session(&k1);
    assert_eq!(a.route(&k1).unwrap_err(), IngestError::UnknownResumeKey);
    assert_eq!(*a.route(&k2).unwrap(), "second");
    a.remove_session(b"short");
    assert_eq!(a.session_count(), 1);
}

#[test]
fn ingest_error_messages() {
    assert_eq!(IngestError::ReadFailed.message(), "failed to read Hello packet");
    assert_eq!(IngestError::ConnectionClosed.message(), "connection closed before Hello");
    assert_eq!(IngestError::ExpectedHello.message(), "first packet was Data, expected Hello");
    assert_eq!(IngestError::UnknownResumeKey.message(), "resume key not found");
    assert_eq!(IngestError::SessionDead.message(), "target session has been dropped");
    assert_eq!(IngestError::HelloFailed.message(), "Hello exchange failed on new session");
    assert_eq!(IngestError::AcceptorFull.message(), "new session backlog full");
}

#[test]
fn request_ids_start_at_one_and_count_up() {
    let mut g = RequestIdGenerator::new();
    assert_eq!(g.next(), 1);
    assert_eq!(g.next(), 2);
    assert_eq!(g.next(), 3);
    let mut d = RequestIdGenerator::default();
    assert_eq!(d.next(), 1);
}

#[test]
fn request_limit_unbounded_only_at_max() {
    assert_eq!(request_slot_limit(u32::MAX), None);
    assert_eq!(request_slot_limit(10), Some(10));
    assert_eq!(request_slot_limit(0), Some(0));
}

#[test]
fn memory_link_values() {
    assert_eq!(MemoryLinkRxError.message(), "memory link rx error (unreachable)");
    let p = TxProxy::from_stream_id(77);
    assert_eq!(p, TxProxy(77));
    assert_eq!(p.stream_id(), 77);
}

#[test]
fn ingest_outcomes_after_routing() {
    assert_eq!(roam::acceptor::reattach_outcome(true), Ok(()));
    assert_eq!(roam::acceptor::reattach_outcome(false), Err(IngestError::SessionDead));
    assert_eq!(roam::acceptor::new_session_outcome(true, true), Ok(()));
    assert_eq!(roam::acceptor::new_session_outcome(false, true), Err(IngestError::HelloFailed));
    assert_eq!(roam::acceptor::new_session_outcome(true, false), Err(IngestError::AcceptorFull));
    assert_eq!(IngestError::AcceptorFull.message(), "new session backlog full");
}
