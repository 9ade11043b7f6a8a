use roam::link::IoKind;
use roam::reliable::{hello_from_read, Inbound, Packet, ReliableCore, ReliableLinkError};
use roam::rpc_driver::{RequestAction, RequestBodyKind, RpcDriver};
use roam::stable::{
    accept_server_hello, answer_client_hello, fresh_key, frames_to_replay, key_from_nanos,
    ClientHello, ServerHello, StableConduitError, StableCore,
};

#[test]
fn reliable_delivers_in_order_once() {
    let mut a: ReliableCore<&str> = ReliableCore::new();
    let mut b: ReliableCore<&str> = ReliableCore::new();
    let p0 = a.send("alpha");
    let p1 = a.send("beta");
    assert_eq!(a.unacked(), 2);
    assert!(matches!(b.receive(p0), Inbound::Deliver("alpha")));
    assert!(matches!(b.receive(p1), Inbound::Deliver("beta")));
    assert_eq!(b.rx_delivered(), Some(1));
    assert!(matches!(
        b.receive(Packet::Data { seq: 0, ack: None, item: "alpha" }),
        Inbound::Duplicate
    ));
    assert!(matches!(
        b.receive(Packet::Data { seq: 5, ack: None, item: "x" }),
        Inbound::Gap { expected: 2, got: 5 }
    ));
    assert!(matches!(
        b.receive(Packet::Hello { resume_key: None, last_received: None }),
        Inbound::SkipHello
    ));
    assert_eq!(a.unacked_seq(1), 1);
    let ack = b.send("ack-for-both");
    assert!(matches!(a.receive(ack), Inbound::Deliver("ack-for-both")));
    assert_eq!(a.unacked(), 0);
}

#[test]
fn stable_replays_only_what_the_peer_missed() {
    let mut c = StableCore::new(b"resume-key-for-test".to_vec());
    let g = c.link_generation();
    let (s0, ack0) = c.begin_send(g).unwrap();
    c.record_sent(s0, b"alpha".to_vec());
    let (s1, _) = c.begin_send(g).unwrap();
    c.record_sent(s1, b"beta".to_vec());
    assert_eq!((s0, s1, ack0), (0, 1, None));
    assert!(!c.receive_frame(0, Some(0)));
    let frames = c.replay_frames();
    assert_eq!(frames, vec![(1, b"beta".to_vec())]);
    let resend = frames_to_replay(frames.clone(), Some(0));
    assert_eq!(resend, vec![(1, b"beta".to_vec())]);
    assert!(frames_to_replay(frames, Some(1)).is_empty());
    assert!(c.install_link(g, b"resume-key-2".to_vec()));
    assert!(matches!(c.begin_send(g), Err(StableConduitError::LinkDead)));
    assert!(!c.install_link(g, b"other".to_vec()));
    let hello = c.client_hello();
    assert_eq!(hello.resume_key, Some(b"resume-key-2".to_vec()));
    assert_eq!(hello.last_received, Some(0));
}

#[test]
fn stable_skips_duplicate_frames() {
    let mut c = StableCore::new(b"key".to_vec());
    assert!(!c.receive_frame(0, None));
    assert!(c.receive_frame(0, None));
    assert!(!c.receive_frame(1, None));
    assert_eq!(c.last_received(), Some(1));
}

#[test]
fn stable_handshake_answers() {
    let client = ClientHello { resume_key: Some(b"known-key".to_vec()), last_received: Some(4) };
    let (server, replay_from) = answer_client_hello(&client, b"k2".to_vec(), Some(9));
    assert_eq!(server.resume_key, b"k2".to_vec());
    assert_eq!(server.last_received, Some(9));
    assert!(!server.rejected);
    assert_eq!(replay_from, Some(4));
    let lost = ServerHello { resume_key: vec![], last_received: None, rejected: true };
    assert!(matches!(accept_server_hello(lost), Err(StableConduitError::SessionLost)));
    let ok = ServerHello { resume_key: vec![1], last_received: Some(2), rejected: false };
    assert_eq!(accept_server_hello(ok).unwrap(), (vec![1], Some(2)));
    assert_eq!(
        StableConduitError::SessionLost.message(),
        "session lost: server rejected resume key"
    );
    assert_eq!(StableConduitError::LinkDead.message(), "link dead");
    assert_eq!(StableConduitError::Setup("s".to_string()).message(), "setup error: s");
}

#[test]
fn resume_keys_from_the_clock() {
    let k = key_from_nanos(0x0102_0304_0506_0708_090a);
    assert_eq!(k, vec![0x0a, 0x09, 8, 7, 6, 5, 4, 3, 0, 0, 0, 0, 0, 0, 0, 0]);
    let f = fresh_key();
    assert_eq!(f.len(), 16);
    assert!(f[8..].iter().all(|b| *b == 0));
}

#[test]
fn rpc_driver_routes_requests_and_credit() {
    let mut d = RpcDriver::new();
    d.register_call(3);
    assert!(d.is_pending(3));
    assert_eq!(d.on_request(3, RequestBodyKind::Response), RequestAction::Deliver);
    assert_eq!(d.on_request(3, RequestBodyKind::Response), RequestAction::Ignore);
    assert_eq!(d.on_request(4, RequestBodyKind::Call), RequestAction::Dispatch);
    assert_eq!(d.on_request(4, RequestBodyKind::Cancel), RequestAction::Ignore);
    d.register_call(5);
    d.abandon_call(5);
    assert!(!d.is_pending(5));
    d.open_channel(9, 10);
    d.grant_credit(9, 5);
    assert_eq!(d.credit(9), Some(15));
    d.grant_credit(9, u32::MAX);
    assert_eq!(d.credit(9), Some(u32::MAX));
    d.grant_credit(10, 5);
    assert_eq!(d.credit(10), None);
}

#[test]
fn reliable_link_errors_and_hello_reads() {
    assert_eq!(ReliableLinkError::Transport("reset".to_string()).message(), "transport error: reset");
    assert_eq!(
        ReliableLinkError::SequenceGap { expected: 4, got: 19 }.message(),
        "sequence gap: expected 4, got 19"
    );
    let f = hello_from_read::<u8>(Err("boom".to_string())).unwrap_err();
    assert_eq!((f.kind, f.message.as_str()), (IoKind::ConnectionReset, "boom"));
    let f = hello_from_read::<u8>(Ok(None)).unwrap_err();
    assert_eq!((f.kind, f.message.as_str()), (IoKind::UnexpectedEof, "connection closed before Hello"));
    let f = hello_from_read(Ok(Some(Packet::Data { seq: 0, ack: None, item: 1u8 }))).unwrap_err();
    assert_eq!((f.kind, f.message.as_str()), (IoKind::InvalidData, "expected Hello, got Data"));
    let h = hello_from_read::<u8>(Ok(Some(Packet::Hello { resume_key: Some(vec![1]), last_received: Some(3) })));
    assert_eq!(h.unwrap(), (Some(vec![1]), Some(3)));
}

#[test]
fn frames_are_numbered_from_zero_without_gaps() {
    let mut c = StableCore::new(b"k".to_vec());
    let g = c.link_generation();
    for i in 0..5u32 {
        let (s, _) = c.begin_send(g).unwrap();
        assert_eq!(s, i);
    }
    assert!(matches!(c.begin_send(g + 1), Err(StableConduitError::LinkDead)));
    let (s, _) = c.begin_send(g).unwrap();
    assert_eq!(s, 5);
}
