use roam::channel::{
    check_can_send, drain_step, receive, ChannelBinding, DrainForward, IncomingChannelMessage,
    QueuedItem, RxError, TxError, RESERVED_CHANNEL_ID,
};

#[test]
fn unbound_handle_has_no_ids() {
    let b = ChannelBinding::unbound();
    assert_eq!(b.channel_id, RESERVED_CHANNEL_ID);
    assert!(!b.is_bound());
    assert_eq!(b.connection_id(), None);
    assert_eq!(b.channel_id(), None);
    assert_eq!(check_can_send(&b), Err(TxError::Unbound));
}

#[test]
fn bound_handle_reports_ids() {
    let mut b = ChannelBinding::unbound();
    b.bind(3, 7);
    assert!(b.is_bound());
    assert_eq!(b.connection_id(), Some(3));
    assert_eq!(b.channel_id(), Some(7));
    assert_eq!(check_can_send(&b), Ok(()));
}

#[test]
fn bound_to_reserved_id_is_not_usable() {
    let mut b = ChannelBinding::unbound();
    b.bind(1, RESERVED_CHANNEL_ID);
    assert!(!b.is_bound());
    assert_eq!(b.channel_id(), None);
}

#[test]
fn receive_outcomes() {
    let mut b = ChannelBinding::unbound();
    assert_eq!(receive(&b, None), Err(RxError::Unbound));
    b.bind(2, 5);
    assert_eq!(receive(&b, None), Ok(None));
    assert_eq!(receive(&b, Some(IncomingChannelMessage::Close)), Ok(None));
    assert_eq!(receive(&b, Some(IncomingChannelMessage::Reset)), Err(RxError::Reset));
    assert_eq!(
        receive(&b, Some(IncomingChannelMessage::OtherMessage)),
        Err(RxError::Protocol("expected ChannelItem message".to_string()))
    );
    let item = IncomingChannelMessage::Item { conn_id: 2, channel_id: 5, payload: vec![9, 8] };
    assert_eq!(receive(&b, Some(item)), Ok(Some(vec![9, 8])));
    let stray = IncomingChannelMessage::Item { conn_id: 2, channel_id: 6, payload: vec![1] };
    assert_eq!(
        receive(&b, Some(stray)),
        Err(RxError::Protocol(
            "received item for unexpected channel: got (2, 6) expected (2, 5)".to_string()
        ))
    );
}

#[test]
fn error_messages() {
    assert_eq!(RxError::Unbound.message(), "channel is not bound");
    assert_eq!(RxError::Reset.message(), "channel reset by peer");
    assert_eq!(RxError::Protocol("x".to_string()).message(), "protocol error: x");
    assert_eq!(TxError::Unbound.message(), "channel is not bound");
    assert_eq!(TxError::Transport("gone".to_string()).message(), "transport error: gone");
}

#[test]
fn drain_forwards_data_then_close() {
    assert_eq!(
        drain_step(1, 4, Some(QueuedItem::Data(vec![7, 8]))),
        (DrainForward::Data { conn_id: 1, channel_id: 4, payload: vec![7, 8] }, true)
    );
    assert_eq!(
        drain_step(1, 4, Some(QueuedItem::Close)),
        (DrainForward::Close { conn_id: 1, channel_id: 4 }, false)
    );
    assert_eq!(drain_step(2, 9, None), (DrainForward::Close { conn_id: 2, channel_id: 9 }, false));
}
