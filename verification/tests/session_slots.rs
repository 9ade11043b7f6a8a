use roam::session::Parity;
use roam::session_slots::{close_outcome, InboundOpen, RequestError, SessionSlots, SlotKind};

#[test]
fn inbound_opens_are_checked() {
    let mut t = SessionSlots::new(Parity::Odd);
    assert_eq!(t.parity(), Parity::Odd);
    t.activate(0);
    assert_eq!(t.inbound_open(3, true), InboundOpen::RejectParity);
    assert_eq!(t.inbound_open(2, false), InboundOpen::RejectNoAcceptor);
    assert_eq!(t.inbound_open(2, true), InboundOpen::AskAcceptor);
    t.activate(2);
    assert_eq!(t.inbound_open(2, true), InboundOpen::RejectDuplicate);
}

#[test]
fn outbound_opens_resolve_once() {
    let mut t = SessionSlots::new(Parity::Even);
    assert_eq!(t.open_sent(1, false), Err(RequestError::OpenNotSent));
    assert_eq!(t.get(1), None);
    assert_eq!(t.open_sent(1, true), Ok(()));
    assert_eq!(t.get(1), Some(SlotKind::PendingOutbound));
    assert!(t.inbound_accept(1));
    assert_eq!(t.get(1), Some(SlotKind::Active));
    assert!(!t.inbound_accept(1));
    assert!(!t.inbound_reject(1));
    assert_eq!(t.get(1), Some(SlotKind::Active));
    assert_eq!(t.open_sent(3, true), Ok(()));
    assert!(t.inbound_reject(3));
    assert_eq!(t.get(3), None);
    assert!(!t.inbound_accept(3));
}

#[test]
fn closing_connections() {
    let mut t = SessionSlots::new(Parity::Odd);
    t.activate(0);
    t.activate(1);
    assert_eq!(t.begin_close(0), Err(RequestError::CannotCloseRoot));
    assert_eq!(t.begin_close(5), Err(RequestError::NotFound));
    assert_eq!(t.begin_close(1), Ok(()));
    assert_eq!(t.get(1), None);
    assert_eq!(t.get(0), Some(SlotKind::Active));
    assert_eq!(close_outcome(true), Ok(()));
    assert_eq!(close_outcome(false), Err(RequestError::CloseNotSent));
    assert_eq!(RequestError::CannotCloseRoot.message(), "cannot close root connection");
    assert_eq!(RequestError::NotFound.message(), "connection not found");
    assert_eq!(RequestError::OpenNotSent.message(), "failed to send ConnectionOpen");
    assert_eq!(RequestError::CloseNotSent.message(), "failed to send ConnectionClose");
}
