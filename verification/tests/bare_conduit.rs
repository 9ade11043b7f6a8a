use roam::bare_conduit::{recv_outcome, BareConduitError};
use roam::link::{IoFailure, IoKind};

#[test]
fn bare_conduit_error_messages() {
    assert_eq!(BareConduitError::Encode("too big".to_string()).message(), "encode error: too big");
    assert_eq!(BareConduitError::Decode("eof".to_string()).message(), "decode error: eof");
    let io = IoFailure { kind: IoKind::BrokenPipe, message: "broken pipe".to_string() };
    assert_eq!(BareConduitError::Io(io).message(), "io error: broken pipe");
    assert_eq!(BareConduitError::LinkDead.message(), "link dead");
}

#[test]
fn bare_receive_outcomes() {
    assert!(matches!(recv_outcome::<()>(Err(())), Err(BareConduitError::LinkDead)));
    assert!(matches!(recv_outcome::<()>(Ok(None)), Ok(None)));
    assert_eq!(recv_outcome::<()>(Ok(Some(vec![1, 2]))).unwrap(), Some(vec![1, 2]));
}
