use roam::envelope::{
    classify_response, encode_response, protocol_error_payload, protocol_error_response,
    CallResponse, EnvelopeError, ProtocolErrorKind,
};
use roam::link::NoDispatcher;
use roam::middleware::{rejection_response, Rejection};

#[test]
fn success_payload_is_value_after_tag() {
    match classify_response(&[0, 5, 104, 101, 108, 108, 111]) {
        Ok(CallResponse::Success(v)) => assert_eq!(v, vec![5, 104, 101, 108, 108, 111]),
        other => panic!("unexpected: {other:?}"),
    }
    match classify_response(&[0]) {
        Ok(CallResponse::Success(v)) => assert!(v.is_empty()),
        other => panic!("unexpected: {other:?}"),
    }
}

#[test]
fn user_error_payload_is_value_after_both_tags() {
    match classify_response(&[1, 0, 9, 9]) {
        Ok(CallResponse::UserError(v)) => assert_eq!(v, vec![9, 9]),
        other => panic!("unexpected: {other:?}"),
    }
}

#[test]
fn protocol_errors_are_recognised() {
    assert!(matches!(
        classify_response(&[1, 1]),
        Ok(CallResponse::ProtocolError(ProtocolErrorKind::UnknownMethod))
    ));
    assert!(matches!(
        classify_response(&[1, 2]),
        Ok(CallResponse::ProtocolError(ProtocolErrorKind::InvalidPayload))
    ));
    assert!(matches!(
        classify_response(&[1, 3, 77]),
        Ok(CallResponse::ProtocolError(ProtocolErrorKind::Cancelled))
    ));
}

#[test]
fn malformed_envelopes_are_refused() {
    assert_eq!(classify_response(&[]).unwrap_err(), EnvelopeError::Empty);
    assert_eq!(classify_response(&[1]).unwrap_err(), EnvelopeError::Truncated);
    assert_eq!(
        classify_response(&[1, 5]).unwrap_err(),
        EnvelopeError::UnknownErrorVariant(5)
    );
    assert_eq!(
        classify_response(&[2, 0]).unwrap_err(),
        EnvelopeError::UnknownResultVariant(2)
    );
}

#[test]
fn envelope_error_messages() {
    assert_eq!(EnvelopeError::Empty.message(), "Empty response from backend");
    assert_eq!(EnvelopeError::Truncated.message(), "Truncated error response");
    assert_eq!(
        EnvelopeError::UnknownErrorVariant(7).message(),
        "Unknown RoamError variant: 7"
    );
    assert_eq!(
        EnvelopeError::UnknownResultVariant(255).message(),
        "Unknown Result variant: 255"
    );
}

#[test]
fn encode_then_classify_round_trips() {
    let cases = vec![
        CallResponse::Success(vec![1, 2, 3]),
        CallResponse::UserError(vec![]),
        CallResponse::UserError(vec![42]),
        CallResponse::ProtocolError(ProtocolErrorKind::Cancelled),
        CallResponse::Rejected(vec![0, 2, 104, 105]),
    ];
    for c in cases {
        let bytes = encode_response(&c);
        let back = classify_response(&bytes).unwrap();
        assert_eq!(format!("{back:?}"), format!("{c:?}"));
    }
    assert_eq!(encode_response(&CallResponse::Success(vec![7])), vec![0, 7]);
    assert_eq!(encode_response(&CallResponse::UserError(vec![7])), vec![1, 0, 7]);
}

#[test]
fn protocol_error_payloads() {
    assert_eq!(protocol_error_payload(ProtocolErrorKind::UnknownMethod), vec![1, 1]);
    assert_eq!(protocol_error_payload(ProtocolErrorKind::InvalidPayload), vec![1, 2]);
    assert_eq!(protocol_error_payload(ProtocolErrorKind::Cancelled), vec![1, 3]);
    let m = protocol_error_response(4, 9, ProtocolErrorKind::Cancelled);
    assert_eq!((m.conn_id, m.request_id), (4, 9));
    assert!(m.channels.is_empty());
    assert_eq!(m.payload, vec![1, 3]);
}

#[test]
fn no_dispatcher_answers_unknown_method() {
    let d = NoDispatcher;
    assert!(d.method_ids().is_empty());
    let m = d.dispatch(3, 0xdead, vec![1, 2, 3], vec![5], 17);
    assert_eq!(m.conn_id, 3);
    assert_eq!(m.request_id, 17);
    assert!(m.channels.is_empty());
    assert_eq!(m.payload, vec![1, 1]);
}

#[test]
fn middleware_rejection_carries_code_and_message() {
    let m = rejection_response(2, 5, &Rejection::permission_denied("no"));
    assert_eq!((m.conn_id, m.request_id), (2, 5));
    assert!(m.channels.is_empty());
    assert_eq!(m.payload, vec![1, 4, 1, 2, 110, 111]);
    match classify_response(&m.payload) {
        Ok(CallResponse::Rejected(body)) => assert_eq!(body, vec![1, 2, 110, 111]),
        other => panic!("unexpected: {other:?}"),
    }
    let long = "é".repeat(100);
    let m = rejection_response(0, 0, &Rejection::internal(&long));
    let mut want = vec![1, 4, 4, 200, 1];
    want.extend_from_slice(long.as_bytes());
    assert_eq!(m.payload, want);
}
