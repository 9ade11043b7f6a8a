//! The response envelope of a unary call.
//!
//! A response payload is a postcard-encoded `Result<T, RoamError<E>>`:
//! a leading tag byte `0` followed by the encoded value for `Ok`, or a tag
//! byte `1` followed by the encoded `RoamError` for `Err`. `RoamError`
//! itself starts with its own tag: `User(E)` is `0` (followed by the encoded
//! user error), `UnknownMethod` is `1`, `InvalidPayload` is `2`,
//! `Cancelled` is `3` and `Rejected` is `4` (followed by the encoded
//! rejection a middleware gave: its code and its message).
//!
//! `Rejected` extends the four-variant `RoamError` wire format so that a
//! rejection reaches the caller with its code and message; a peer that knows
//! only the first four variants reports tag `4` as an unknown variant.
use vstd::prelude::*;

use crate::text::{decimal, push_decimal};

verus! {

/// The protocol-level errors a call can end with.
#[derive(Debug, Clone, Copy, PartialEq, Eq, Structural)]
pub enum ProtocolErrorKind {
    /// The callee serves no method with the requested id.
    UnknownMethod,
    /// The callee could not decode the arguments.
    InvalidPayload,
    /// The call was cancelled before it completed.
    Cancelled,
}

/// The `RoamError` tag of a protocol error.
pub open spec fn kind_tag(k: ProtocolErrorKind) -> u8 {
    match k {
        ProtocolErrorKind::UnknownMethod => 1u8,
        ProtocolErrorKind::InvalidPayload => 2u8,
        ProtocolErrorKind::Cancelled => 3u8,
    }
}

/// The encoded `Err(RoamError::...)` of a protocol error.
pub open spec fn protocol_error_bytes(k: ProtocolErrorKind) -> Seq<u8> {
    seq![1u8, kind_tag(k)]
}

/// A classified response: the raw encoded value for success and for a user
/// error, or the protocol error.
#[derive(Debug, Clone)]
pub enum CallResponse {
    Success(Vec<u8>),
    UserError(Vec<u8>),
    ProtocolError(ProtocolErrorKind),
    /// A middleware rejected the call; the encoded rejection.
    Rejected(Vec<u8>),
}

/// What a classified response means, over byte sequences.
pub enum ResponseView {
    Success(Seq<u8>),
    UserError(Seq<u8>),
    ProtocolError(ProtocolErrorKind),
    Rejected(Seq<u8>),
}

impl View for CallResponse {
    type V = ResponseView;

    open spec fn view(&self) -> ResponseView {
        match self {
            CallResponse::Success(v) => ResponseView::Success(v@),
            CallResponse::UserError(v) => ResponseView::UserError(v@),
            CallResponse::ProtocolError(k) => ResponseView::ProtocolError(*k),
            CallResponse::Rejected(v) => ResponseView::Rejected(v@),
        }
    }
}

/// Why a response payload could not be classified.
#[derive(Debug, Clone, Copy, PartialEq, Eq, Structural)]
pub enum EnvelopeError {
    /// The payload is empty.
    Empty,
    /// The payload is an `Err` without a `RoamError` tag.
    Truncated,
    /// The `RoamError` tag is none of the five known ones.
    UnknownErrorVariant(u8),
    /// The `Result` tag is neither `0` nor `1`.
    UnknownResultVariant(u8),
}

/// The classification of a response payload.
pub open spec fn classify(b: Seq<u8>) -> Result<ResponseView, EnvelopeError> {
    if b.len() == 0 {
        Err(EnvelopeError::Empty)
    } else if b[0] == 0 {
        Ok(ResponseView::Success(b.subrange(1, b.len() as int)))
    } else if b[0] == 1 {
        if b.len() < 2 {
            Err(EnvelopeError::Truncated)
        } else if b[1] == 0 {
            Ok(ResponseView::UserError(b.subrange(2, b.len() as int)))
        } else if b[1] == 1 {
            Ok(ResponseView::ProtocolError(ProtocolErrorKind::UnknownMethod))
        } else if b[1] == 2 {
            Ok(ResponseView::ProtocolError(ProtocolErrorKind::InvalidPayload))
        } else if b[1] == 3 {
            Ok(ResponseView::ProtocolError(ProtocolErrorKind::Cancelled))
        } else if b[1] == 4 {
            Ok(ResponseView::Rejected(b.subrange(2, b.len() as int)))
        } else {
            Err(EnvelopeError::UnknownErrorVariant(b[1]))
        }
    } else {
        Err(EnvelopeError::UnknownResultVariant(b[0]))
    }
}

/// The payload that encodes a response.
pub open spec fn encode(r: ResponseView) -> Seq<u8> {
    match r {
        ResponseView::Success(v) => seq![0u8] + v,
        ResponseView::UserError(e) => seq![1u8, 0u8] + e,
        ResponseView::ProtocolError(k) => protocol_error_bytes(k),
        ResponseView::Rejected(x) => seq![1u8, 4u8] + x,
    }
}

/// The view of a classification result.
pub open spec fn classified_view(r: Result<CallResponse, EnvelopeError>) -> Result<
    ResponseView,
    EnvelopeError,
> {
    match r {
        Ok(c) => Ok(c@),
        Err(e) => Err(e),
    }
}

/// Copies `bytes[start..]`.
fn tail_from(bytes: &[u8], start: usize) -> (v: Vec<u8>)
    requires
        start <= bytes@.len(),
    ensures
        v@ == bytes@.subrange(start as int, bytes@.len() as int),
{
    let mut v: Vec<u8> = Vec::new();
    let mut i: usize = start;
    while i < bytes.len()
        invariant
            start <= i <= bytes@.len(),
            v@ == bytes@.subrange(start as int, i as int),
        decreases bytes.len() - i,
    {
        v.push(bytes[i]);
        assert(bytes@.subrange(start as int, i + 1) == bytes@.subrange(start as int, i as int).push(
            bytes@[i as int],
        ));
        i = i + 1;
    }
    v
}

/// Classifies a response payload by its `Result` and `RoamError` tags.
pub fn classify_response(bytes: &[u8]) -> (r: Result<CallResponse, EnvelopeError>)
    ensures
        classified_view(r) == classify(bytes@),
{
    if bytes.len() == 0 {
        return Err(EnvelopeError::Empty);
    }
    match bytes[0] {
        0u8 => Ok(CallResponse::Success(tail_from(bytes, 1))),
        1u8 => {
            if bytes.len() < 2 {
                return Err(EnvelopeError::Truncated);
            }
            match bytes[1] {
                0u8 => Ok(CallResponse::UserError(tail_from(bytes, 2))),
                1u8 => Ok(CallResponse::ProtocolError(ProtocolErrorKind::UnknownMethod)),
                2u8 => Ok(CallResponse::ProtocolError(ProtocolErrorKind::InvalidPayload)),
                3u8 => Ok(CallResponse::ProtocolError(ProtocolErrorKind::Cancelled)),
                4u8 => Ok(CallResponse::Rejected(tail_from(bytes, 2))),
                tag => Err(EnvelopeError::UnknownErrorVariant(tag)),
            }
        },
        tag => Err(EnvelopeError::UnknownResultVariant(tag)),
    }
}

/// The encoded `Err(RoamError::...)` of a protocol error.
pub fn protocol_error_payload(kind: ProtocolErrorKind) -> (p: Vec<u8>)
    ensures
        p@ == protocol_error_bytes(kind),
{
    let tag: u8 = match kind {
        ProtocolErrorKind::UnknownMethod => 1u8,
        ProtocolErrorKind::InvalidPayload => 2u8,
        ProtocolErrorKind::Cancelled => 3u8,
    };
    let p = vec![1u8, tag];
    assert(p@ =~= protocol_error_bytes(kind));
    p
}

/// Two tag bytes followed by `body`.
fn prefixed(a: u8, b: u8, body: &Vec<u8>) -> (p: Vec<u8>)
    ensures
        p@ == seq![a, b] + body@,
{
    let mut p = vec![a, b];
    let mut i: usize = 0;
    while i < body.len()
        invariant
            i <= body@.len(),
            p@ == seq![a, b] + body@.subrange(0, i as int),
        decreases body.len() - i,
    {
        p.push(body[i]);
        assert(body@.subrange(0, i + 1) == body@.subrange(0, i as int).push(body@[i as int]));
        i = i + 1;
    }
    assert(body@.subrange(0, body@.len() as int) == body@);
    p
}

/// Encodes a response as its payload.
pub fn encode_response(r: &CallResponse) -> (p: Vec<u8>)
    ensures
        p@ == encode(r@),
{
    match r {
        CallResponse::Success(v) => {
            let mut p = vec![0u8];
            let mut i: usize = 0;
            while i < v.len()
                invariant
                    i <= v@.len(),
                    p@ == seq![0u8] + v@.subrange(0, i as int),
                decreases v.len() - i,
            {
                p.push(v[i]);
                assert(v@.subrange(0, i + 1) == v@.subrange(0, i as int).push(v@[i as int]));
                i = i + 1;
            }
            assert(v@.subrange(0, v@.len() as int) == v@);
            p
        },
        CallResponse::UserError(e) => {
            let mut p = vec![1u8, 0u8];
            let mut i: usize = 0;
            while i < e.len()
                invariant
                    i <= e@.len(),
                    p@ == seq![1u8, 0u8] + e@.subrange(0, i as int),
                decreases e.len() - i,
            {
                p.push(e[i]);
                assert(e@.subrange(0, i + 1) == e@.subrange(0, i as int).push(e@[i as int]));
                i = i + 1;
            }
            assert(e@.subrange(0, e@.len() as int) == e@);
            p
        },
        CallResponse::ProtocolError(k) => protocol_error_payload(*k),
        CallResponse::Rejected(x) => prefixed(1u8, 4u8, x),
    }
}

/// The text of a classification failure.
pub open spec fn envelope_error_text(e: EnvelopeError) -> Seq<char> {
    match e {
        EnvelopeError::Empty => "Empty response from backend"@,
        EnvelopeError::Truncated => "Truncated error response"@,
        EnvelopeError::UnknownErrorVariant(t) => "Unknown RoamError variant: "@ + decimal(t as nat),
        EnvelopeError::UnknownResultVariant(t) => "Unknown Result variant: "@ + decimal(t as nat),
    }
}

impl EnvelopeError {
    /// The human-readable description of the failure.
    pub fn message(&self) -> (s: String)
        ensures
            s@ == envelope_error_text(*self),
    {
        match self {
            EnvelopeError::Empty => "Empty response from backend".to_string(),
            EnvelopeError::Truncated => "Truncated error response".to_string(),
            EnvelopeError::UnknownErrorVariant(t) => {
                let mut s = "Unknown RoamError variant: ".to_string();
                push_decimal(&mut s, *t as u64);
                s
            },
            EnvelopeError::UnknownResultVariant(t) => {
                let mut s = "Unknown Result variant: ".to_string();
                push_decimal(&mut s, *t as u64);
                s
            },
        }
    }
}

/// A response to put on a connection: which call it answers, the channels
/// it carries and its payload.
#[derive(Debug, Clone)]
pub struct ResponseMessage {
    pub conn_id: u64,
    pub request_id: u64,
    pub channels: Vec<u64>,
    pub payload: Vec<u8>,
}

/// The response that ends a call with a protocol error, carrying no
/// channels.
pub fn protocol_error_response(conn_id: u64, request_id: u64, kind: ProtocolErrorKind) -> (m:
    ResponseMessage)
    ensures
        m.conn_id == conn_id,
        m.request_id == request_id,
        m.channels@ == Seq::<u64>::empty(),
        m.payload@ == protocol_error_bytes(kind),
{
    ResponseMessage {
        conn_id,
        request_id,
        channels: Vec::new(),
        payload: protocol_error_payload(kind),
    }
}

/// Classifying an encoded response gives back that response.
pub proof fn law_classify_inverts_encode(r: ResponseView)
    ensures
        classify(encode(r)) == Ok::<ResponseView, EnvelopeError>(r),
{
    match r {
        ResponseView::Success(v) => {
            assert((seq![0u8] + v).subrange(1, (seq![0u8] + v).len() as int) =~= v);
        },
        ResponseView::UserError(e) => {
            assert((seq![1u8, 0u8] + e).subrange(2, (seq![1u8, 0u8] + e).len() as int) =~= e);
        },
        ResponseView::ProtocolError(k) => {},
        ResponseView::Rejected(x) => {
            assert((seq![1u8, 4u8] + x).subrange(2, (seq![1u8, 4u8] + x).len() as int) =~= x);
        },
    }
}

} // verus!
