//! The decisions of the connection driver for message-based transports:
//! the Hello negotiation, the bookkeeping of virtual connections, of
//! outstanding calls and of in-flight server requests, and the protocol
//! rules whose violation ends the link with a Goodbye.
//!
//! The driver's I/O loop performs what these functions decide.
use std::collections::{BTreeMap, BTreeSet};
use vstd::prelude::*;
use vstd::string::StringExecFns;

use crate::envelope::{
    protocol_error_bytes, protocol_error_response, ProtocolErrorKind, ResponseMessage,
};

verus! {

/// The kinds of I/O failure the link reports.
#[derive(Clone, Copy, Debug, PartialEq, Eq, Structural)]
pub enum IoKind {
    ConnectionReset,
    ConnectionRefused,
    BrokenPipe,
    InvalidData,
    UnexpectedEof,
    TimedOut,
    Other,
}

/// An I/O failure, as plain values: its kind and its message.
#[derive(Clone, Debug)]
pub struct IoFailure {
    pub kind: IoKind,
    pub message: String,
}

/// Error during connection handling.
#[derive(Debug)]
pub enum ConnectionError {
    /// IO error.
    Io(IoFailure),
    /// Protocol violation requiring Goodbye.
    ProtocolViolation {
        /// Rule ID that was violated.
        rule_id: &'static str,
        /// Human-readable context.
        context: String,
    },
    /// Dispatch error.
    Dispatch(String),
    /// Connection closed cleanly.
    Closed,
}

/// Errors of an outgoing call.
#[derive(Debug)]
pub enum TransportError {
    /// The arguments could not be encoded.
    Encode(String),
    /// The connection closed before the response came.
    ConnectionClosed,
    /// The driver is gone.
    DriverGone,
}

/// Error from a reconnecting client.
#[derive(Debug)]
pub enum ConnectError {
    /// All retry attempts exhausted.
    RetriesExhausted {
        /// The original error.
        original: IoFailure,
        /// Number of attempts made.
        attempts: u32,
    },
    /// Connection failed.
    ConnectFailed(IoFailure),
    /// RPC error during connection setup.
    Rpc(TransportError),
    /// Virtual connection request was rejected by the remote peer.
    Rejected(String),
}

/// The text of a connection error.
pub open spec fn connection_error_text(e: ConnectionError) -> Seq<char> {
    match e {
        ConnectionError::Io(f) => "IO error: "@ + f.message@,
        ConnectionError::ProtocolViolation { rule_id, context } => "protocol violation: "@ + rule_id@
            + ": "@ + context@,
        ConnectionError::Dispatch(msg) => "dispatch error: "@ + msg@,
        ConnectionError::Closed => "connection closed"@,
    }
}

impl ConnectionError {
    /// The human-readable description of the error.
    pub fn message(&self) -> (s: String)
        ensures
            s@ == connection_error_text(*self),
    {
        match self {
            ConnectionError::Io(f) => {
                let mut s = "IO error: ".to_string();
                s.append(f.message.as_str());
                s
            },
            ConnectionError::ProtocolViolation { rule_id, context } => {
                let mut s = "protocol violation: ".to_string();
                s.append(rule_id);
                s.append(": ");
                s.append(context.as_str());
                s
            },
            ConnectionError::Dispatch(msg) => {
                let mut s = "dispatch error: ".to_string();
                s.append(msg.as_str());
                s
            },
            ConnectionError::Closed => "connection closed".to_string(),
        }
    }
}

/// The I/O failure a connection error surfaces as.
pub open spec fn io_view(e: ConnectionError) -> (IoKind, Seq<char>) {
    match e {
        ConnectionError::Io(f) => (f.kind, f.message@),
        ConnectionError::ProtocolViolation { rule_id, context } => (
            IoKind::InvalidData,
            "protocol violation: "@ + rule_id@ + ": "@ + context@,
        ),
        ConnectionError::Dispatch(msg) => (IoKind::Other, "dispatch error: "@ + msg@),
        ConnectionError::Closed => (IoKind::ConnectionReset, "connection closed"@),
    }
}

/// The outcome of a call once its request went (or failed to go) to the
/// driver: the driver gone when the request could not be handed over or the
/// reply slot was dropped, the connection closed when the driver answered
/// with a failure, and otherwise the response.
pub fn call_outcome<R, E>(sent: bool, reply: Option<Result<R, E>>) -> (r: Result<R, TransportError>)
    ensures
        !sent ==> r matches Err(TransportError::DriverGone),
        sent ==> match reply {
            None => r matches Err(TransportError::DriverGone),
            Some(Err(_)) => r matches Err(TransportError::ConnectionClosed),
            Some(Ok(v)) => r == Ok::<R, TransportError>(v),
        },
{
    if !sent {
        return Err(TransportError::DriverGone);
    }
    match reply {
        None => Err(TransportError::DriverGone),
        Some(Err(_)) => Err(TransportError::ConnectionClosed),
        Some(Ok(v)) => Ok(v),
    }
}

/// Convert a connection error into the I/O failure a reconnecting client
/// reports.
pub fn connection_error_to_io(e: ConnectionError) -> (f: IoFailure)
    ensures
        (f.kind, f.message@) == io_view(e),
{
    match e {
        ConnectionError::Io(f) => f,
        ConnectionError::ProtocolViolation { rule_id, context } => {
            let mut m = "protocol violation: ".to_string();
            m.append(rule_id);
            m.append(": ");
            m.append(context.as_str());
            IoFailure { kind: IoKind::InvalidData, message: m }
        },
        ConnectionError::Dispatch(msg) => {
            let mut m = "dispatch error: ".to_string();
            m.append(msg.as_str());
            IoFailure { kind: IoKind::Other, message: m }
        },
        ConnectionError::Closed => IoFailure {
            kind: IoKind::ConnectionReset,
            message: "connection closed".to_string(),
        },
    }
}

/// What a reconnecting client does after a failed attempt.
#[derive(Clone, Copy, Debug, PartialEq, Eq, Structural)]
pub enum RetryStep {
    /// Wait for the backoff of this attempt, then try again.
    Retry { attempt: u32 },
    /// Give up after this many attempts.
    GiveUp { attempts: u32 },
}

/// Count a failed attempt: give up once `max_attempts` attempts failed.
pub fn after_failure(attempt: u32, max_attempts: u32) -> (s: RetryStep)
    requires
        attempt < u32::MAX,
    ensures
        attempt + 1 >= max_attempts ==> s == (RetryStep::GiveUp { attempts: (attempt + 1) as u32 }),
        attempt + 1 < max_attempts ==> s == (RetryStep::Retry { attempt: (attempt + 1) as u32 }),
{
    let attempt = attempt + 1;
    if attempt >= max_attempts {
        RetryStep::GiveUp { attempts: attempt }
    } else {
        RetryStep::Retry { attempt }
    }
}

/// Whether a failed call is worth a reconnect: a closed connection or a
/// vanished driver is; an encoding failure is not.
pub fn call_failure_reconnects(e: &TransportError) -> (b: bool)
    ensures
        b == !(*e is Encode),
{
    match e {
        TransportError::Encode(_) => false,
        TransportError::ConnectionClosed | TransportError::DriverGone => true,
    }
}

/// A factory that creates new message-based connections on demand, used to
/// reconnect over transports that already frame messages.
pub trait MessageConnector {
    /// The message transport type.
    type Transport;

    /// Establish a new connection.
    fn connect(&self) -> Result<Self::Transport, IoFailure>;
}

/// A dispatcher for client-only connections: it serves no method, and
/// answers every request with `UnknownMethod`.
#[derive(Debug, Clone, Copy)]
pub struct NoDispatcher;

impl NoDispatcher {
    /// The ids of the methods served: none.
    pub fn method_ids(&self) -> (ids: Vec<u64>)
        ensures
            ids@ == Seq::<u64>::empty(),
    {
        Vec::new()
    }

    /// The response to a request: `Err(RoamError::UnknownMethod)`, whatever
    /// was asked.
    pub fn dispatch(
        &self,
        conn_id: u64,
        method_id: u64,
        payload: Vec<u8>,
        channels: Vec<u64>,
        request_id: u64,
    ) -> (m: ResponseMessage)
        ensures
            m.conn_id == conn_id,
            m.request_id == request_id,
            m.channels@ == Seq::<u64>::empty(),
            m.payload@ == protocol_error_bytes(ProtocolErrorKind::UnknownMethod),
    {
        protocol_error_response(conn_id, request_id, ProtocolErrorKind::UnknownMethod)
    }
}

/// Negotiated connection parameters after Hello exchange.
#[derive(Clone, Copy, Debug, PartialEq, Eq, Structural)]
pub struct Negotiated {
    /// Effective max payload size (min of both peers).
    pub max_payload_size: u32,
    /// Initial stream credit (min of both peers).
    pub initial_credit: u32,
}

/// The Hello a peer opens the link with.
#[derive(Clone, Copy, Debug, PartialEq, Eq, Structural)]
pub enum WireHello {
    V1 { max_payload_size: u32, initial_channel_credit: u32 },
    V2 { max_payload_size: u32, initial_channel_credit: u32 },
}

/// The limits a Hello announces, whatever its version.
pub open spec fn hello_limits(h: WireHello) -> (u32, u32) {
    match h {
        WireHello::V1 { max_payload_size, initial_channel_credit } => (
            max_payload_size,
            initial_channel_credit,
        ),
        WireHello::V2 { max_payload_size, initial_channel_credit } => (
            max_payload_size,
            initial_channel_credit,
        ),
    }
}

pub open spec fn min_u32(a: u32, b: u32) -> u32 {
    if a <= b {
        a
    } else {
        b
    }
}

/// Configuration for connection handshake.
#[derive(Clone, Copy, Debug, PartialEq, Eq, Structural)]
pub struct HandshakeConfig {
    /// Maximum payload size we support.
    pub max_payload_size: u32,
    /// Initial credit for channels.
    pub initial_channel_credit: u32,
}

impl Default for HandshakeConfig {
    fn default() -> (c: Self)
        ensures
            c.max_payload_size == 1024 * 1024,
            c.initial_channel_credit == 64 * 1024,
    {
        HandshakeConfig { max_payload_size: 1024 * 1024, initial_channel_credit: 64 * 1024 }
    }
}

impl HandshakeConfig {
    /// Convert to Hello message (v2 format).
    pub fn to_hello(&self) -> (h: WireHello)
        ensures
            h == (WireHello::V2 {
                max_payload_size: self.max_payload_size,
                initial_channel_credit: self.initial_channel_credit,
            }),
    {
        WireHello::V2 {
            max_payload_size: self.max_payload_size,
            initial_channel_credit: self.initial_channel_credit,
        }
    }
}

/// Each limit is the smaller of what the two peers announced.
pub fn negotiate(ours: &WireHello, peers: &WireHello) -> (n: Negotiated)
    ensures
        n.max_payload_size == min_u32(hello_limits(*ours).0, hello_limits(*peers).0),
        n.initial_credit == min_u32(hello_limits(*ours).1, hello_limits(*peers).1),
{
    let (our_max, our_credit) = match ours {
        WireHello::V1 { max_payload_size, initial_channel_credit }
        | WireHello::V2 { max_payload_size, initial_channel_credit } => (
            *max_payload_size,
            *initial_channel_credit,
        ),
    };
    let (peer_max, peer_credit) = match peers {
        WireHello::V1 { max_payload_size, initial_channel_credit }
        | WireHello::V2 { max_payload_size, initial_channel_credit } => (
            *max_payload_size,
            *initial_channel_credit,
        ),
    };
    Negotiated {
        max_payload_size: if our_max <= peer_max {
            our_max
        } else {
            peer_max
        },
        initial_credit: if our_credit <= peer_credit {
            our_credit
        } else {
            peer_credit
        },
    }
}

/// Whether the raw bytes of an undecodable frame are a Hello of a version
/// this side does not know: a Hello tag (0) followed by a non-zero version.
pub open spec fn is_unknown_hello(raw: Seq<u8>) -> bool {
    raw.len() >= 2 && raw[0] == 0 && raw[1] != 0
}

/// The rule a frame that failed to decode breaks, if it breaks one: an
/// unknown Hello version, an unknown message variant (tag 12 or above), or
/// plain invalid data. Other failures are I/O errors, not violations.
pub open spec fn decode_failure_rule(raw: Seq<u8>, invalid_data: bool) -> Option<&'static str> {
    if is_unknown_hello(raw) {
        Some("message.hello.unknown-version")
    } else if raw.len() > 0 && raw[0] >= 12 {
        Some("message.unknown-variant")
    } else if invalid_data {
        Some("message.decode-error")
    } else {
        None
    }
}

/// Classify a receive error from the last bytes the transport decoded.
pub fn classify_decode_failure(raw: &[u8], invalid_data: bool) -> (r: Option<&'static str>)
    ensures
        r == decode_failure_rule(raw@, invalid_data),
{
    if raw.len() >= 2 && raw[0] == 0 && raw[1] != 0 {
        return Some("message.hello.unknown-version");
    }
    if raw.len() > 0 && raw[0] >= 12 {
        return Some("message.unknown-variant");
    }
    if invalid_data {
        return Some("message.decode-error");
    }
    None
}

/// The Hello version an undecodable opening frame announced, when it is a
/// Hello of an unknown version.
pub fn unknown_hello_version(raw: &[u8]) -> (v: Option<u8>)
    ensures
        is_unknown_hello(raw@) ==> v == Some(raw@[1]),
        !is_unknown_hello(raw@) ==> v is None,
{
    if raw.len() >= 2 && raw[0] == 0 && raw[1] != 0 {
        Some(raw[1])
    } else {
        None
    }
}

/// A payload is longer than the negotiated maximum.
pub open spec fn over_limit(len: usize, max: u32) -> bool {
    len > max
}

/// The abstract state of a [`LinkCore`].
pub ghost struct LinkView {
    pub negotiated: Negotiated,
    /// The virtual connections on the link.
    pub conns: Set<u64>,
    /// Per connection, the requests we are serving and have not answered.
    pub in_flight: Map<u64, Set<u64>>,
    /// Per connection, the calls we made that wait for a response.
    pub pending: Map<u64, Set<u64>>,
    /// Our `Connect` requests that wait for Accept or Reject.
    pub pending_connects: Set<u64>,
    /// The id the next connection we accept gets.
    pub next_conn_id: u64,
    /// Whether incoming `Connect` requests are handed to the application.
    pub listening: bool,
}

/// The ids recorded under `c` (none when `c` has no entry).
pub open spec fn ids_of(m: Map<u64, Set<u64>>, c: u64) -> Set<u64> {
    if m.contains_key(c) {
        m[c]
    } else {
        Set::empty()
    }
}

/// The link after recording `r` under `c` in one of its per-connection maps.
pub open spec fn with_id(m: Map<u64, Set<u64>>, c: u64, r: u64) -> Map<u64, Set<u64>> {
    m.insert(c, ids_of(m, c).insert(r))
}

/// The link after dropping `r` from under `c`.
pub open spec fn without_id(m: Map<u64, Set<u64>>, c: u64, r: u64) -> Map<u64, Set<u64>> {
    m.insert(c, ids_of(m, c).remove(r))
}

/// What the link keeps true: per-connection records exist only for
/// connections on the link, and the next id to give out is never the root.
pub open spec fn link_wf(v: LinkView) -> bool {
    &&& forall|c: u64| #[trigger] v.in_flight.contains_key(c) ==> v.conns.contains(c)
    &&& forall|c: u64| #[trigger] v.pending.contains_key(c) ==> v.conns.contains(c)
    &&& v.next_conn_id >= 1
}

/// What the driver must do about an incoming request.
pub open spec fn request_verdict(
    v: LinkView,
    conn_id: u64,
    request_id: u64,
    metadata_check: Result<(), &'static str>,
    payload_len: usize,
) -> Result<(), &'static str> {
    if !v.conns.contains(conn_id) {
        Err("message.conn-id")
    } else if ids_of(v.in_flight, conn_id).contains(request_id) {
        Err("call.request-id.duplicate-detection")
    } else if metadata_check is Err {
        Err(metadata_check->Err_0)
    } else if over_limit(payload_len, v.negotiated.max_payload_size) {
        Err("flow.call.payload-limit")
    } else {
        Ok(())
    }
}

/// The per-connection state of the links' driver loop.
pub struct LinkCore {
    negotiated: Negotiated,
    conns: BTreeSet<u64>,
    in_flight: BTreeMap<u64, BTreeSet<u64>>,
    pending: BTreeMap<u64, BTreeSet<u64>>,
    pending_connects: BTreeSet<u64>,
    next_conn_id: u64,
    listening: bool,
}

/// The sets of a map of sets, seen as mathematical sets.
pub open spec fn sets_view(m: Map<u64, BTreeSet<u64>>) -> Map<u64, Set<u64>> {
    m.map_values(|s: BTreeSet<u64>| s@)
}

impl View for LinkCore {
    type V = LinkView;

    closed spec fn view(&self) -> LinkView {
        LinkView {
            negotiated: self.negotiated,
            conns: self.conns@,
            in_flight: sets_view(self.in_flight@),
            pending: sets_view(self.pending@),
            pending_connects: self.pending_connects@,
            next_conn_id: self.next_conn_id,
            listening: self.listening,
        }
    }
}

/// Record `r` under `c`; tells whether it was not recorded before.
fn add_id(m: &mut BTreeMap<u64, BTreeSet<u64>>, c: u64, r: u64) -> (fresh: bool)
    ensures
        sets_view(final(m)@) == with_id(sets_view(old(m)@), c, r),
        fresh == !ids_of(sets_view(old(m)@), c).contains(r),
{
    let mut set = match m.remove(&c) {
        Some(s) => s,
        None => BTreeSet::new(),
    };
    let fresh = set.insert(r);
    m.insert(c, set);
    assert(sets_view(m@) =~= with_id(sets_view(old(m)@), c, r));
    fresh
}

/// Drop `r` from under `c`; tells whether it was recorded.
fn drop_id(m: &mut BTreeMap<u64, BTreeSet<u64>>, c: u64, r: u64) -> (was: bool)
    ensures
        was ==> sets_view(final(m)@) == without_id(sets_view(old(m)@), c, r),
        !was ==> sets_view(final(m)@) == sets_view(old(m)@),
        was == ids_of(sets_view(old(m)@), c).contains(r),
{
    match m.remove(&c) {
        Some(mut set) => {
            let ghost before = set@;
            let was = set.remove(&r);
            if !was {
                assert(set@ =~= before);
            }
            m.insert(c, set);
            if was {
                assert(sets_view(m@) =~= without_id(sets_view(old(m)@), c, r));
            } else {
                assert(sets_view(m@) =~= sets_view(old(m)@));
            }
            was
        },
        None => {
            assert(sets_view(m@) =~= sets_view(old(m)@));
            false
        },
    }
}

impl LinkCore {
    /// The link right after the Hello exchange: only the root connection.
    pub fn new(negotiated: Negotiated) -> (l: LinkCore)
        ensures
            l@ == (LinkView {
                negotiated,
                conns: set![0u64],
                in_flight: Map::empty(),
                pending: Map::empty(),
                pending_connects: Set::empty(),
                next_conn_id: 1,
                listening: false,
            }),
            link_wf(l@),
    {
        let mut conns = BTreeSet::new();
        conns.insert(0);
        let l = LinkCore {
            negotiated,
            conns,
            in_flight: BTreeMap::new(),
            pending: BTreeMap::new(),
            pending_connects: BTreeSet::new(),
            next_conn_id: 1,
            listening: false,
        };
        assert(l@.in_flight =~= Map::empty());
        assert(l@.pending =~= Map::empty());
        l
    }

    pub fn negotiated(&self) -> (n: Negotiated)
        ensures
            n == self@.negotiated,
    {
        self.negotiated
    }

    pub fn is_listening(&self) -> (b: bool)
        ensures
            b == self@.listening,
    {
        self.listening
    }

    pub fn has_connection(&self, conn_id: u64) -> (b: bool)
        ensures
            b == self@.conns.contains(conn_id),
    {
        self.conns.contains(&conn_id)
    }

    /// Whether a call on `conn_id` with `request_id` waits for its response.
    pub fn is_pending(&self, conn_id: u64, request_id: u64) -> (b: bool)
        ensures
            b == ids_of(self@.pending, conn_id).contains(request_id),
    {
        match self.pending.get(&conn_id) {
            Some(s) => s.contains(&request_id),
            None => false,
        }
    }

    /// Whether a request we serve on `conn_id` still waits for our answer.
    pub fn is_in_flight(&self, conn_id: u64, request_id: u64) -> (b: bool)
        ensures
            b == ids_of(self@.in_flight, conn_id).contains(request_id),
    {
        match self.in_flight.get(&conn_id) {
            Some(s) => s.contains(&request_id),
            None => false,
        }
    }

    /// Start handing incoming `Connect` requests to the application. This
    /// can be done once.
    pub fn listen(&mut self)
        requires
            !old(self)@.listening,
        ensures
            final(self)@ == (LinkView { listening: true, ..old(self)@ }),
    {
        self.listening = true;
    }

    /// An outgoing call: recorded as waiting for its response when its
    /// connection exists (then the Request goes out); otherwise the call
    /// fails at once with "connection closed".
    pub fn start_call(&mut self, conn_id: u64, request_id: u64) -> (sent: bool)
        requires
            link_wf(old(self)@),
        ensures
            link_wf(final(self)@),
            sent == old(self)@.conns.contains(conn_id),
            sent ==> final(self)@ == (LinkView {
                pending: with_id(old(self)@.pending, conn_id, request_id),
                ..old(self)@
            }),
            !sent ==> final(self)@ == old(self)@,
    {
        if !self.conns.contains(&conn_id) {
            return false;
        }
        add_id(&mut self.pending, conn_id, request_id);
        true
    }

    /// A response from the peer: delivered to the waiting call, if there is
    /// one; a response nobody waits for is ignored.
    pub fn deliver_response(&mut self, conn_id: u64, request_id: u64) -> (delivered: bool)
        requires
            link_wf(old(self)@),
        ensures
            link_wf(final(self)@),
            delivered == ids_of(old(self)@.pending, conn_id).contains(request_id),
            delivered ==> final(self)@ == (LinkView {
                pending: without_id(old(self)@.pending, conn_id, request_id),
                ..old(self)@
            }),
            !delivered ==> final(self)@ == old(self)@,
    {
        drop_id(&mut self.pending, conn_id, request_id)
    }

    /// Our handler answered a request: the Response goes out only if the
    /// request is still in flight, so each request is answered once.
    pub fn finish_request(&mut self, conn_id: u64, request_id: u64) -> (send: bool)
        requires
            link_wf(old(self)@),
        ensures
            link_wf(final(self)@),
            send == (old(self)@.conns.contains(conn_id) && ids_of(old(self)@.in_flight, conn_id).contains(
                request_id,
            )),
            send ==> final(self)@ == (LinkView {
                in_flight: without_id(old(self)@.in_flight, conn_id, request_id),
                ..old(self)@
            }),
            !send ==> final(self)@ == old(self)@,
    {
        if !self.conns.contains(&conn_id) {
            return false;
        }
        drop_id(&mut self.in_flight, conn_id, request_id)
    }

    /// An incoming request: either it may be dispatched (it is then in
    /// flight), or it breaks a rule and the link ends with a Goodbye naming
    /// it. `metadata_check` is the verdict on the request's metadata.
    pub fn accept_request(
        &mut self,
        conn_id: u64,
        request_id: u64,
        metadata_check: Result<(), &'static str>,
        payload_len: usize,
    ) -> (r: Result<(), &'static str>)
        requires
            link_wf(old(self)@),
        ensures
            link_wf(final(self)@),
            r == request_verdict(old(self)@, conn_id, request_id, metadata_check, payload_len),
            r is Ok ==> final(self)@ == (LinkView {
                in_flight: with_id(old(self)@.in_flight, conn_id, request_id),
                ..old(self)@
            }),
            r is Err ==> ids_of(final(self)@.in_flight, conn_id) == ids_of(old(self)@.in_flight, conn_id),
            r is Err ==> final(self)@.conns == old(self)@.conns && final(self)@.pending == old(self)@.pending,
    {
        if !self.conns.contains(&conn_id) {
            return Err("message.conn-id");
        }
        let ghost before = sets_view(self.in_flight@);
        let fresh = add_id(&mut self.in_flight, conn_id, request_id);
        if !fresh {
            assert(ids_of(sets_view(self.in_flight@), conn_id) =~= ids_of(before, conn_id));
            return Err("call.request-id.duplicate-detection");
        }
        if let Err(rule) = metadata_check {
            drop_id(&mut self.in_flight, conn_id, request_id);
            assert(ids_of(sets_view(self.in_flight@), conn_id) =~= ids_of(before, conn_id));
            return Err(rule);
        }
        if payload_len > self.negotiated.max_payload_size as usize {
            drop_id(&mut self.in_flight, conn_id, request_id);
            assert(ids_of(sets_view(self.in_flight@), conn_id) =~= ids_of(before, conn_id));
            return Err("flow.call.payload-limit");
        }
        Ok(())
    }

    /// Checks on incoming channel data before it is routed: channel 0 is
    /// reserved, the payload must fit the negotiated limit, and the
    /// connection must exist.
    pub fn check_data(&self, conn_id: u64, channel_id: u64, payload_len: usize) -> (r: Result<
        (),
        &'static str,
    >)
        ensures
            r == (if channel_id == 0 {
                Err("channeling.id.zero-reserved")
            } else if over_limit(payload_len, self@.negotiated.max_payload_size) {
                Err("flow.call.payload-limit")
            } else if !self@.conns.contains(conn_id) {
                Err("message.conn-id")
            } else {
                Ok(())
            }),
    {
        if channel_id == 0 {
            return Err("channeling.id.zero-reserved");
        }
        if payload_len > self.negotiated.max_payload_size as usize {
            return Err("flow.call.payload-limit");
        }
        if !self.conns.contains(&conn_id) {
            return Err("message.conn-id");
        }
        Ok(())
    }

    /// Checks on an incoming channel Close before it is routed.
    pub fn check_close(&self, conn_id: u64, channel_id: u64) -> (r: Result<(), &'static str>)
        ensures
            r == (if channel_id == 0 {
                Err("channeling.id.zero-reserved")
            } else if !self@.conns.contains(conn_id) {
                Err("message.conn-id")
            } else {
                Ok(())
            }),
    {
        if channel_id == 0 {
            return Err("channeling.id.zero-reserved");
        }
        if !self.conns.contains(&conn_id) {
            return Err("message.conn-id");
        }
        Ok(())
    }

    /// An incoming `Connect`: when the application listens and took the
    /// request (`queued`), it decides later; otherwise the request is
    /// rejected at once, and the reason sent is returned.
    pub fn incoming_connect(&self, queued: bool) -> (reject: Option<&'static str>)
        ensures
            reject is None <==> (self@.listening && queued),
            reject matches Some(r) ==> r == "not listening",
    {
        if self.listening && queued {
            None
        } else {
            Some("not listening")
        }
    }

    /// We sent a `Connect`; its answer is awaited.
    pub fn start_connect(&mut self, request_id: u64)
        ensures
            final(self)@ == (LinkView {
                pending_connects: old(self)@.pending_connects.insert(request_id),
                ..old(self)@
            }),
    {
        self.pending_connects.insert(request_id);
    }

    /// The peer accepted one of our `Connect` requests: the new connection
    /// joins the link. An Accept nobody waits for is ignored.
    pub fn connect_accepted(&mut self, request_id: u64, conn_id: u64) -> (known: bool)
        requires
            link_wf(old(self)@),
        ensures
            link_wf(final(self)@),
            known == old(self)@.pending_connects.contains(request_id),
            known ==> final(self)@ == (LinkView {
                pending_connects: old(self)@.pending_connects.remove(request_id),
                conns: old(self)@.conns.insert(conn_id),
                in_flight: old(self)@.in_flight.remove(conn_id),
                pending: old(self)@.pending.remove(conn_id),
                ..old(self)@
            }),
            !known ==> final(self)@ == old(self)@,
    {
        if !self.pending_connects.remove(&request_id) {
            assert(self.pending_connects@ =~= old(self).pending_connects@);
            return false;
        }
        self.add_connection(conn_id);
        true
    }

    /// The peer rejected one of our `Connect` requests. A Reject nobody
    /// waits for is ignored.
    pub fn connect_rejected(&mut self, request_id: u64) -> (known: bool)
        ensures
            known == old(self)@.pending_connects.contains(request_id),
            final(self)@ == (LinkView {
                pending_connects: old(self)@.pending_connects.remove(request_id),
                ..old(self)@
            }),
    {
        self.pending_connects.remove(&request_id)
    }

    /// A fresh connection under `conn_id`, with nothing in flight or pending.
    fn add_connection(&mut self, conn_id: u64)
        requires
            link_wf(old(self)@),
        ensures
            link_wf(final(self)@),
            final(self)@ == (LinkView {
                conns: old(self)@.conns.insert(conn_id),
                in_flight: old(self)@.in_flight.remove(conn_id),
                pending: old(self)@.pending.remove(conn_id),
                ..old(self)@
            }),
    {
        self.conns.insert(conn_id);
        self.in_flight.remove(&conn_id);
        self.pending.remove(&conn_id);
        assert(sets_view(self.in_flight@) =~= sets_view(old(self).in_flight@).remove(conn_id));
        assert(sets_view(self.pending@) =~= sets_view(old(self).pending@).remove(conn_id));
    }

    /// The application accepted an incoming `Connect`: the connection gets
    /// the next id (never the root) and joins the link.
    pub fn accept_incoming(&mut self) -> (conn_id: u64)
        requires
            link_wf(old(self)@),
            old(self)@.next_conn_id < u64::MAX,
        ensures
            link_wf(final(self)@),
            conn_id == old(self)@.next_conn_id,
            conn_id != 0,
            final(self)@ == (LinkView {
                next_conn_id: (old(self)@.next_conn_id + 1) as u64,
                conns: old(self)@.conns.insert(conn_id),
                in_flight: old(self)@.in_flight.remove(conn_id),
                pending: old(self)@.pending.remove(conn_id),
                ..old(self)@
            }),
    {
        let conn_id = self.next_conn_id;
        self.next_conn_id = self.next_conn_id + 1;
        self.add_connection(conn_id);
        conn_id
    }

    /// The link breaks a rule: every call waiting for a response fails.
    /// The failed calls come back, by connection.
    pub fn goodbye(&mut self) -> (failed: BTreeMap<u64, BTreeSet<u64>>)
        requires
            link_wf(old(self)@),
        ensures
            link_wf(final(self)@),
            sets_view(failed@) == old(self)@.pending,
            final(self)@ == (LinkView { pending: Map::empty(), ..old(self)@ }),
    {
        let mut failed = BTreeMap::new();
        std::mem::swap(&mut failed, &mut self.pending);
        assert(sets_view(self.pending@) =~= Map::empty());
        failed
    }

    /// The peer said Goodbye. On the root connection it closes the whole
    /// link (no connection and no waiting call is left); on another
    /// connection it closes just that one. The calls that fail come back.
    pub fn peer_goodbye(&mut self, conn_id: u64) -> (failed: BTreeMap<u64, BTreeSet<u64>>)
        requires
            link_wf(old(self)@),
        ensures
            link_wf(final(self)@),
            conn_id == 0 ==> sets_view(failed@) == old(self)@.pending && final(self)@ == (LinkView {
                conns: Set::empty(),
                in_flight: Map::empty(),
                pending: Map::empty(),
                ..old(self)@
            }),
            conn_id != 0 ==> sets_view(failed@) == (if old(self)@.pending.contains_key(conn_id) {
                Map::empty().insert(conn_id, old(self)@.pending[conn_id])
            } else {
                Map::empty()
            }) && final(self)@ == (LinkView {
                conns: old(self)@.conns.remove(conn_id),
                in_flight: old(self)@.in_flight.remove(conn_id),
                pending: old(self)@.pending.remove(conn_id),
                ..old(self)@
            }),
    {
        if conn_id == 0 {
            let mut failed = BTreeMap::new();
        std::mem::swap(&mut failed, &mut self.pending);
            self.in_flight.clear();
            self.conns.clear();
            assert(sets_view(self.pending@) =~= Map::empty());
            assert(sets_view(self.in_flight@) =~= Map::empty());
            return failed;
        }
        self.conns.remove(&conn_id);
        self.in_flight.remove(&conn_id);
        let mut failed = BTreeMap::new();
        match self.pending.remove(&conn_id) {
            Some(s) => {
                failed.insert(conn_id, s);
            },
            None => {},
        }
        assert(sets_view(self.in_flight@) =~= sets_view(old(self).in_flight@).remove(conn_id));
        assert(sets_view(self.pending@) =~= sets_view(old(self).pending@).remove(conn_id));
        assert(sets_view(failed@) =~= (if old(self)@.pending.contains_key(conn_id) {
            Map::empty().insert(conn_id, old(self)@.pending[conn_id])
        } else {
            Map::empty()
        }));
        failed
    }
}

/// An incoming message, as the driver's step sees it: the fields its
/// decisions read. `queued` tells whether the application's queue took an
/// incoming `Connect`; `metadata_check` is the verdict on a request's
/// metadata.
pub enum LinkMessage {
    Hello,
    Connect { request_id: u64, queued: bool },
    Accept { request_id: u64, conn_id: u64 },
    Reject { request_id: u64 },
    Goodbye { conn_id: u64 },
    Request {
        conn_id: u64,
        request_id: u64,
        metadata_check: Result<(), &'static str>,
        payload_len: usize,
    },
    Response { conn_id: u64, request_id: u64 },
    Cancel { conn_id: u64, request_id: u64 },
    Data { conn_id: u64, channel_id: u64, payload_len: usize },
    Close { conn_id: u64, channel_id: u64 },
    Reset { conn_id: u64, channel_id: u64 },
    Credit { conn_id: u64, channel_id: u64 },
}

/// What the driver does after a message that leaves the link up.
pub enum LinkAction {
    /// Nothing to do.
    Nothing,
    /// Answer an incoming `Connect` with a `Reject` carrying `reason`.
    RejectConnect { request_id: u64, reason: &'static str },
    /// Hand the request to the dispatcher.
    Dispatch { conn_id: u64, request_id: u64 },
    /// Hand the response to the call waiting for it.
    Deliver { conn_id: u64, request_id: u64 },
    /// Our `Connect` was accepted: the connection is open.
    Opened { request_id: u64, conn_id: u64 },
    /// Our `Connect` was rejected.
    Refused { request_id: u64 },
    /// Pass the channel message on to the channel's owner on `conn_id`.
    Forward { conn_id: u64, channel_id: u64 },
    /// The peer closed a virtual connection; these calls on it fail.
    ConnectionClosed { conn_id: u64, failed: BTreeMap<u64, BTreeSet<u64>> },
}

/// How the link ends.
pub enum LinkEnd {
    /// The peer said Goodbye on the root connection: a clean close. These
    /// calls fail.
    Closed { failed: BTreeMap<u64, BTreeSet<u64>> },
    /// A rule was broken: a Goodbye naming `rule` goes out on the root
    /// connection and these calls fail.
    Violation { rule: &'static str, failed: BTreeMap<u64, BTreeSet<u64>> },
}

impl LinkCore {
    /// A rule was broken: every waiting call fails and the link ends with a
    /// Goodbye naming the rule. (Also for a rule broken while routing
    /// channel data, which the channels' owner finds.)
    pub fn violation(&mut self, rule: &'static str) -> (e: LinkEnd)
        requires
            link_wf(old(self)@),
        ensures
            link_wf(final(self)@),
            final(self)@ == (LinkView { pending: Map::empty(), ..old(self)@ }),
            e matches LinkEnd::Violation { rule: r, failed } && r == rule && sets_view(failed@)
                == old(self)@.pending,
    {
        let failed = self.goodbye();
        LinkEnd::Violation { rule, failed }
    }

    /// One incoming message: the link's next state and what the driver does,
    /// or how the link ends. A Goodbye on the root connection ends the link
    /// cleanly; a Goodbye on another connection closes just that one.
    #[verifier::rlimit(30)]
    pub fn handle_message(&mut self, msg: LinkMessage) -> (r: Result<LinkAction, LinkEnd>)
        requires
            link_wf(old(self)@),
        ensures
            link_wf(final(self)@),
            match msg {
                LinkMessage::Hello | LinkMessage::Cancel { .. } => r matches Ok(LinkAction::Nothing)
                    && final(self)@ == old(self)@,
                LinkMessage::Connect { request_id, queued } => final(self)@ == old(self)@ && (if old(
                    self,
                )@.listening && queued {
                    r matches Ok(LinkAction::Nothing)
                } else {
                    r matches Ok(LinkAction::RejectConnect { request_id: q, reason })
                        && q == request_id && reason == "not listening"
                }),
                LinkMessage::Accept { request_id, conn_id } => if old(self)@.pending_connects.contains(
                    request_id,
                ) {
                    r matches Ok(LinkAction::Opened { request_id: q, conn_id: c }) && q == request_id
                        && c == conn_id && final(self)@ == (LinkView {
                        pending_connects: old(self)@.pending_connects.remove(request_id),
                        conns: old(self)@.conns.insert(conn_id),
                        in_flight: old(self)@.in_flight.remove(conn_id),
                        pending: old(self)@.pending.remove(conn_id),
                        ..old(self)@
                    })
                } else {
                    r matches Ok(LinkAction::Nothing) && final(self)@ == old(self)@
                },
                LinkMessage::Reject { request_id } => final(self)@ == (LinkView {
                    pending_connects: old(self)@.pending_connects.remove(request_id),
                    ..old(self)@
                }) && (if old(self)@.pending_connects.contains(request_id) {
                    r matches Ok(LinkAction::Refused { request_id: q }) && q == request_id
                } else {
                    r matches Ok(LinkAction::Nothing)
                }),
                LinkMessage::Goodbye { conn_id } => if conn_id == 0 {
                    r matches Err(LinkEnd::Closed { failed }) && sets_view(failed@) == old(
                        self,
                    )@.pending && final(self)@ == (LinkView {
                        conns: Set::empty(),
                        in_flight: Map::empty(),
                        pending: Map::empty(),
                        ..old(self)@
                    })
                } else {
                    r matches Ok(LinkAction::ConnectionClosed { conn_id: c, failed }) && c == conn_id
                        && sets_view(failed@) == (if old(self)@.pending.contains_key(conn_id) {
                        Map::empty().insert(conn_id, old(self)@.pending[conn_id])
                    } else {
                        Map::empty()
                    }) && final(self)@ == (LinkView {
                        conns: old(self)@.conns.remove(conn_id),
                        in_flight: old(self)@.in_flight.remove(conn_id),
                        pending: old(self)@.pending.remove(conn_id),
                        ..old(self)@
                    })
                },
                LinkMessage::Request { conn_id, request_id, metadata_check, payload_len } => match request_verdict(
                    old(self)@,
                    conn_id,
                    request_id,
                    metadata_check,
                    payload_len,
                ) {
                    Ok(()) => r matches Ok(LinkAction::Dispatch { conn_id: c, request_id: q })
                        && c == conn_id && q == request_id && final(self)@ == (LinkView {
                        in_flight: with_id(old(self)@.in_flight, conn_id, request_id),
                        ..old(self)@
                    }),
                    Err(rule) => r matches Err(LinkEnd::Violation { rule: x, failed }) && x == rule
                        && sets_view(failed@) == old(self)@.pending && final(self)@.pending == Map::<
                        u64,
                        Set<u64>,
                    >::empty() && final(self)@.conns == old(self)@.conns && ids_of(
                        final(self)@.in_flight,
                        conn_id,
                    ) == ids_of(old(self)@.in_flight, conn_id),
                },
                LinkMessage::Response { conn_id, request_id } => if ids_of(
                    old(self)@.pending,
                    conn_id,
                ).contains(request_id) {
                    r matches Ok(LinkAction::Deliver { conn_id: c, request_id: q }) && c == conn_id
                        && q == request_id && final(self)@ == (LinkView {
                        pending: without_id(old(self)@.pending, conn_id, request_id),
                        ..old(self)@
                    })
                } else {
                    r matches Ok(LinkAction::Nothing) && final(self)@ == old(self)@
                },
                LinkMessage::Data { conn_id, channel_id, payload_len } => {
                    let rule = if channel_id == 0 {
                        Some("channeling.id.zero-reserved")
                    } else if over_limit(payload_len, old(self)@.negotiated.max_payload_size) {
                        Some("flow.call.payload-limit")
                    } else if !old(self)@.conns.contains(conn_id) {
                        Some("message.conn-id")
                    } else {
                        None::<&'static str>
                    };
                    match rule {
                        None => r matches Ok(LinkAction::Forward { conn_id: c, channel_id: h })
                            && c == conn_id && h == channel_id && final(self)@ == old(self)@,
                        Some(rule) => r matches Err(LinkEnd::Violation { rule: x, failed }) && x
                            == rule && sets_view(failed@) == old(self)@.pending && final(self)@ == (
                        LinkView { pending: Map::empty(), ..old(self)@ }),
                    }
                },
                LinkMessage::Close { conn_id, channel_id } => {
                    let rule = if channel_id == 0 {
                        Some("channeling.id.zero-reserved")
                    } else if !old(self)@.conns.contains(conn_id) {
                        Some("message.conn-id")
                    } else {
                        None::<&'static str>
                    };
                    match rule {
                        None => r matches Ok(LinkAction::Forward { conn_id: c, channel_id: h })
                            && c == conn_id && h == channel_id && final(self)@ == old(self)@,
                        Some(rule) => r matches Err(LinkEnd::Violation { rule: x, failed }) && x
                            == rule && sets_view(failed@) == old(self)@.pending && final(self)@ == (
                        LinkView { pending: Map::empty(), ..old(self)@ }),
                    }
                },
                LinkMessage::Reset { conn_id, channel_id } | LinkMessage::Credit {
                    conn_id,
                    channel_id,
                } => final(self)@ == old(self)@ && (if old(self)@.conns.contains(conn_id) {
                    r matches Ok(LinkAction::Forward { conn_id: c, channel_id: h }) && c == conn_id
                        && h == channel_id
                } else {
                    r matches Ok(LinkAction::Nothing)
                }),
            },
    {
        match msg {
            LinkMessage::Hello => Ok(LinkAction::Nothing),
            LinkMessage::Cancel { .. } => Ok(LinkAction::Nothing),
            LinkMessage::Connect { request_id, queued } => match self.incoming_connect(queued) {
                None => Ok(LinkAction::Nothing),
                Some(reason) => Ok(LinkAction::RejectConnect { request_id, reason }),
            },
            LinkMessage::Accept { request_id, conn_id } => {
                if self.connect_accepted(request_id, conn_id) {
                    Ok(LinkAction::Opened { request_id, conn_id })
                } else {
                    Ok(LinkAction::Nothing)
                }
            },
            LinkMessage::Reject { request_id } => {
                if self.connect_rejected(request_id) {
                    Ok(LinkAction::Refused { request_id })
                } else {
                    Ok(LinkAction::Nothing)
                }
            },
            LinkMessage::Goodbye { conn_id } => {
                let failed = self.peer_goodbye(conn_id);
                if conn_id == 0 {
                    Err(LinkEnd::Closed { failed })
                } else {
                    Ok(LinkAction::ConnectionClosed { conn_id, failed })
                }
            },
            LinkMessage::Request { conn_id, request_id, metadata_check, payload_len } => {
                match self.accept_request(conn_id, request_id, metadata_check, payload_len) {
                    Ok(()) => Ok(LinkAction::Dispatch { conn_id, request_id }),
                    Err(rule) => Err(self.violation(rule)),
                }
            },
            LinkMessage::Response { conn_id, request_id } => {
                if self.deliver_response(conn_id, request_id) {
                    Ok(LinkAction::Deliver { conn_id, request_id })
                } else {
                    Ok(LinkAction::Nothing)
                }
            },
            LinkMessage::Data { conn_id, channel_id, payload_len } => {
                match self.check_data(conn_id, channel_id, payload_len) {
                    Ok(()) => Ok(LinkAction::Forward { conn_id, channel_id }),
                    Err(rule) => Err(self.violation(rule)),
                }
            },
            LinkMessage::Close { conn_id, channel_id } => {
                match self.check_close(conn_id, channel_id) {
                    Ok(()) => Ok(LinkAction::Forward { conn_id, channel_id }),
                    Err(rule) => Err(self.violation(rule)),
                }
            },
            LinkMessage::Reset { conn_id, channel_id } => {
                if self.has_connection(conn_id) {
                    Ok(LinkAction::Forward { conn_id, channel_id })
                } else {
                    Ok(LinkAction::Nothing)
                }
            },
            LinkMessage::Credit { conn_id, channel_id } => {
                if self.has_connection(conn_id) {
                    Ok(LinkAction::Forward { conn_id, channel_id })
                } else {
                    Ok(LinkAction::Nothing)
                }
            },
        }
    }
}

/// A call gets at most one response: once a response was delivered, another
/// response for the same call finds nobody waiting.
pub proof fn law_one_response_per_call(v: LinkView, conn_id: u64, request_id: u64)
    requires
        ids_of(v.pending, conn_id).contains(request_id),
    ensures
        !ids_of(without_id(v.pending, conn_id, request_id), conn_id).contains(request_id),
{
}

/// A request id that is already in flight on a connection is refused as a
/// duplicate, whatever the request carries.
pub proof fn law_duplicate_request_refused(
    v: LinkView,
    conn_id: u64,
    request_id: u64,
    metadata_check: Result<(), &'static str>,
    payload_len: usize,
)
    requires
        v.conns.contains(conn_id),
        ids_of(v.in_flight, conn_id).contains(request_id),
    ensures
        request_verdict(v, conn_id, request_id, metadata_check, payload_len) == Err::<
            (),
            &'static str,
        >("call.request-id.duplicate-detection"),
{
}

/// A request that was accepted for dispatch is answered exactly once: the
/// first answer goes out, a second one for the same request does not.
pub proof fn law_answer_once(v: LinkView, conn_id: u64, request_id: u64)
    requires
        v.conns.contains(conn_id),
    ensures
        ids_of(with_id(v.in_flight, conn_id, request_id), conn_id).contains(request_id),
        !ids_of(
            without_id(with_id(v.in_flight, conn_id, request_id), conn_id, request_id),
            conn_id,
        ).contains(request_id),
{
}

/// The negotiated limits never exceed what either peer announced, and one
/// of the peers announced each of them.
pub proof fn law_negotiation_is_minimum(ours: WireHello, peers: WireHello)
    ensures
        min_u32(hello_limits(ours).0, hello_limits(peers).0) <= hello_limits(ours).0,
        min_u32(hello_limits(ours).0, hello_limits(peers).0) <= hello_limits(peers).0,
        min_u32(hello_limits(ours).1, hello_limits(peers).1) <= hello_limits(ours).1,
        min_u32(hello_limits(ours).1, hello_limits(peers).1) <= hello_limits(peers).1,
        min_u32(hello_limits(ours).0, hello_limits(peers).0) == hello_limits(ours).0
            || min_u32(hello_limits(ours).0, hello_limits(peers).0) == hello_limits(peers).0,
{
}

} // verus!
