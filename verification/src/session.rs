//! The session layer: the handshake that establishes the root connection,
//! and the state machine that opens, accepts, rejects and closes virtual
//! connections multiplexed over one conduit.
//!
//! The session decides; it does not do I/O. Each operation returns the
//! message to put on the conduit (or the event that arrived), and the
//! caller sends it.
use vstd::prelude::*;

use vstd::string::StringExecFns;

use crate::text::{decimal, push_decimal};

verus! {

/// Current roam session protocol version.
pub const PROTOCOL_VERSION: u32 = 7;

/// Identifies a connection within a session; connection 0 is the root.
#[derive(Clone, Copy, Debug, PartialEq, Eq, Structural)]
pub struct ConnectionId(pub u64);

impl ConnectionId {
    /// The root connection, established by the handshake.
    pub fn root() -> (c: ConnectionId)
        ensures
            c.0 == 0,
    {
        ConnectionId(0)
    }

    /// Whether this is the root connection.
    pub fn is_root(self) -> (b: bool)
        ensures
            b == (self.0 == 0),
    {
        self.0 == 0
    }
}

/// Which half of the connection-id space a side allocates from.
#[derive(Clone, Copy, Debug, PartialEq, Eq, Structural)]
pub enum Parity {
    Odd,
    Even,
}

/// The other parity.
pub open spec fn flip(p: Parity) -> Parity {
    match p {
        Parity::Odd => Parity::Even,
        Parity::Even => Parity::Odd,
    }
}

impl Parity {
    /// The parity of the peer.
    pub fn other(self) -> (p: Parity)
        ensures
            p == flip(self),
    {
        match self {
            Parity::Odd => Parity::Even,
            Parity::Even => Parity::Odd,
        }
    }
}

/// Whether an id lies in the half of the id space of `parity`.
pub open spec fn matches_parity(id: u64, parity: Parity) -> bool {
    match parity {
        Parity::Odd => id % 2 == 1,
        Parity::Even => id % 2 == 0,
    }
}

/// Whether `id` belongs to the ids that `parity` allocates.
pub fn id_matches_parity(id: u64, parity: &Parity) -> (b: bool)
    ensures
        b == matches_parity(id, *parity),
{
    match parity {
        Parity::Odd => id % 2 != 0,
        Parity::Even => id % 2 == 0,
    }
}

/// The side of the handshake a session took.
#[derive(Clone, Copy, Debug, PartialEq, Eq, Structural)]
pub enum SessionRole {
    Initiator,
    Acceptor,
}

/// Per-connection settings exchanged when a connection opens.
#[derive(Clone, Copy, Debug, PartialEq, Eq, Structural)]
pub struct ConnectionSettings {
    pub max_concurrent_requests: u32,
}

/// One metadata entry carried by control messages.
#[derive(Clone, Debug)]
pub struct MetadataEntry {
    pub key: String,
    pub value: String,
}

/// Metadata carried by control messages.
pub type Metadata = Vec<MetadataEntry>;

/// Static data for one active connection.
#[derive(Clone, Copy, Debug, PartialEq, Eq, Structural)]
pub struct ConnectionState {
    pub id: ConnectionId,
    pub local_parity: Parity,
    pub peer_parity: Parity,
    pub local_settings: ConnectionSettings,
    pub peer_settings: ConnectionSettings,
}

/// What the session knows about one connection id.
#[derive(Clone, Copy, Debug, PartialEq, Eq, Structural)]
pub enum ConnectionSlot {
    Active(ConnectionState),
    /// The peer asked to open it; we have not answered yet.
    PendingInbound { peer_parity: Parity, peer_settings: ConnectionSettings },
    /// We asked to open it; the peer has not answered yet.
    PendingOutbound { local_parity: Parity, local_settings: ConnectionSettings },
}

/// The initiator's opening message.
#[derive(Clone, Debug)]
pub struct Hello {
    pub version: u32,
    pub parity: Parity,
    pub connection_settings: ConnectionSettings,
    pub metadata: Metadata,
}

/// The acceptor's answer to [`Hello`].
#[derive(Clone, Debug)]
pub struct HelloYourself {
    pub connection_settings: ConnectionSettings,
    pub metadata: Metadata,
}

/// Sent before a side closes the conduit because the peer broke the protocol.
#[derive(Clone, Debug)]
pub struct ProtocolError {
    pub description: String,
}

#[derive(Clone, Debug)]
pub struct OpenConnection {
    pub parity: Parity,
    pub connection_settings: ConnectionSettings,
    pub metadata: Metadata,
}

#[derive(Clone, Debug)]
pub struct AcceptConnection {
    pub connection_settings: ConnectionSettings,
    pub metadata: Metadata,
}

#[derive(Clone, Debug)]
pub struct RejectConnection {
    pub metadata: Metadata,
}

#[derive(Clone, Debug)]
pub struct CloseConnection {
    pub metadata: Metadata,
}

/// The payload of a session message. The RPC and channel payloads carry
/// their encoded bodies, which the session passes through untouched.
#[derive(Clone, Debug)]
pub enum MessagePayload {
    Hello(Hello),
    HelloYourself(HelloYourself),
    ProtocolError(ProtocolError),
    OpenConnection(OpenConnection),
    AcceptConnection(AcceptConnection),
    RejectConnection(RejectConnection),
    CloseConnection(CloseConnection),
    Request(Vec<u8>),
    Response(Vec<u8>),
    CancelRequest(Vec<u8>),
    ChannelItem(Vec<u8>),
    CloseChannel(Vec<u8>),
    ResetChannel(Vec<u8>),
    GrantCredit(Vec<u8>),
}

/// A session message: a payload addressed to one connection.
#[derive(Clone, Debug)]
pub struct Message {
    pub connection_id: ConnectionId,
    pub payload: MessagePayload,
}

/// Whether a payload belongs to RPC or channel traffic (as opposed to
/// session control).
pub open spec fn is_rpc_or_channel(p: MessagePayload) -> bool {
    ||| p is Request
    ||| p is Response
    ||| p is CancelRequest
    ||| p is ChannelItem
    ||| p is CloseChannel
    ||| p is ResetChannel
    ||| p is GrantCredit
}

/// Whether a payload belongs to RPC or channel traffic.
pub fn is_rpc_or_channel_payload(payload: &MessagePayload) -> (b: bool)
    ensures
        b == is_rpc_or_channel(*payload),
{
    match payload {
        MessagePayload::Request(_)
        | MessagePayload::Response(_)
        | MessagePayload::CancelRequest(_)
        | MessagePayload::ChannelItem(_)
        | MessagePayload::CloseChannel(_)
        | MessagePayload::ResetChannel(_)
        | MessagePayload::GrantCredit(_) => true,
        _ => false,
    }
}

/// What the peer did, as seen by the session.
#[derive(Debug)]
pub enum SessionEvent {
    IncomingConnectionOpen {
        conn_id: ConnectionId,
        peer_parity: Parity,
        peer_settings: ConnectionSettings,
        metadata: Metadata,
    },
    OutgoingConnectionAccepted { conn_id: ConnectionId },
    OutgoingConnectionRejected { conn_id: ConnectionId, metadata: Metadata },
    ConnectionClosed { conn_id: ConnectionId, metadata: Metadata },
    IncomingMessage(Message),
}

#[derive(Debug)]
pub enum SessionError {
    Transport(String),
    ProtocolViolation(String),
    RemoteProtocolError(String),
    UnexpectedEof(&'static str),
    InvalidState(String),
}

/// The text of a session error.
pub open spec fn session_error_text(e: SessionError) -> Seq<char> {
    match e {
        SessionError::Transport(m) => "transport error: "@ + m@,
        SessionError::ProtocolViolation(m) => "protocol violation: "@ + m@,
        SessionError::RemoteProtocolError(m) => "remote protocol error: "@ + m@,
        SessionError::UnexpectedEof(c) => "unexpected eof while "@ + c@,
        SessionError::InvalidState(m) => "invalid state: "@ + m@,
    }
}

impl SessionError {
    /// The human-readable description of the error.
    pub fn message(&self) -> (s: String)
        ensures
            s@ == session_error_text(*self),
    {
        let (prefix, detail): (&str, &str) = match self {
            SessionError::Transport(m) => ("transport error: ", m.as_str()),
            SessionError::ProtocolViolation(m) => ("protocol violation: ", m.as_str()),
            SessionError::RemoteProtocolError(m) => ("remote protocol error: ", m.as_str()),
            SessionError::UnexpectedEof(c) => ("unexpected eof while ", *c),
            SessionError::InvalidState(m) => ("invalid state: ", m.as_str()),
        };
        let mut s = prefix.to_string();
        s.append(detail);
        s
    }
}

/// The abstract state of a [`Session`].
pub ghost struct SessionView {
    /// Whether the conduit is still ours to send on.
    pub open: bool,
    pub role: SessionRole,
    pub parity: Parity,
    pub slots: Map<u64, ConnectionSlot>,
}

/// What every session keeps true: while the conduit is open the root
/// connection is active under id 0, every active slot records its own id,
/// pending opens sit on ids of the side that asked.
pub open spec fn session_wf(v: SessionView) -> bool {
    &&& v.open ==> v.slots.contains_key(0) && v.slots[0] is Active
    &&& forall|id: u64| #[trigger]
        v.slots.contains_key(id) ==> match v.slots[id] {
            ConnectionSlot::Active(st) => st.id.0 == id,
            ConnectionSlot::PendingInbound { .. } => id != 0 && matches_parity(id, flip(v.parity)),
            ConnectionSlot::PendingOutbound { .. } => id != 0 && matches_parity(id, v.parity),
        }
}

/// The session after a protocol violation or a remote protocol error: the
/// conduit is closed and every connection is gone.
pub open spec fn torn_down(v: SessionView) -> SessionView {
    SessionView { open: false, slots: Map::empty(), ..v }
}

/// The active connection under `id`, if any.
pub open spec fn active(v: SessionView, id: u64) -> Option<ConnectionState> {
    if v.slots.contains_key(id) && v.slots[id] is Active {
        Some(v.slots[id]->Active_0)
    } else {
        None
    }
}

/// When `open_connection` refuses: the root id, an id of the peer's parity,
/// or an id already in use.
pub open spec fn open_refused(v: SessionView, id: u64) -> bool {
    id == 0 || !matches_parity(id, v.parity) || v.slots.contains_key(id)
}

/// `"connection id {id} does not match local session parity {parity:?}"`
pub open spec fn parity_mismatch_text(id: u64, parity: Parity) -> Seq<char> {
    "connection id "@ + decimal(id as nat) + " does not match local session parity "@ + match parity {
        Parity::Odd => "Odd"@,
        Parity::Even => "Even"@,
    }
}

/// `"connection id {id} already in use"`
pub open spec fn in_use_text(id: u64) -> Seq<char> {
    "connection id "@ + decimal(id as nat) + " already in use"@
}

/// `"no pending inbound open for {id}"`
pub open spec fn no_pending_text(id: u64) -> Seq<char> {
    "no pending inbound open for "@ + decimal(id as nat)
}

/// `"connection {id} is not active"`
pub open spec fn not_active_text(id: u64) -> Seq<char> {
    "connection "@ + decimal(id as nat) + " is not active"@
}

/// The session state after handling one incoming message.
pub open spec fn after_incoming(v: SessionView, id: u64, p: MessagePayload) -> SessionView {
    match p {
        MessagePayload::Hello(_) | MessagePayload::HelloYourself(_)
        | MessagePayload::ProtocolError(_) => torn_down(v),
        MessagePayload::OpenConnection(open) => if id == 0 || !matches_parity(id, flip(v.parity))
            || v.slots.contains_key(id) {
            torn_down(v)
        } else {
            SessionView {
                slots: v.slots.insert(
                    id,
                    ConnectionSlot::PendingInbound {
                        peer_parity: open.parity,
                        peer_settings: open.connection_settings,
                    },
                ),
                ..v
            }
        },
        MessagePayload::AcceptConnection(acc) => if id != 0 && !v.slots.contains_key(id) {
            v
        } else if id != 0 && v.slots[id] is PendingOutbound {
            SessionView {
                slots: v.slots.insert(
                    id,
                    ConnectionSlot::Active(
                        ConnectionState {
                            id: ConnectionId(id),
                            local_parity: v.slots[id]->local_parity,
                            peer_parity: flip(v.slots[id]->local_parity),
                            local_settings: v.slots[id]->local_settings,
                            peer_settings: acc.connection_settings,
                        },
                    ),
                ),
                ..v
            }
        } else {
            torn_down(v)
        },
        MessagePayload::RejectConnection(_) => if id != 0 && v.slots.contains_key(id)
            && v.slots[id] is PendingOutbound {
            SessionView { slots: v.slots.remove(id), ..v }
        } else {
            torn_down(v)
        },
        MessagePayload::CloseConnection(_) => if id != 0 && v.slots.contains_key(id)
            && v.slots[id] is Active {
            SessionView { slots: v.slots.remove(id), ..v }
        } else {
            torn_down(v)
        },
        _ => if active(v, id) is Some {
            v
        } else {
            torn_down(v)
        },
    }
}

/// Whether handling one incoming message succeeds (yields an event).
pub open spec fn incoming_accepted(v: SessionView, id: u64, p: MessagePayload) -> bool {
    match p {
        MessagePayload::Hello(_) | MessagePayload::HelloYourself(_)
        | MessagePayload::ProtocolError(_) => false,
        MessagePayload::OpenConnection(_) => !(id == 0 || !matches_parity(id, flip(v.parity))
            || v.slots.contains_key(id)),
        MessagePayload::AcceptConnection(_) | MessagePayload::RejectConnection(_) => id != 0
            && v.slots.contains_key(id) && v.slots[id] is PendingOutbound,
        MessagePayload::CloseConnection(_) => id != 0 && v.slots.contains_key(id)
            && v.slots[id] is Active,
        _ => active(v, id) is Some,
    }
}

/// The description of the protocol violation that makes handling an
/// incoming message fail (for the failures that are violations).
pub open spec fn violation_text(v: SessionView, id: u64, p: MessagePayload) -> Seq<char> {
    match p {
        MessagePayload::Hello(_) => "unexpected Hello after handshake"@,
        MessagePayload::HelloYourself(_) => "unexpected HelloYourself after handshake"@,
        MessagePayload::ProtocolError(_) => Seq::empty(),
        MessagePayload::OpenConnection(_) => if id == 0 {
            "OpenConnection cannot use connection 0"@
        } else if !matches_parity(id, flip(v.parity)) {
            "OpenConnection ID parity mismatch"@
        } else {
            "OpenConnection for already-used ID"@
        },
        MessagePayload::AcceptConnection(_) => if id == 0 {
            "AcceptConnection cannot use connection 0"@
        } else {
            "AcceptConnection without matching outbound open"@
        },
        MessagePayload::RejectConnection(_) => if id == 0 {
            "RejectConnection cannot use connection 0"@
        } else {
            "RejectConnection without matching outbound open"@
        },
        MessagePayload::CloseConnection(_) => if id == 0 {
            "CloseConnection cannot use connection 0"@
        } else {
            "CloseConnection for unknown ID"@
        },
        _ => "rpc/channel message for unknown connection"@,
    }
}

/// Whether a failed incoming message closes the session. Every failure
/// does, except an `AcceptConnection` for an id with no slot at all, which
/// is refused and leaves the session as it was.
pub open spec fn failure_tears_down(v: SessionView, id: u64, p: MessagePayload) -> bool {
    !(p is AcceptConnection && id != 0 && !v.slots.contains_key(id))
}

/// Whether `r` is an `InvalidState` error with the given text.
pub open spec fn invalid_state<T>(r: Result<T, SessionError>, text: Seq<char>) -> bool {
    match r {
        Err(SessionError::InvalidState(s)) => s@ == text,
        _ => false,
    }
}

/// The outcome of handling one incoming message: the event or error, and
/// the protocol-error message to send before the conduit is closed, when
/// the session closes it because of a violation.
#[derive(Debug)]
pub struct Handled {
    pub result: Result<SessionEvent, SessionError>,
    pub protocol_error: Option<Message>,
}

/// The session state machine.
#[derive(Debug)]
pub struct Session {
    open: bool,
    role: SessionRole,
    local_session_parity: Parity,
    slots: std::collections::BTreeMap<u64, ConnectionSlot>,
}

impl View for Session {
    type V = SessionView;

    closed spec fn view(&self) -> SessionView {
        SessionView {
            open: self.open,
            role: self.role,
            parity: self.local_session_parity,
            slots: self.slots@,
        }
    }
}

fn text_string(s: &str) -> (r: String)
    ensures
        r@ == s@,
{
    s.to_string()
}

fn number_text(prefix: &str, id: u64, suffix: &str) -> (r: String)
    ensures
        r@ == prefix@ + decimal(id as nat) + suffix@,
{
    let mut r = prefix.to_string();
    push_decimal(&mut r, id);
    r.append(suffix);
    r
}

fn prefixed_number(prefix: &str, id: u64) -> (r: String)
    ensures
        r@ == prefix@ + decimal(id as nat),
{
    let mut r = prefix.to_string();
    push_decimal(&mut r, id);
    r
}

/// A message on the root connection.
fn protocol_error_message(description: &str) -> (m: Message)
    ensures
        m.connection_id.0 == 0,
        m.payload is ProtocolError,
        m.payload->ProtocolError_0.description@ == description@,
{
    Message {
        connection_id: ConnectionId::root(),
        payload: MessagePayload::ProtocolError(ProtocolError { description: text_string(description) }),
    }
}

impl Session {
    /// A freshly established session: only the root connection, active.
    pub fn new(
        role: SessionRole,
        local_session_parity: Parity,
        local_root_settings: ConnectionSettings,
        peer_root_settings: ConnectionSettings,
    ) -> (s: Session)
        ensures
            s@.open,
            s@.role == role,
            s@.parity == local_session_parity,
            s@.slots == Map::<u64, ConnectionSlot>::empty().insert(
                0,
                ConnectionSlot::Active(
                    ConnectionState {
                        id: ConnectionId(0),
                        local_parity: local_session_parity,
                        peer_parity: flip(local_session_parity),
                        local_settings: local_root_settings,
                        peer_settings: peer_root_settings,
                    },
                ),
            ),
            session_wf(s@),
    {
        let mut slots = std::collections::BTreeMap::new();
        slots.insert(
            0,
            ConnectionSlot::Active(
                ConnectionState {
                    id: ConnectionId::root(),
                    local_parity: local_session_parity,
                    peer_parity: local_session_parity.other(),
                    local_settings: local_root_settings,
                    peer_settings: peer_root_settings,
                },
            ),
        );
        let s = Session { open: true, role, local_session_parity, slots };
        assert(s@.slots.dom() =~= set![0u64]);
        s
    }

    pub fn role(&self) -> (r: SessionRole)
        ensures
            r == self@.role,
    {
        self.role
    }

    pub fn local_session_parity(&self) -> (p: Parity)
        ensures
            p == self@.parity,
    {
        self.local_session_parity
    }

    pub fn peer_session_parity(&self) -> (p: Parity)
        ensures
            p == flip(self@.parity),
    {
        self.local_session_parity.other()
    }

    /// Whether the conduit is still ours to send on.
    pub fn is_open(&self) -> (b: bool)
        ensures
            b == self@.open,
    {
        self.open
    }

    /// The active connection under `conn_id`; pending ones are not reported.
    pub fn connection(&self, conn_id: ConnectionId) -> (c: Option<ConnectionState>)
        ensures
            c == active(self@, conn_id.0),
    {
        match self.slots.get(&conn_id.0) {
            Some(ConnectionSlot::Active(state)) => Some(*state),
            _ => None,
        }
    }

    /// Close the conduit locally: no message, every connection is gone.
    pub fn close(&mut self)
        ensures
            final(self)@ == torn_down(old(self)@),
            session_wf(final(self)@),
    {
        self.teardown_local();
    }

    fn teardown_local(&mut self)
        ensures
            final(self)@ == torn_down(old(self)@),
    {
        self.open = false;
        self.slots.clear();
        assert(self@.slots =~= Map::<u64, ConnectionSlot>::empty());
    }

    fn protocol_violation(&mut self, description: &str) -> (h: Handled)
        ensures
            final(self)@ == torn_down(old(self)@),
            h.result is Err,
            h.result->Err_0 is ProtocolViolation,
            h.result->Err_0->ProtocolViolation_0@ == description@,
            old(self)@.open ==> h.protocol_error is Some
                && h.protocol_error->0.connection_id.0 == 0
                && h.protocol_error->0.payload is ProtocolError
                && h.protocol_error->0.payload->ProtocolError_0.description@ == description@,
            !old(self)@.open ==> h.protocol_error is None,
    {
        let reply = if self.open {
            Some(protocol_error_message(description))
        } else {
            None
        };
        self.teardown_local();
        Handled {
            result: Err(SessionError::ProtocolViolation(text_string(description))),
            protocol_error: reply,
        }
    }

    /// Check an `open_connection` request and build the `OpenConnection`
    /// message for it. Nothing changes yet: once the message is on the
    /// conduit, [`Session::record_outbound_open`] records the pending open.
    pub fn open_connection(
        &self,
        conn_id: ConnectionId,
        local_parity: Parity,
        local_settings: ConnectionSettings,
        metadata: Metadata,
    ) -> (r: Result<Message, SessionError>)
        ensures
            r is Ok <==> !open_refused(self@, conn_id.0),
            r matches Ok(m) ==> m.connection_id == conn_id && m.payload is OpenConnection
                && m.payload->OpenConnection_0.parity == local_parity
                && m.payload->OpenConnection_0.connection_settings == local_settings
                && m.payload->OpenConnection_0.metadata@ == metadata@,
            conn_id.0 == 0 ==> invalid_state(r, "cannot open root connection"@),
            conn_id.0 != 0 && !matches_parity(conn_id.0, self@.parity) ==> invalid_state(r, parity_mismatch_text(conn_id.0, self@.parity)),
            conn_id.0 != 0 && matches_parity(conn_id.0, self@.parity) && self@.slots.contains_key(
                conn_id.0,
            ) ==> invalid_state(r, in_use_text(conn_id.0)),
    {
        if conn_id.is_root() {
            return Err(SessionError::InvalidState(text_string("cannot open root connection")));
        }
        if !id_matches_parity(conn_id.0, &self.local_session_parity) {
            let mut s = number_text(
                "connection id ",
                conn_id.0,
                " does not match local session parity ",
            );
                    match self.local_session_parity {
                Parity::Odd => s.append("Odd"),
                Parity::Even => s.append("Even"),
            }
            return Err(SessionError::InvalidState(s));
        }
        if self.slots.contains_key(&conn_id.0) {
            return Err(
                SessionError::InvalidState(number_text("connection id ", conn_id.0, " already in use")),
            );
        }
        Ok(
            Message {
                connection_id: conn_id,
                payload: MessagePayload::OpenConnection(
                    OpenConnection { parity: local_parity, connection_settings: local_settings, metadata },
                ),
            },
        )
    }

    /// Record an outbound open whose `OpenConnection` was sent.
    pub fn record_outbound_open(
        &mut self,
        conn_id: ConnectionId,
        local_parity: Parity,
        local_settings: ConnectionSettings,
    )
        requires
            session_wf(old(self)@),
            old(self)@.open,
            !open_refused(old(self)@, conn_id.0),
        ensures
            final(self)@ == (SessionView {
                slots: old(self)@.slots.insert(
                    conn_id.0,
                    ConnectionSlot::PendingOutbound { local_parity, local_settings },
                ),
                ..old(self)@
            }),
            session_wf(final(self)@),
    {
        self.slots.insert(conn_id.0, ConnectionSlot::PendingOutbound { local_parity, local_settings });
    }

    /// Accept a pending inbound open: the connection becomes active and the
    /// `AcceptConnection` message to send is returned.
    pub fn accept_connection(
        &mut self,
        conn_id: ConnectionId,
        local_settings: ConnectionSettings,
        metadata: Metadata,
    ) -> (r: Result<Message, SessionError>)
        requires
            session_wf(old(self)@),
        ensures
            session_wf(final(self)@),
            old(self)@.slots.contains_key(conn_id.0) && old(self)@.slots[conn_id.0] is PendingInbound
                ==> {
                let pp = old(self)@.slots[conn_id.0]->peer_parity;
                &&& final(self)@ == (SessionView {
                    slots: old(self)@.slots.insert(
                        conn_id.0,
                        ConnectionSlot::Active(
                            ConnectionState {
                                id: conn_id,
                                local_parity: flip(pp),
                                peer_parity: pp,
                                local_settings,
                                peer_settings: old(self)@.slots[conn_id.0]->peer_settings,
                            },
                        ),
                    ),
                    ..old(self)@
                })
                &&& (r matches Ok(m) && m.connection_id == conn_id && m.payload is AcceptConnection
                    && m.payload->AcceptConnection_0.connection_settings == local_settings
                    && m.payload->AcceptConnection_0.metadata@ == metadata@)
            },
            !(old(self)@.slots.contains_key(conn_id.0) && old(self)@.slots[conn_id.0] is PendingInbound)
                ==> final(self)@ == old(self)@ && invalid_state(r, no_pending_text(conn_id.0)),
    {
        let pending = match self.slots.get(&conn_id.0) {
            Some(ConnectionSlot::PendingInbound { peer_parity, peer_settings }) => (
                *peer_parity,
                *peer_settings,
            ),
            _ => {
                return Err(
                    SessionError::InvalidState(prefixed_number("no pending inbound open for ", conn_id.0)),
                );
            },
        };
        let (peer_parity, peer_settings) = pending;
        let local_parity = peer_parity.other();
        self.slots.insert(
            conn_id.0,
            ConnectionSlot::Active(
                ConnectionState { id: conn_id, local_parity, peer_parity, local_settings, peer_settings },
            ),
        );
        Ok(
            Message {
                connection_id: conn_id,
                payload: MessagePayload::AcceptConnection(
                    AcceptConnection { connection_settings: local_settings, metadata },
                ),
            },
        )
    }

    /// Reject a pending inbound open: the slot is dropped and the
    /// `RejectConnection` message to send is returned.
    pub fn reject_connection(&mut self, conn_id: ConnectionId, metadata: Metadata) -> (r: Result<
        Message,
        SessionError,
    >)
        requires
            session_wf(old(self)@),
        ensures
            session_wf(final(self)@),
            old(self)@.slots.contains_key(conn_id.0) && old(self)@.slots[conn_id.0] is PendingInbound
                ==> final(self)@ == (SessionView { slots: old(self)@.slots.remove(conn_id.0), ..old(self)@ })
                && (r matches Ok(m) && m.connection_id == conn_id && m.payload is RejectConnection
                && m.payload->RejectConnection_0.metadata@ == metadata@),
            !(old(self)@.slots.contains_key(conn_id.0) && old(self)@.slots[conn_id.0] is PendingInbound)
                ==> final(self)@ == old(self)@ && invalid_state(r, no_pending_text(conn_id.0)),
    {
        match self.slots.get(&conn_id.0) {
            Some(ConnectionSlot::PendingInbound { .. }) => {},
            _ => {
                return Err(
                    SessionError::InvalidState(prefixed_number("no pending inbound open for ", conn_id.0)),
                );
            },
        }
        self.slots.remove(&conn_id.0);
        Ok(
            Message {
                connection_id: conn_id,
                payload: MessagePayload::RejectConnection(RejectConnection { metadata }),
            },
        )
    }

    /// Close an active (non-root) connection: the slot is dropped and the
    /// `CloseConnection` message to send is returned.
    pub fn close_connection(&mut self, conn_id: ConnectionId, metadata: Metadata) -> (r: Result<
        Message,
        SessionError,
    >)
        requires
            session_wf(old(self)@),
        ensures
            session_wf(final(self)@),
            conn_id.0 == 0 ==> final(self)@ == old(self)@ && invalid_state(r, "cannot close root connection"@),
            conn_id.0 != 0 && active(old(self)@, conn_id.0) is Some ==> final(self)@ == (SessionView {
                slots: old(self)@.slots.remove(conn_id.0),
                ..old(self)@
            }) && (r matches Ok(m) && m.connection_id == conn_id && m.payload is CloseConnection
                && m.payload->CloseConnection_0.metadata@ == metadata@),
            conn_id.0 != 0 && active(old(self)@, conn_id.0) is None ==> final(self)@ == old(self)@
                && invalid_state(r, not_active_text(conn_id.0)),
    {
        if conn_id.is_root() {
            return Err(SessionError::InvalidState(text_string("cannot close root connection")));
        }
        match self.slots.get(&conn_id.0) {
            Some(ConnectionSlot::Active(_)) => {},
            _ => {
                return Err(
                    SessionError::InvalidState(number_text("connection ", conn_id.0, " is not active")),
                );
            },
        }
        self.slots.remove(&conn_id.0);
        Ok(
            Message {
                connection_id: conn_id,
                payload: MessagePayload::CloseConnection(CloseConnection { metadata }),
            },
        )
    }

    /// Check that an RPC or channel message may be sent: its connection
    /// must be active and its payload must be RPC or channel traffic.
    pub fn send_rpc_message(&self, msg: &Message) -> (r: Result<(), SessionError>)
        ensures
            r is Ok <==> active(self@, msg.connection_id.0) is Some && is_rpc_or_channel(msg.payload),
            active(self@, msg.connection_id.0) is None ==> invalid_state(r, not_active_text(msg.connection_id.0)),
            active(self@, msg.connection_id.0) is Some && !is_rpc_or_channel(msg.payload) ==> invalid_state(r, "send_rpc_message only accepts rpc/channel payloads"@),
    {
        match self.slots.get(&msg.connection_id.0) {
            Some(ConnectionSlot::Active(_)) => {},
            _ => {
                return Err(
                    SessionError::InvalidState(
                        number_text("connection ", msg.connection_id.0, " is not active"),
                    ),
                );
            },
        }
        if !is_rpc_or_channel_payload(&msg.payload) {
            return Err(
                SessionError::InvalidState(
                    text_string("send_rpc_message only accepts rpc/channel payloads"),
                ),
            );
        }
        Ok(())
    }

    /// Handle one message from the peer after the handshake.
    ///
    /// Control messages open, accept, reject or close virtual connections;
    /// RPC and channel messages are passed on for active connections. A
    /// protocol violation closes the session, and the protocol-error message
    /// to send before closing the conduit comes back with the error.
    pub fn handle_incoming(&mut self, msg: Message) -> (h: Handled)
        requires
            session_wf(old(self)@),
        ensures
            session_wf(final(self)@),
            final(self)@ == after_incoming(old(self)@, msg.connection_id.0, msg.payload),
            h.result is Ok <==> incoming_accepted(old(self)@, msg.connection_id.0, msg.payload),
            h.result is Ok ==> h.protocol_error is None,
            h.result is Ok ==> match msg.payload {
                MessagePayload::OpenConnection(open) => h.result->Ok_0 matches SessionEvent::IncomingConnectionOpen {
                    conn_id,
                    peer_parity,
                    peer_settings,
                    metadata,
                } && conn_id == msg.connection_id && peer_parity == open.parity && peer_settings
                    == open.connection_settings && metadata@ == open.metadata@,
                MessagePayload::AcceptConnection(_) => h.result->Ok_0
                    == SessionEvent::OutgoingConnectionAccepted { conn_id: msg.connection_id },
                MessagePayload::RejectConnection(rej) => h.result->Ok_0 matches SessionEvent::OutgoingConnectionRejected {
                    conn_id,
                    metadata,
                } && conn_id == msg.connection_id && metadata@ == rej.metadata@,
                MessagePayload::CloseConnection(c) => h.result->Ok_0 matches SessionEvent::ConnectionClosed {
                    conn_id,
                    metadata,
                } && conn_id == msg.connection_id && metadata@ == c.metadata@,
                _ => h.result->Ok_0 == SessionEvent::IncomingMessage(msg),
            },
            msg.payload is ProtocolError ==> h.protocol_error is None && (h.result matches Err(
                SessionError::RemoteProtocolError(d),
            ) && d@ == msg.payload->ProtocolError_0.description@),
            !incoming_accepted(old(self)@, msg.connection_id.0, msg.payload) && !(
            msg.payload is ProtocolError) ==> (h.result matches Err(SessionError::ProtocolViolation(d))
                && d@ == violation_text(old(self)@, msg.connection_id.0, msg.payload)),
            !incoming_accepted(old(self)@, msg.connection_id.0, msg.payload) && !(
            msg.payload is ProtocolError) ==> (h.protocol_error is Some <==> (old(self)@.open
                && failure_tears_down(old(self)@, msg.connection_id.0, msg.payload))),
            h.protocol_error matches Some(pe) ==> pe.connection_id.0 == 0 && pe.payload is ProtocolError
                && pe.payload->ProtocolError_0.description@ == violation_text(
                old(self)@,
                msg.connection_id.0,
                msg.payload,
            ),
    {
        let conn_id = msg.connection_id;
        let id = conn_id.0;
        let ghost v0 = self@;
        match msg.payload {
            MessagePayload::Hello(_) => {
                return self.protocol_violation("unexpected Hello after handshake");
            },
            MessagePayload::HelloYourself(_) => {
                return self.protocol_violation("unexpected HelloYourself after handshake");
            },
            MessagePayload::ProtocolError(err) => {
                self.teardown_local();
                return Handled {
                    result: Err(SessionError::RemoteProtocolError(err.description)),
                    protocol_error: None,
                };
            },
            MessagePayload::OpenConnection(open) => {
                if id == 0 {
                    return self.protocol_violation("OpenConnection cannot use connection 0");
                }
                if !id_matches_parity(id, &self.local_session_parity.other()) {
                    return self.protocol_violation("OpenConnection ID parity mismatch");
                }
                if self.slots.contains_key(&id) {
                    return self.protocol_violation("OpenConnection for already-used ID");
                }
                let peer_parity = open.parity;
                let peer_settings = open.connection_settings;
                self.slots.insert(id, ConnectionSlot::PendingInbound { peer_parity, peer_settings });
                assert(session_wf(self@)) by {
                    assert forall|k: u64| #[trigger] self@.slots.contains_key(k) implies match self@.slots[k] {
                        ConnectionSlot::Active(st) => st.id.0 == k,
                        ConnectionSlot::PendingInbound { .. } => k != 0 && matches_parity(k, flip(self@.parity)),
                        ConnectionSlot::PendingOutbound { .. } => k != 0 && matches_parity(k, self@.parity),
                    } by {
                        if k != id {
                            assert(v0.slots.contains_key(k));
                        }
                    }
                }
                return Handled {
                    result: Ok(
                        SessionEvent::IncomingConnectionOpen {
                            conn_id,
                            peer_parity,
                            peer_settings,
                            metadata: open.metadata,
                        },
                    ),
                    protocol_error: None,
                };
            },
            MessagePayload::AcceptConnection(accept) => {
                if id == 0 {
                    return self.protocol_violation("AcceptConnection cannot use connection 0");
                }
                let pending = match self.slots.get(&id) {
                    None => {
                        return Handled {
                            result: Err(
                                SessionError::ProtocolViolation(
                                    text_string("AcceptConnection without matching outbound open"),
                                ),
                            ),
                            protocol_error: None,
                        };
                    },
                    Some(ConnectionSlot::PendingOutbound { local_parity, local_settings }) => (
                        *local_parity,
                        *local_settings,
                    ),
                    Some(_) => {
                        return self.protocol_violation("AcceptConnection without matching outbound open");
                    },
                };
                let (local_parity, local_settings) = pending;
                let peer_settings = accept.connection_settings;
                self.slots.insert(
                    id,
                    ConnectionSlot::Active(
                        ConnectionState {
                            id: conn_id,
                            local_parity,
                            peer_parity: local_parity.other(),
                            local_settings,
                            peer_settings,
                        },
                    ),
                );
                assert(session_wf(self@)) by {
                    assert forall|k: u64| #[trigger] self@.slots.contains_key(k) implies match self@.slots[k] {
                        ConnectionSlot::Active(st) => st.id.0 == k,
                        ConnectionSlot::PendingInbound { .. } => k != 0 && matches_parity(k, flip(self@.parity)),
                        ConnectionSlot::PendingOutbound { .. } => k != 0 && matches_parity(k, self@.parity),
                    } by {
                        if k != id {
                            assert(v0.slots.contains_key(k));
                        }
                    }
                }
                return Handled {
                    result: Ok(SessionEvent::OutgoingConnectionAccepted { conn_id }),
                    protocol_error: None,
                };
            },
            MessagePayload::RejectConnection(reject) => {
                if id == 0 {
                    return self.protocol_violation("RejectConnection cannot use connection 0");
                }
                match self.slots.get(&id) {
                    Some(ConnectionSlot::PendingOutbound { .. }) => {},
                    _ => {
                        return self.protocol_violation("RejectConnection without matching outbound open");
                    },
                }
                self.slots.remove(&id);
                return Handled {
                    result: Ok(SessionEvent::OutgoingConnectionRejected { conn_id, metadata: reject.metadata }),
                    protocol_error: None,
                };
            },
            MessagePayload::CloseConnection(close) => {
                if id == 0 {
                    return self.protocol_violation("CloseConnection cannot use connection 0");
                }
                match self.slots.get(&id) {
                    Some(ConnectionSlot::Active(_)) => {},
                    _ => {
                        return self.protocol_violation("CloseConnection for unknown ID");
                    },
                }
                self.slots.remove(&id);
                return Handled {
                    result: Ok(SessionEvent::ConnectionClosed { conn_id, metadata: close.metadata }),
                    protocol_error: None,
                };
            },
            other => {
                match self.slots.get(&id) {
                    Some(ConnectionSlot::Active(_)) => {},
                    _ => {
                        return self.protocol_violation("rpc/channel message for unknown connection");
                    },
                }
                let msg = Message { connection_id: conn_id, payload: other };
                return Handled { result: Ok(SessionEvent::IncomingMessage(msg)), protocol_error: None };
            },
        }
    }
}

impl ConnectionSettings {
    /// The settings a builder starts from.
    pub fn default_settings() -> (c: ConnectionSettings)
        ensures
            c.max_concurrent_requests == 64,
    {
        ConnectionSettings { max_concurrent_requests: 64 }
    }
}

/// The outcome of one side of the handshake: the established session or
/// the error, and the message to send on the conduit (the acceptor's
/// `HelloYourself` on success, a protocol error before closing on a
/// violation).
#[derive(Debug)]
pub struct Handshake {
    pub result: Result<Session, SessionError>,
    pub send: Option<Message>,
}

/// Whether `send` is a protocol-error message on the root connection with
/// the given description.
pub open spec fn is_protocol_error(send: Option<Message>, description: Seq<char>) -> bool {
    match send {
        Some(m) => m.connection_id.0 == 0 && m.payload is ProtocolError
            && m.payload->ProtocolError_0.description@ == description,
        None => false,
    }
}

/// Whether `r` failed with a protocol violation described by `text`.
pub open spec fn violation<T>(r: Result<T, SessionError>, text: Seq<char>) -> bool {
    match r {
        Err(SessionError::ProtocolViolation(s)) => s@ == text,
        _ => false,
    }
}

/// The session the initiator establishes from a root `HelloYourself`.
pub open spec fn initiator_session(
    parity: Parity,
    local: ConnectionSettings,
    peer: ConnectionSettings,
) -> SessionView {
    SessionView {
        open: true,
        role: SessionRole::Initiator,
        parity,
        slots: Map::<u64, ConnectionSlot>::empty().insert(
            0,
            ConnectionSlot::Active(
                ConnectionState {
                    id: ConnectionId(0),
                    local_parity: parity,
                    peer_parity: flip(parity),
                    local_settings: local,
                    peer_settings: peer,
                },
            ),
        ),
    }
}

/// The session the acceptor establishes from a valid `Hello`: it takes the
/// parity the initiator did not take.
pub open spec fn acceptor_session(
    peer_parity: Parity,
    local: ConnectionSettings,
    peer: ConnectionSettings,
) -> SessionView {
    SessionView {
        open: true,
        role: SessionRole::Acceptor,
        parity: flip(peer_parity),
        slots: Map::<u64, ConnectionSlot>::empty().insert(
            0,
            ConnectionSlot::Active(
                ConnectionState {
                    id: ConnectionId(0),
                    local_parity: flip(peer_parity),
                    peer_parity: flip(flip(peer_parity)),
                    local_settings: local,
                    peer_settings: peer,
                },
            ),
        ),
    }
}

/// Whether the acceptor takes `m` as a valid opening `Hello`.
pub open spec fn hello_valid(m: Message) -> bool {
    m.connection_id.0 == 0 && m.payload is Hello && m.payload->Hello_0.version == PROTOCOL_VERSION
}

/// Builds the initiating side of a session.
#[derive(Debug)]
pub struct SessionInitiatorBuilder {
    pub parity: Parity,
    pub root_settings: ConnectionSettings,
    pub metadata: Metadata,
}

/// Builds the accepting side of a session.
#[derive(Debug)]
pub struct SessionAcceptorBuilder {
    pub root_settings: ConnectionSettings,
    pub metadata: Metadata,
}

/// Start building the initiating side: odd parity, default settings.
pub fn initiator() -> (b: SessionInitiatorBuilder)
    ensures
        b.parity == Parity::Odd,
        b.root_settings.max_concurrent_requests == 64,
        b.metadata@.len() == 0,
{
    SessionInitiatorBuilder {
        parity: Parity::Odd,
        root_settings: ConnectionSettings::default_settings(),
        metadata: Vec::new(),
    }
}

/// Start building the accepting side: default settings.
pub fn acceptor() -> (b: SessionAcceptorBuilder)
    ensures
        b.root_settings.max_concurrent_requests == 64,
        b.metadata@.len() == 0,
{
    SessionAcceptorBuilder { root_settings: ConnectionSettings::default_settings(), metadata: Vec::new() }
}

impl SessionInitiatorBuilder {
    pub fn parity(self, parity: Parity) -> (b: Self)
        ensures
            b.parity == parity,
            b.root_settings == self.root_settings,
            b.metadata == self.metadata,
    {
        SessionInitiatorBuilder { parity, ..self }
    }

    pub fn root_settings(self, settings: ConnectionSettings) -> (b: Self)
        ensures
            b.parity == self.parity,
            b.root_settings == settings,
            b.metadata == self.metadata,
    {
        SessionInitiatorBuilder { root_settings: settings, ..self }
    }

    pub fn max_concurrent_requests(self, max_concurrent_requests: u32) -> (b: Self)
        ensures
            b.parity == self.parity,
            b.root_settings.max_concurrent_requests == max_concurrent_requests,
            b.metadata == self.metadata,
    {
        SessionInitiatorBuilder { root_settings: ConnectionSettings { max_concurrent_requests }, ..self }
    }

    pub fn metadata(self, metadata: Metadata) -> (b: Self)
        ensures
            b.parity == self.parity,
            b.root_settings == self.root_settings,
            b.metadata == metadata,
    {
        SessionInitiatorBuilder { metadata, ..self }
    }

    /// The `Hello` the initiator opens with, on the root connection.
    pub fn hello(&self) -> (m: Message)
        ensures
            m.connection_id.0 == 0,
            m.payload is Hello,
            m.payload->Hello_0.version == PROTOCOL_VERSION,
            m.payload->Hello_0.parity == self.parity,
            m.payload->Hello_0.connection_settings == self.root_settings,
    {
        Message {
            connection_id: ConnectionId::root(),
            payload: MessagePayload::Hello(
                Hello {
                    version: PROTOCOL_VERSION,
                    parity: self.parity,
                    connection_settings: self.root_settings,
                    metadata: Vec::new(),
                },
            ),
        }
    }

    /// Finish the handshake from the first message the acceptor sent back
    /// (`None` when the conduit ended first).
    pub fn establish(self, first: Option<Message>) -> (h: Handshake)
        ensures
            first is None ==> h.send is None && (h.result matches Err(SessionError::UnexpectedEof(c))
                && c@ == "waiting for HelloYourself"@),
            first matches Some(m) ==> match m.payload {
                MessagePayload::HelloYourself(reply) => if m.connection_id.0 == 0 {
                    h.send is None && (h.result matches Ok(s) && s@ == initiator_session(
                        self.parity,
                        self.root_settings,
                        reply.connection_settings,
                    ))
                } else {
                    is_protocol_error(h.send, "HelloYourself must use connection ID 0"@)
                        && violation(h.result, "HelloYourself used non-root connection ID"@)
                },
                MessagePayload::ProtocolError(err) => h.send is None && (h.result matches Err(
                    SessionError::RemoteProtocolError(d),
                ) && d@ == err.description@),
                _ => is_protocol_error(h.send, "expected HelloYourself"@) && violation(
                    h.result,
                    "expected HelloYourself during handshake"@,
                ),
            },
            h.result matches Ok(s) ==> session_wf(s@),
    {
        let first = match first {
            None => {
                return Handshake {
                    result: Err(SessionError::UnexpectedEof("waiting for HelloYourself")),
                    send: None,
                };
            },
            Some(m) => m,
        };
        match first.payload {
            MessagePayload::HelloYourself(reply) => {
                if !first.connection_id.is_root() {
                    return Handshake {
                        result: Err(
                            SessionError::ProtocolViolation(
                                text_string("HelloYourself used non-root connection ID"),
                            ),
                        ),
                        send: Some(protocol_error_message("HelloYourself must use connection ID 0")),
                    };
                }
                let s = Session::new(
                    SessionRole::Initiator,
                    self.parity,
                    self.root_settings,
                    reply.connection_settings,
                );
                Handshake { result: Ok(s), send: None }
            },
            MessagePayload::ProtocolError(err) => Handshake {
                result: Err(SessionError::RemoteProtocolError(err.description)),
                send: None,
            },
            _ => Handshake {
                result: Err(
                    SessionError::ProtocolViolation(text_string("expected HelloYourself during handshake")),
                ),
                send: Some(protocol_error_message("expected HelloYourself")),
            },
        }
    }
}

impl SessionAcceptorBuilder {
    pub fn root_settings(self, settings: ConnectionSettings) -> (b: Self)
        ensures
            b.root_settings == settings,
            b.metadata == self.metadata,
    {
        SessionAcceptorBuilder { root_settings: settings, ..self }
    }

    pub fn max_concurrent_requests(self, max_concurrent_requests: u32) -> (b: Self)
        ensures
            b.root_settings.max_concurrent_requests == max_concurrent_requests,
            b.metadata == self.metadata,
    {
        SessionAcceptorBuilder { root_settings: ConnectionSettings { max_concurrent_requests }, ..self }
    }

    pub fn metadata(self, metadata: Metadata) -> (b: Self)
        ensures
            b.root_settings == self.root_settings,
            b.metadata == metadata,
    {
        SessionAcceptorBuilder { metadata, ..self }
    }

    /// Answer the initiator's first message (`None` when the conduit ended
    /// first). On a valid `Hello` the `HelloYourself` to send comes back
    /// with the session.
    pub fn establish(self, first: Option<Message>) -> (h: Handshake)
        ensures
            first is None ==> h.send is None && (h.result matches Err(SessionError::UnexpectedEof(c))
                && c@ == "waiting for Hello"@),
            first matches Some(m) ==> match m.payload {
                MessagePayload::Hello(hello) => if m.connection_id.0 != 0 {
                    is_protocol_error(h.send, "Hello must use connection ID 0"@) && violation(
                        h.result,
                        "Hello used non-root connection ID"@,
                    )
                } else if hello.version != PROTOCOL_VERSION {
                    is_protocol_error(h.send, "unsupported Hello version"@) && violation(
                        h.result,
                        "unsupported Hello version "@ + decimal(hello.version as nat),
                    )
                } else {
                    (h.result matches Ok(s) && s@ == acceptor_session(
                        hello.parity,
                        self.root_settings,
                        hello.connection_settings,
                    )) && (h.send matches Some(r) && r.connection_id.0 == 0 && r.payload is HelloYourself
                        && r.payload->HelloYourself_0.connection_settings == self.root_settings
                        && r.payload->HelloYourself_0.metadata == self.metadata)
                },
                MessagePayload::ProtocolError(err) => h.send is None && (h.result matches Err(
                    SessionError::RemoteProtocolError(d),
                ) && d@ == err.description@),
                _ => is_protocol_error(h.send, "expected Hello"@) && violation(
                    h.result,
                    "expected Hello during handshake"@,
                ),
            },
            h.result matches Ok(s) ==> session_wf(s@),
    {
        let first = match first {
            None => {
                return Handshake {
                    result: Err(SessionError::UnexpectedEof("waiting for Hello")),
                    send: None,
                };
            },
            Some(m) => m,
        };
        let hello = match first.payload {
            MessagePayload::Hello(hello) => hello,
            MessagePayload::ProtocolError(err) => {
                return Handshake {
                    result: Err(SessionError::RemoteProtocolError(err.description)),
                    send: None,
                };
            },
            _ => {
                return Handshake {
                    result: Err(
                        SessionError::ProtocolViolation(text_string("expected Hello during handshake")),
                    ),
                    send: Some(protocol_error_message("expected Hello")),
                };
            },
        };
        if !first.connection_id.is_root() {
            return Handshake {
                result: Err(
                    SessionError::ProtocolViolation(text_string("Hello used non-root connection ID")),
                ),
                send: Some(protocol_error_message("Hello must use connection ID 0")),
            };
        }
        if hello.version != PROTOCOL_VERSION {
            let mut d = text_string("unsupported Hello version ");
            push_decimal(&mut d, hello.version as u64);
            return Handshake {
                result: Err(SessionError::ProtocolViolation(d)),
                send: Some(protocol_error_message("unsupported Hello version")),
            };
        }
        let local_parity = hello.parity.other();
        let reply = Message {
            connection_id: ConnectionId::root(),
            payload: MessagePayload::HelloYourself(
                HelloYourself { connection_settings: self.root_settings, metadata: self.metadata },
            ),
        };
        let s = Session::new(
            SessionRole::Acceptor,
            local_parity,
            self.root_settings,
            hello.connection_settings,
        );
        Handshake { result: Ok(s), send: Some(reply) }
    }
}

/// After the handshake both sides agree: the acceptor allocates from the
/// half of the id space the initiator left (so no id is ever allocated by
/// both), and each side's root connection records the other's settings as
/// the peer's.
pub proof fn law_handshake_agreement(
    parity: Parity,
    initiator_settings: ConnectionSettings,
    acceptor_settings: ConnectionSettings,
)
    ensures
        ({
            let i = initiator_session(parity, initiator_settings, acceptor_settings);
            let a = acceptor_session(parity, acceptor_settings, initiator_settings);
            &&& a.parity == flip(i.parity)
            &&& forall|id: u64| !(matches_parity(id, i.parity) && matches_parity(id, a.parity))
            &&& active(i, 0) matches Some(ri) && active(a, 0) matches Some(ra)
                && ri.local_settings == ra.peer_settings && ra.local_settings == ri.peer_settings
                && ri.local_parity == ra.peer_parity && ra.local_parity == ri.peer_parity
            &&& session_wf(i) && session_wf(a)
        }),
{
    let i = initiator_session(parity, initiator_settings, acceptor_settings);
    let a = acceptor_session(parity, acceptor_settings, initiator_settings);
    assert(i.slots.contains_key(0));
    assert(a.slots.contains_key(0));
}

/// A connection opened locally and accepted by the peer becomes active with
/// the parity and settings we asked for, the peer's settings from the
/// acceptance, and the peer on the other parity.
pub proof fn law_open_then_accept(
    v: SessionView,
    id: u64,
    local_parity: Parity,
    local_settings: ConnectionSettings,
    acc: AcceptConnection,
)
    requires
        session_wf(v),
        v.open,
        !open_refused(v, id),
    ensures
        ({
            let v1 = SessionView {
                slots: v.slots.insert(
                    id,
                    ConnectionSlot::PendingOutbound { local_parity, local_settings },
                ),
                ..v
            };
            &&& incoming_accepted(v1, id, MessagePayload::AcceptConnection(acc))
            &&& active(after_incoming(v1, id, MessagePayload::AcceptConnection(acc)), id) == Some(
                ConnectionState {
                    id: ConnectionId(id),
                    local_parity,
                    peer_parity: flip(local_parity),
                    local_settings,
                    peer_settings: acc.connection_settings,
                },
            )
        }),
{
}

/// A message the session refuses as a protocol violation closes the session:
/// the conduit is no longer ours and no connection is left.
pub proof fn law_violation_closes_session(v: SessionView, id: u64, p: MessagePayload)
    requires
        !incoming_accepted(v, id, p),
        failure_tears_down(v, id, p),
    ensures
        !after_incoming(v, id, p).open,
        after_incoming(v, id, p).slots == Map::<u64, ConnectionSlot>::empty(),
{
}

/// A rejected open gives its id back: once the peer rejects a connection we
/// asked to open, the session holds nothing under that id (so the id can be
/// opened again, and another answer for it is a protocol violation), and
/// every other connection is as it was.
pub proof fn law_rejected_open_frees_its_id(
    v: SessionView,
    id: u64,
    rej: RejectConnection,
    again: RejectConnection,
    acc: AcceptConnection,
)
    requires
        session_wf(v),
        incoming_accepted(v, id, MessagePayload::RejectConnection(rej)),
    ensures
        ({
            let v1 = after_incoming(v, id, MessagePayload::RejectConnection(rej));
            &&& !v1.slots.contains_key(id)
            &&& forall|k: u64|
                k != id ==> (#[trigger] v1.slots.contains_key(k) == v.slots.contains_key(k) && (
                v.slots.contains_key(k) ==> v1.slots[k] == v.slots[k]))
            &&& v1.open == v.open && v1.parity == v.parity && v1.role == v.role
            &&& !open_refused(v1, id)
            &&& !incoming_accepted(v1, id, MessagePayload::RejectConnection(again))
            &&& !incoming_accepted(v1, id, MessagePayload::AcceptConnection(acc))
        }),
{
    assert(v.slots.contains_key(id));
}

} // verus!
