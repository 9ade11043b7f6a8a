//! The binding state of channel handles and what a receiving handle makes
//! of what the driver delivers to it.
//!
//! A handle starts unbound (on the root connection, with the reserved
//! channel id 0). The session driver binds it to a connection and channel
//! and attaches the runtime end it sends or receives through.
use vstd::prelude::*;

use vstd::string::StringExecFns;

use crate::text::{decimal, push_decimal};

verus! {

/// The channel id no channel uses.
pub const RESERVED_CHANNEL_ID: u64 = 0;

/// The binding of a `Tx` or `Rx` handle.
#[derive(Debug, Clone, Copy, PartialEq, Eq, Structural)]
pub struct ChannelBinding {
    pub conn_id: u64,
    pub channel_id: u64,
    /// Whether the runtime end (sink or receiver) is attached.
    pub attached: bool,
}

/// Whether a binding is usable: attached, with a real channel id.
pub open spec fn bound(b: ChannelBinding) -> bool {
    b.attached && b.channel_id != RESERVED_CHANNEL_ID
}

impl ChannelBinding {
    /// An unbound handle: root connection, reserved channel id, nothing
    /// attached.
    pub fn unbound() -> (b: Self)
        ensures
            b == (ChannelBinding { conn_id: 0, channel_id: RESERVED_CHANNEL_ID, attached: false }),
    {
        ChannelBinding { conn_id: 0, channel_id: RESERVED_CHANNEL_ID, attached: false }
    }

    /// Binds the handle to a channel of a connection, with its runtime end.
    pub fn bind(&mut self, conn_id: u64, channel_id: u64)
        ensures
            *final(self) == (ChannelBinding { conn_id, channel_id, attached: true }),
    {
        self.conn_id = conn_id;
        self.channel_id = channel_id;
        self.attached = true;
    }

    /// Whether the handle can be used.
    pub fn is_bound(&self) -> (r: bool)
        ensures
            r == bound(*self),
    {
        self.attached && self.channel_id != RESERVED_CHANNEL_ID
    }

    /// The connection of a bound handle.
    pub fn connection_id(&self) -> (r: Option<u64>)
        ensures
            r == (if bound(*self) {
                Some(self.conn_id)
            } else {
                None::<u64>
            }),
    {
        if self.is_bound() {
            Some(self.conn_id)
        } else {
            None
        }
    }

    /// The channel id of a bound handle.
    pub fn channel_id(&self) -> (r: Option<u64>)
        ensures
            r == (if bound(*self) {
                Some(self.channel_id)
            } else {
                None::<u64>
            }),
    {
        if self.is_bound() {
            Some(self.channel_id)
        } else {
            None
        }
    }
}

/// What the driver delivers to a receiving handle.
#[derive(Debug)]
pub enum IncomingChannelMessage {
    /// A channel item for the given connection and channel, with its bytes.
    Item { conn_id: u64, channel_id: u64, payload: Vec<u8> },
    /// A message that is not a channel item.
    OtherMessage,
    /// The sender closed the channel.
    Close,
    /// The sender reset the channel.
    Reset,
}

/// Errors of a receiving handle.
#[derive(Debug, Clone, PartialEq, Eq)]
pub enum RxError {
    Unbound,
    Reset,
    Protocol(String),
}

/// Errors of a sending handle.
#[derive(Debug, Clone, PartialEq, Eq)]
pub enum TxError {
    Unbound,
    Transport(String),
}

/// The text of the error for an item on another channel.
pub open spec fn unexpected_channel_text(got: (u64, u64), expected: (u64, u64)) -> Seq<char> {
    "received item for unexpected channel: got ("@ + decimal(got.0 as nat) + ", "@ + decimal(
        got.1 as nat,
    ) + ") expected ("@ + decimal(expected.0 as nat) + ", "@ + decimal(expected.1 as nat) + ")"@
}

/// The failures of a receive, over character sequences.
pub ghost enum RxFailure {
    Unbound,
    Reset,
    Protocol(Seq<char>),
}

/// A receive error as a failure.
pub open spec fn rx_failure(e: RxError) -> RxFailure {
    match e {
        RxError::Unbound => RxFailure::Unbound,
        RxError::Reset => RxFailure::Reset,
        RxError::Protocol(m) => RxFailure::Protocol(m@),
    }
}

/// What a receive yields: the end of the stream on a close (or when the
/// driver is gone), an error on a reset or on anything but an item for this
/// very channel, and otherwise the item's bytes.
pub open spec fn received(b: ChannelBinding, m: Option<IncomingChannelMessage>) -> Result<
    Option<Seq<u8>>,
    RxFailure,
> {
    if !b.attached {
        Err(RxFailure::Unbound)
    } else {
        match m {
            None => Ok(None),
            Some(IncomingChannelMessage::Close) => Ok(None),
            Some(IncomingChannelMessage::Reset) => Err(RxFailure::Reset),
            Some(IncomingChannelMessage::OtherMessage) => Err(
                RxFailure::Protocol("expected ChannelItem message"@),
            ),
            Some(IncomingChannelMessage::Item { conn_id, channel_id, payload }) => if conn_id
                != b.conn_id || channel_id != b.channel_id {
                Err(
                    RxFailure::Protocol(
                        unexpected_channel_text((conn_id, channel_id), (b.conn_id, b.channel_id)),
                    ),
                )
            } else {
                Ok(Some(payload@))
            },
        }
    }
}

/// The view of a receive's result.
pub open spec fn receive_view(r: Result<Option<Vec<u8>>, RxError>) -> Result<
    Option<Seq<u8>>,
    RxFailure,
> {
    match r {
        Ok(Some(v)) => Ok(Some(v@)),
        Ok(None) => Ok(None),
        Err(e) => Err(rx_failure(e)),
    }
}

/// What a receiving handle makes of what the driver delivered (`None`: the
/// driver side is gone). The item's bytes are decoded by the caller.
pub fn receive(b: &ChannelBinding, m: Option<IncomingChannelMessage>) -> (r: Result<
    Option<Vec<u8>>,
    RxError,
>)
    ensures
        receive_view(r) == received(*b, m),
{
    if !b.attached {
        return Err(RxError::Unbound);
    }
    match m {
        None => Ok(None),
        Some(IncomingChannelMessage::Close) => Ok(None),
        Some(IncomingChannelMessage::Reset) => Err(RxError::Reset),
        Some(IncomingChannelMessage::OtherMessage) => Err(
            RxError::Protocol("expected ChannelItem message".to_string()),
        ),
        Some(IncomingChannelMessage::Item { conn_id, channel_id, payload }) => {
            if conn_id != b.conn_id || channel_id != b.channel_id {
                let mut s = "received item for unexpected channel: got (".to_string();
                push_decimal(&mut s, conn_id);
                s.append(", ");
                push_decimal(&mut s, channel_id);
                s.append(") expected (");
                push_decimal(&mut s, b.conn_id);
                s.append(", ");
                push_decimal(&mut s, b.channel_id);
                s.append(")");
                Err(RxError::Protocol(s))
            } else {
                Ok(Some(payload))
            }
        },
    }
}

/// A sending handle checks that it is attached before it sends or closes.
pub fn check_can_send(b: &ChannelBinding) -> (r: Result<(), TxError>)
    ensures
        r is Ok <==> b.attached,
        r matches Err(e) ==> e == TxError::Unbound,
{
    if b.attached {
        Ok(())
    } else {
        Err(TxError::Unbound)
    }
}

/// The text of a receive error.
pub open spec fn rx_error_text(e: RxError) -> Seq<char> {
    match e {
        RxError::Unbound => "channel is not bound"@,
        RxError::Reset => "channel reset by peer"@,
        RxError::Protocol(m) => "protocol error: "@ + m@,
    }
}

/// The text of a send error.
pub open spec fn tx_error_text(e: TxError) -> Seq<char> {
    match e {
        TxError::Unbound => "channel is not bound"@,
        TxError::Transport(m) => "transport error: "@ + m@,
    }
}

impl RxError {
    /// The human-readable description of the error.
    pub fn message(&self) -> (s: String)
        ensures
            s@ == rx_error_text(*self),
    {
        match self {
            RxError::Unbound => "channel is not bound".to_string(),
            RxError::Reset => "channel reset by peer".to_string(),
            RxError::Protocol(m) => {
                let mut s = "protocol error: ".to_string();
                s.append(m.as_str());
                s
            },
        }
    }
}

impl TxError {
    /// The human-readable description of the error.
    pub fn message(&self) -> (s: String)
        ensures
            s@ == tx_error_text(*self),
    {
        match self {
            TxError::Unbound => "channel is not bound".to_string(),
            TxError::Transport(m) => {
                let mut s = "transport error: ".to_string();
                s.append(m.as_str());
                s
            },
        }
    }
}

/// An item of the queue behind a sending handle.
#[derive(Debug, PartialEq, Eq)]
pub enum QueuedItem {
    Data(Vec<u8>),
    Close,
}

/// What the drain task of a sending handle hands the driver.
#[derive(Debug, PartialEq, Eq)]
pub enum DrainForward {
    Data { conn_id: u64, channel_id: u64, payload: Vec<u8> },
    Close { conn_id: u64, channel_id: u64 },
}

/// One step of the task that drains a sending handle's queue into the
/// driver: data is forwarded and draining goes on; a close, or the queue
/// gone (`None`), is forwarded as a close and draining stops. (Draining also
/// stops when the driver refuses what is forwarded.)
pub fn drain_step(conn_id: u64, channel_id: u64, item: Option<QueuedItem>) -> (r: (
    DrainForward,
    bool,
))
    ensures
        match item {
            Some(QueuedItem::Data(p)) => r.1 && r.0 == (DrainForward::Data {
                conn_id,
                channel_id,
                payload: p,
            }),
            _ => !r.1 && r.0 == (DrainForward::Close { conn_id, channel_id }),
        },
{
    match item {
        Some(QueuedItem::Data(payload)) => (DrainForward::Data { conn_id, channel_id, payload }, true),
        _ => (DrainForward::Close { conn_id, channel_id }, false),
    }
}

/// A receiver yields only the items of its own channel: an item is handed
/// over only when both its connection and its channel are the binding's,
/// and an item of any other connection or channel is a protocol error.
pub proof fn law_items_only_from_own_channel(
    b: ChannelBinding,
    conn_id: u64,
    channel_id: u64,
    payload: Vec<u8>,
)
    requires
        b.attached,
    ensures
        received(b, Some(IncomingChannelMessage::Item { conn_id, channel_id, payload })) matches Ok(
            Some(p),
        ) ==> conn_id == b.conn_id && channel_id == b.channel_id && p == payload@,
        conn_id != b.conn_id || channel_id != b.channel_id ==> received(
            b,
            Some(IncomingChannelMessage::Item { conn_id, channel_id, payload }),
        ) is Err,
        conn_id == b.conn_id && channel_id == b.channel_id ==> received(
            b,
            Some(IncomingChannelMessage::Item { conn_id, channel_id, payload }),
        ) == Ok::<Option<Seq<u8>>, RxFailure>(Some(payload@)),
{
}

} // verus!
