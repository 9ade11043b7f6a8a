//! Plain values of the in-process link and of channel handles on the wire.
use vstd::prelude::*;

verus! {

/// The receive error of an in-process link. Receiving on such a link never
/// fails: a closed channel is reported as the end of the stream instead.
#[derive(Debug, Clone, Copy, PartialEq, Eq, Structural)]
pub struct MemoryLinkRxError;

impl MemoryLinkRxError {
    /// The human-readable description of the error.
    pub fn message(&self) -> (s: String)
        ensures
            s@ == "memory link rx error (unreachable)"@,
    {
        "memory link rx error (unreachable)".to_string()
    }
}

/// The wire form of a channel handle: just its channel id.
#[derive(Debug, Clone, Copy, PartialEq, Eq, Structural)]
pub struct TxProxy(pub u64);

impl TxProxy {
    /// The proxy of the handle with this stream id.
    pub fn from_stream_id(stream_id: u64) -> (p: TxProxy)
        ensures
            p.0 == stream_id,
    {
        TxProxy(stream_id)
    }

    /// The stream id a handle rebuilt from this proxy has.
    pub fn stream_id(&self) -> (id: u64)
        ensures
            id == self.0,
    {
        self.0
    }
}

} // verus!
