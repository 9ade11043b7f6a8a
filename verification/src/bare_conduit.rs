//! The errors of a bare conduit (one message per link packet, no
//! sequencing) and what its receiving half makes of what the link yields.
use vstd::prelude::*;

use vstd::string::StringExecFns;

use crate::link::IoFailure;

verus! {

/// Errors of a bare conduit; the encoder's, decoder's and link's failures
/// are carried by their messages.
#[derive(Debug, Clone)]
pub enum BareConduitError {
    Encode(String),
    Decode(String),
    Io(IoFailure),
    LinkDead,
}

/// The text of a bare conduit error.
pub open spec fn bare_conduit_error_text(e: BareConduitError) -> Seq<char> {
    match e {
        BareConduitError::Encode(m) => "encode error: "@ + m@,
        BareConduitError::Decode(m) => "decode error: "@ + m@,
        BareConduitError::Io(f) => "io error: "@ + f.message@,
        BareConduitError::LinkDead => "link dead"@,
    }
}

impl BareConduitError {
    /// The human-readable description of the error.
    pub fn message(&self) -> (s: String)
        ensures
            s@ == bare_conduit_error_text(*self),
    {
        let (prefix, detail) = match self {
            BareConduitError::Encode(m) => ("encode error: ", m.as_str()),
            BareConduitError::Decode(m) => ("decode error: ", m.as_str()),
            BareConduitError::Io(f) => ("io error: ", f.message.as_str()),
            BareConduitError::LinkDead => {
                return "link dead".to_string();
            },
        };
        let mut s = prefix.to_string();
        s.append(detail);
        s
    }
}

/// What the receiving half makes of one read of the link: a failed read
/// means the link is dead, the end of the link ends the stream (`None`),
/// and a packet is handed on to be decoded.
pub fn recv_outcome<E>(read: Result<Option<Vec<u8>>, E>) -> (r: Result<
    Option<Vec<u8>>,
    BareConduitError,
>)
    ensures
        match read {
            Err(_) => r matches Err(BareConduitError::LinkDead),
            Ok(None) => r matches Ok(None),
            Ok(Some(p)) => r matches Ok(Some(q)) && q@ == p@,
        },
{
    match read {
        Err(_) => Err(BareConduitError::LinkDead),
        Ok(None) => Ok(None),
        Ok(Some(p)) => Ok(Some(p)),
    }
}

} // verus!
