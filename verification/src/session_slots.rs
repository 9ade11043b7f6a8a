//! The connection table of a session run loop: which connection ids are
//! active and which await the peer's answer to an open, and what the loop
//! does with the peer's opens, accepts and rejects and with local open and
//! close requests.
//!
//! The loop sends what these functions decide and hands the results back
//! to the waiting callers.
use std::collections::BTreeMap;
use vstd::prelude::*;

use crate::session::{flip, id_matches_parity, matches_parity, Parity};

verus! {

/// The state of a connection id in the table.
#[derive(Clone, Copy, Debug, PartialEq, Eq, Structural)]
pub enum SlotKind {
    /// The connection is open and routes messages.
    Active,
    /// We asked the peer to open it and wait for the answer.
    PendingOutbound,
}

/// What the loop does with a peer's request to open a connection.
#[derive(Clone, Copy, Debug, PartialEq, Eq, Structural)]
pub enum InboundOpen {
    /// The id is not one the peer allocates: reject.
    RejectParity,
    /// The id is already in use: reject.
    RejectDuplicate,
    /// Nobody accepts connections here: reject.
    RejectNoAcceptor,
    /// Ask the acceptor, then accept or reject as it says.
    AskAcceptor,
}

/// Why a local request failed.
#[derive(Clone, Copy, Debug, PartialEq, Eq, Structural)]
pub enum RequestError {
    CannotCloseRoot,
    NotFound,
    OpenNotSent,
    CloseNotSent,
}

/// The text of a request error, as the session reports it.
pub open spec fn request_error_text(e: RequestError) -> Seq<char> {
    match e {
        RequestError::CannotCloseRoot => "cannot close root connection"@,
        RequestError::NotFound => "connection not found"@,
        RequestError::OpenNotSent => "failed to send ConnectionOpen"@,
        RequestError::CloseNotSent => "failed to send ConnectionClose"@,
    }
}

impl RequestError {
    /// The text of the error.
    pub fn message(&self) -> (s: &'static str)
        ensures
            s@ == request_error_text(*self),
    {
        match self {
            RequestError::CannotCloseRoot => "cannot close root connection",
            RequestError::NotFound => "connection not found",
            RequestError::OpenNotSent => "failed to send ConnectionOpen",
            RequestError::CloseNotSent => "failed to send ConnectionClose",
        }
    }
}

/// A session's connection table, for the side of parity `parity`.
pub struct SessionSlots {
    parity: Parity,
    slots: BTreeMap<u64, SlotKind>,
}

impl View for SessionSlots {
    type V = Map<u64, SlotKind>;

    closed spec fn view(&self) -> Map<u64, SlotKind> {
        self.slots@
    }
}

/// The decision on a peer's open of `id` against the table `t` of the side
/// of parity `p`.
pub open spec fn inbound_open_decision(
    p: Parity,
    t: Map<u64, SlotKind>,
    id: u64,
    has_acceptor: bool,
) -> InboundOpen {
    if !matches_parity(id, flip(p)) {
        InboundOpen::RejectParity
    } else if t.contains_key(id) {
        InboundOpen::RejectDuplicate
    } else if !has_acceptor {
        InboundOpen::RejectNoAcceptor
    } else {
        InboundOpen::AskAcceptor
    }
}

impl SessionSlots {
    /// The parity of the local side.
    pub closed spec fn local(&self) -> Parity {
        self.parity
    }

    /// The parity of the local side.
    pub fn parity(&self) -> (p: Parity)
        ensures
            p == self.local(),
    {
        self.parity
    }

    /// An empty table.
    pub fn new(parity: Parity) -> (s: SessionSlots)
        ensures
            s.local() == parity,
            s@ == Map::<u64, SlotKind>::empty(),
    {
        SessionSlots { parity, slots: BTreeMap::new() }
    }

    /// The state of a connection id.
    pub fn get(&self, conn_id: u64) -> (r: Option<SlotKind>)
        ensures
            r == (if self@.contains_key(conn_id) {
                Some(self@[conn_id])
            } else {
                None::<SlotKind>
            }),
    {
        match self.slots.get(&conn_id) {
            Some(k) => Some(*k),
            None => None,
        }
    }

    /// Records an open connection (the root after the handshake, or one
    /// that was accepted).
    pub fn activate(&mut self, conn_id: u64)
        ensures
            final(self).local() == old(self).local(),
            final(self)@ == old(self)@.insert(conn_id, SlotKind::Active),
    {
        self.slots.insert(conn_id, SlotKind::Active);
    }

    /// What to do with the peer's request to open `conn_id`: the id must be
    /// one the peer allocates and not in use, and someone must accept
    /// connections.
    pub fn inbound_open(&self, conn_id: u64, has_acceptor: bool) -> (r: InboundOpen)
        ensures
            r == inbound_open_decision(self.local(), self@, conn_id, has_acceptor),
    {
        let peer = self.parity.other();
        if !id_matches_parity(conn_id, &peer) {
            InboundOpen::RejectParity
        } else if self.slots.contains_key(&conn_id) {
            InboundOpen::RejectDuplicate
        } else if !has_acceptor {
            InboundOpen::RejectNoAcceptor
        } else {
            InboundOpen::AskAcceptor
        }
    }

    /// The peer accepted our open of `conn_id`: a pending open becomes an
    /// active connection (`true`); any other accept changes nothing.
    pub fn inbound_accept(&mut self, conn_id: u64) -> (resolved: bool)
        ensures
            final(self).local() == old(self).local(),
            resolved == (old(self)@.contains_key(conn_id) && old(self)@[conn_id]
                == SlotKind::PendingOutbound),
            resolved ==> final(self)@ == old(self)@.insert(conn_id, SlotKind::Active),
            !resolved ==> final(self)@ == old(self)@,
    {
        match self.slots.get(&conn_id) {
            Some(SlotKind::PendingOutbound) => {
                self.slots.insert(conn_id, SlotKind::Active);
                true
            },
            _ => false,
        }
    }

    /// The peer rejected our open of `conn_id`: a pending open is dropped
    /// (`true`); any other reject changes nothing.
    pub fn inbound_reject(&mut self, conn_id: u64) -> (resolved: bool)
        ensures
            final(self).local() == old(self).local(),
            resolved == (old(self)@.contains_key(conn_id) && old(self)@[conn_id]
                == SlotKind::PendingOutbound),
            resolved ==> final(self)@ == old(self)@.remove(conn_id),
            !resolved ==> final(self)@ == old(self)@,
    {
        match self.slots.get(&conn_id) {
            Some(SlotKind::PendingOutbound) => {
                self.slots.remove(&conn_id);
                true
            },
            _ => false,
        }
    }

    /// A local open of the freshly allocated `conn_id` was sent (`sent`) or
    /// not: once sent, the id waits for the peer's answer.
    pub fn open_sent(&mut self, conn_id: u64, sent: bool) -> (r: Result<(), RequestError>)
        ensures
            final(self).local() == old(self).local(),
            sent ==> r is Ok && final(self)@ == old(self)@.insert(conn_id, SlotKind::PendingOutbound),
            !sent ==> r == Err::<(), RequestError>(RequestError::OpenNotSent) && final(self)@
                == old(self)@,
    {
        if !sent {
            return Err(RequestError::OpenNotSent);
        }
        self.slots.insert(conn_id, SlotKind::PendingOutbound);
        Ok(())
    }

    /// A local request to close `conn_id`: the root cannot be closed, an
    /// unknown id is an error, and otherwise the connection leaves the
    /// table (its driver then stops) before the close is sent.
    pub fn begin_close(&mut self, conn_id: u64) -> (r: Result<(), RequestError>)
        ensures
            final(self).local() == old(self).local(),
            conn_id == 0 ==> r == Err::<(), RequestError>(RequestError::CannotCloseRoot)
                && final(self)@ == old(self)@,
            conn_id != 0 && !old(self)@.contains_key(conn_id) ==> r == Err::<(), RequestError>(
                RequestError::NotFound,
            ) && final(self)@ == old(self)@,
            conn_id != 0 && old(self)@.contains_key(conn_id) ==> r is Ok && final(self)@ == old(
                self,
            )@.remove(conn_id),
    {
        if conn_id == 0 {
            return Err(RequestError::CannotCloseRoot);
        }
        match self.slots.remove(&conn_id) {
            Some(_) => Ok(()),
            None => Err(RequestError::NotFound),
        }
    }
}

/// What a local close request answers once the close was sent or not.
pub fn close_outcome(sent: bool) -> (r: Result<(), RequestError>)
    ensures
        sent <==> r is Ok,
        !sent ==> r == Err::<(), RequestError>(RequestError::CloseNotSent),
{
    if sent {
        Ok(())
    } else {
        Err(RequestError::CloseNotSent)
    }
}

/// A peer's open is answered with an accept only for an unused id that the
/// peer allocates, and only when someone accepts connections.
pub proof fn law_inbound_open_needs_fresh_peer_id(
    p: Parity,
    t: Map<u64, SlotKind>,
    id: u64,
    has_acceptor: bool,
)
    requires
        inbound_open_decision(p, t, id, has_acceptor) == InboundOpen::AskAcceptor,
    ensures
        matches_parity(id, flip(p)),
        !t.contains_key(id),
        has_acceptor,
{
}

} // verus!
