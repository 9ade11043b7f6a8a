//! The per-connection driver of the request layer: which outgoing calls
//! wait for a response, where an incoming request message goes, and the
//! send credit of the channels on the connection.
use std::collections::{BTreeMap, BTreeSet};
use vstd::prelude::*;

verus! {

/// What an incoming request message carries.
#[derive(Debug, Clone, Copy, PartialEq, Eq, Structural)]
pub enum RequestBodyKind {
    Call,
    Response,
    Cancel,
}

/// What the driver does with an incoming request message.
#[derive(Debug, Clone, Copy, PartialEq, Eq, Structural)]
pub enum RequestAction {
    /// Run the handler for the call; it replies under the call's id.
    Dispatch,
    /// Hand the response to the call that waits for it.
    Deliver,
    /// Nothing to do (a response nobody waits for, or a cancellation).
    Ignore,
}

/// The abstract state of a [`RpcDriver`].
pub ghost struct RpcDriverView {
    /// Outgoing calls waiting for their response.
    pub pending: Set<u64>,
    /// The send credit of each known channel.
    pub credit: Map<u64, u32>,
}

/// The credit after a grant: the sum, saturating at `u32::MAX`.
pub open spec fn granted(credit: u32, additional: u32) -> u32 {
    if credit + additional > u32::MAX {
        u32::MAX
    } else {
        (credit + additional) as u32
    }
}

/// The request layer's per-connection state.
pub struct RpcDriver {
    pending: BTreeSet<u64>,
    channels: BTreeMap<u64, u32>,
}

impl View for RpcDriver {
    type V = RpcDriverView;

    closed spec fn view(&self) -> RpcDriverView {
        RpcDriverView { pending: self.pending@, credit: self.channels@ }
    }
}

impl RpcDriver {
    /// A driver with no call in progress and no channel.
    pub fn new() -> (d: Self)
        ensures
            d@.pending == Set::<u64>::empty(),
            d@.credit == Map::<u64, u32>::empty(),
    {
        RpcDriver { pending: BTreeSet::new(), channels: BTreeMap::new() }
    }

    /// An outgoing call is registered under its id before it is sent, so
    /// that its response can be routed even if it arrives early.
    pub fn register_call(&mut self, request_id: u64)
        ensures
            final(self)@ == (RpcDriverView {
                pending: old(self)@.pending.insert(request_id),
                ..old(self)@
            }),
    {
        self.pending.insert(request_id);
    }

    /// Sending the call failed: its slot is dropped (the call ends as
    /// cancelled).
    pub fn abandon_call(&mut self, request_id: u64)
        ensures
            final(self)@ == (RpcDriverView {
                pending: old(self)@.pending.remove(request_id),
                ..old(self)@
            }),
    {
        self.pending.remove(&request_id);
    }

    /// Whether a call waits for its response.
    pub fn is_pending(&self, request_id: u64) -> (b: bool)
        ensures
            b == self@.pending.contains(request_id),
    {
        self.pending.contains(&request_id)
    }

    /// Decides what an incoming request message leads to. A response is
    /// delivered only to a call that waits for it, and that call then no
    /// longer waits.
    pub fn on_request(&mut self, request_id: u64, kind: RequestBodyKind) -> (a: RequestAction)
        ensures
            kind == RequestBodyKind::Call ==> a == RequestAction::Dispatch && final(self)@ == old(
                self,
            )@,
            kind == RequestBodyKind::Cancel ==> a == RequestAction::Ignore && final(self)@ == old(
                self,
            )@,
            kind == RequestBodyKind::Response ==> {
                &&& (a == RequestAction::Deliver) == old(self)@.pending.contains(request_id)
                &&& (a == RequestAction::Deliver || a == RequestAction::Ignore)
                &&& final(self)@ == (RpcDriverView {
                    pending: old(self)@.pending.remove(request_id),
                    ..old(self)@
                })
            },
    {
        match kind {
            RequestBodyKind::Call => RequestAction::Dispatch,
            RequestBodyKind::Response => {
                if self.pending.remove(&request_id) {
                    RequestAction::Deliver
                } else {
                    assert(self.pending@ =~= old(self).pending@.remove(request_id));
                    RequestAction::Ignore
                }
            },
            RequestBodyKind::Cancel => RequestAction::Ignore,
        }
    }

    /// A channel the connection knows about, with its initial credit.
    pub fn open_channel(&mut self, channel_id: u64, credit: u32)
        ensures
            final(self)@ == (RpcDriverView {
                credit: old(self)@.credit.insert(channel_id, credit),
                ..old(self)@
            }),
    {
        self.channels.insert(channel_id, credit);
    }

    /// The send credit of a channel, if the channel is known.
    pub fn credit(&self, channel_id: u64) -> (c: Option<u32>)
        ensures
            c is Some <==> self@.credit.contains_key(channel_id),
            c matches Some(v) ==> v == self@.credit[channel_id],
    {
        match self.channels.get(&channel_id) {
            Some(c) => Some(*c),
            None => None,
        }
    }

    /// The peer granted more credit on a channel: the credit grows by the
    /// grant, saturating at `u32::MAX`. A grant for an unknown channel is
    /// ignored.
    pub fn grant_credit(&mut self, channel_id: u64, additional: u32)
        ensures
            old(self)@.credit.contains_key(channel_id) ==> final(self)@ == (RpcDriverView {
                credit: old(self)@.credit.insert(
                    channel_id,
                    granted(old(self)@.credit[channel_id], additional),
                ),
                ..old(self)@
            }),
            !old(self)@.credit.contains_key(channel_id) ==> final(self)@ == old(self)@,
    {
        match self.channels.get(&channel_id) {
            Some(c) => {
                let updated = c.saturating_add(additional);
                self.channels.insert(channel_id, updated);
            },
            None => {},
        }
    }
}

/// A response reaches its call at most once: after the first one is
/// delivered, the call no longer waits, so a second one is ignored.
pub proof fn law_one_response_per_request(pending: Set<u64>, request_id: u64)
    ensures
        !pending.remove(request_id).contains(request_id),
{
}

/// Granting credit never lowers it, and a grant that fits is added exactly.
pub proof fn law_grant_never_lowers(credit: u32, additional: u32)
    ensures
        granted(credit, additional) >= credit,
        granted(credit, additional) >= additional,
        credit + additional <= u32::MAX ==> granted(credit, additional) == credit + additional,
{
}

} // verus!
