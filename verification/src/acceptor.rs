//! Server-side routing of the reliability layer.
//!
//! Every raw connection starts with a `Hello` packet. A `Hello` that
//! carries a resume key reattaches to the existing session with that key; a
//! `Hello` without one starts a new session, which gets a fresh resume key.
//! The acceptor keeps the live sessions, each with the handle through which
//! replacement links are handed to it.
use std::collections::BTreeMap;
use vstd::prelude::*;

use crate::reliable::Packet;

verus! {

/// Errors from ingesting a raw connection.
#[derive(Debug, Clone, Copy, PartialEq, Eq, Structural)]
pub enum IngestError {
    /// Failed to read the first packet from the raw link.
    ReadFailed,
    /// Connection closed before Hello was received.
    ConnectionClosed,
    /// First packet was Data, not Hello.
    ExpectedHello,
    /// Resume key doesn't match any known session.
    UnknownResumeKey,
    /// The target session's link has been dropped.
    SessionDead,
    /// Hello exchange failed on new session.
    HelloFailed,
    /// Internal channel full (new sessions backlog).
    AcceptorFull,
}

/// The text of an ingest error.
pub open spec fn ingest_error_text(e: IngestError) -> Seq<char> {
    match e {
        IngestError::ReadFailed => "failed to read Hello packet"@,
        IngestError::ConnectionClosed => "connection closed before Hello"@,
        IngestError::ExpectedHello => "first packet was Data, expected Hello"@,
        IngestError::UnknownResumeKey => "resume key not found"@,
        IngestError::SessionDead => "target session has been dropped"@,
        IngestError::HelloFailed => "Hello exchange failed on new session"@,
        IngestError::AcceptorFull => "new session backlog full"@,
    }
}

impl IngestError {
    /// The human-readable description of the error.
    pub fn message(&self) -> (s: String)
        ensures
            s@ == ingest_error_text(*self),
    {
        match self {
            IngestError::ReadFailed => "failed to read Hello packet".to_string(),
            IngestError::ConnectionClosed => "connection closed before Hello".to_string(),
            IngestError::ExpectedHello => "first packet was Data, expected Hello".to_string(),
            IngestError::UnknownResumeKey => "resume key not found".to_string(),
            IngestError::SessionDead => "target session has been dropped".to_string(),
            IngestError::HelloFailed => "Hello exchange failed on new session".to_string(),
            IngestError::AcceptorFull => "new session backlog full".to_string(),
        }
    }
}

/// What the first read on a raw connection produced.
pub enum FirstRead<T> {
    /// The read failed.
    Failed,
    /// The connection closed before any packet arrived.
    Closed,
    /// A packet arrived.
    Packet(Packet<T>),
}

/// Where a raw connection goes, decided from its first packet.
#[derive(Debug, Clone, PartialEq, Eq)]
pub enum Route {
    /// Reattach to the session with this resume key.
    Reconnect(Vec<u8>),
    /// Start a new session.
    NewSession,
}

/// How ingesting a reconnecting link ends: the link is handed to its
/// session, which fails when the session no longer takes links.
pub fn reattach_outcome(delivered: bool) -> (r: Result<(), IngestError>)
    ensures
        r == if delivered {
            Ok::<(), IngestError>(())
        } else {
            Err(IngestError::SessionDead)
        },
{
    if delivered {
        Ok(())
    } else {
        Err(IngestError::SessionDead)
    }
}

/// How ingesting a link that starts a new session ends: the Hello exchange
/// on the new session must succeed, and the new session must find a place
/// in the backlog of sessions waiting to be accepted.
pub fn new_session_outcome(hello_ok: bool, queued: bool) -> (r: Result<(), IngestError>)
    ensures
        r == if !hello_ok {
            Err(IngestError::HelloFailed)
        } else if !queued {
            Err(IngestError::AcceptorFull)
        } else {
            Ok::<(), IngestError>(())
        },
{
    if !hello_ok {
        Err(IngestError::HelloFailed)
    } else if !queued {
        Err(IngestError::AcceptorFull)
    } else {
        Ok(())
    }
}

/// Decides from the first read where a raw connection goes: a `Hello` with
/// a resume key reconnects, one without starts a new session, and anything
/// else is refused.
pub fn route_first_read<T>(read: FirstRead<T>) -> (r: Result<Route, IngestError>)
    ensures
        read is Failed ==> r == Err::<Route, IngestError>(IngestError::ReadFailed),
        read is Closed ==> r == Err::<Route, IngestError>(IngestError::ConnectionClosed),
        read matches FirstRead::Packet(Packet::Data { .. }) ==> r == Err::<Route, IngestError>(
            IngestError::ExpectedHello,
        ),
        read matches FirstRead::Packet(Packet::Hello { resume_key: None, .. }) ==> r == Ok::<
            Route,
            IngestError,
        >(Route::NewSession),
        read matches FirstRead::Packet(Packet::Hello { resume_key: Some(k), .. }) ==> (r matches Ok(
            Route::Reconnect(k2),
        ) && k2@ == k@),
{
    match read {
        FirstRead::Failed => Err(IngestError::ReadFailed),
        FirstRead::Closed => Err(IngestError::ConnectionClosed),
        FirstRead::Packet(Packet::Data { .. }) => Err(IngestError::ExpectedHello),
        FirstRead::Packet(Packet::Hello { resume_key, .. }) => match resume_key {
            Some(k) => Ok(Route::Reconnect(k)),
            None => Ok(Route::NewSession),
        },
    }
}

/// The resume key of session number `id`: the id's eight bytes, big-endian.
pub open spec fn key_of(id: u64) -> Seq<u8> {
    seq![
        ((id >> 56u64) & 0xffu64) as u8,
        ((id >> 48u64) & 0xffu64) as u8,
        ((id >> 40u64) & 0xffu64) as u8,
        ((id >> 32u64) & 0xffu64) as u8,
        ((id >> 24u64) & 0xffu64) as u8,
        ((id >> 16u64) & 0xffu64) as u8,
        ((id >> 8u64) & 0xffu64) as u8,
        (id & 0xffu64) as u8,
    ]
}

/// The session number that eight big-endian bytes encode.
pub open spec fn id_of(b: Seq<u8>) -> u64
    recommends
        b.len() == 8,
{
    ((b[0] as u64) << 56u64) | ((b[1] as u64) << 48u64) | ((b[2] as u64) << 40u64) | ((
    b[3] as u64) << 32u64) | ((b[4] as u64) << 24u64) | ((b[5] as u64) << 16u64) | ((b[6] as u64)
        << 8u64) | (b[7] as u64)
}

/// Decoding a session's key gives back its number.
pub proof fn lemma_id_of_key(id: u64)
    ensures
        id_of(key_of(id)) == id,
{
    let b0 = ((id >> 56u64) & 0xffu64) as u8;
    let b1 = ((id >> 48u64) & 0xffu64) as u8;
    let b2 = ((id >> 40u64) & 0xffu64) as u8;
    let b3 = ((id >> 32u64) & 0xffu64) as u8;
    let b4 = ((id >> 24u64) & 0xffu64) as u8;
    let b5 = ((id >> 16u64) & 0xffu64) as u8;
    let b6 = ((id >> 8u64) & 0xffu64) as u8;
    let b7 = (id & 0xffu64) as u8;
    assert(((b0 as u64) << 56u64) | ((b1 as u64) << 48u64) | ((b2 as u64) << 40u64) | ((
    b3 as u64) << 32u64) | ((b4 as u64) << 24u64) | ((b5 as u64) << 16u64) | ((b6 as u64)
        << 8u64) | (b7 as u64) == id) by (bit_vector)
        requires
            b0 == ((id >> 56u64) & 0xffu64) as u8,
            b1 == ((id >> 48u64) & 0xffu64) as u8,
            b2 == ((id >> 40u64) & 0xffu64) as u8,
            b3 == ((id >> 32u64) & 0xffu64) as u8,
            b4 == ((id >> 24u64) & 0xffu64) as u8,
            b5 == ((id >> 16u64) & 0xffu64) as u8,
            b6 == ((id >> 8u64) & 0xffu64) as u8,
            b7 == (id & 0xffu64) as u8,
    ;
}

/// Eight bytes are the key of the number they encode.
pub proof fn lemma_key_of_id(b: Seq<u8>)
    requires
        b.len() == 8,
    ensures
        key_of(id_of(b)) == b,
{
    let b0 = b[0];
    let b1 = b[1];
    let b2 = b[2];
    let b3 = b[3];
    let b4 = b[4];
    let b5 = b[5];
    let b6 = b[6];
    let b7 = b[7];
    let n = id_of(b);
    assert(n == ((b0 as u64) << 56u64) | ((b1 as u64) << 48u64) | ((b2 as u64) << 40u64) | ((
    b3 as u64) << 32u64) | ((b4 as u64) << 24u64) | ((b5 as u64) << 16u64) | ((b6 as u64)
        << 8u64) | (b7 as u64));
    assert(((n >> 56u64) & 0xffu64) as u8 == b0 && ((n >> 48u64) & 0xffu64) as u8 == b1 && ((n
        >> 40u64) & 0xffu64) as u8 == b2 && ((n >> 32u64) & 0xffu64) as u8 == b3 && ((n
        >> 24u64) & 0xffu64) as u8 == b4 && ((n >> 16u64) & 0xffu64) as u8 == b5 && ((n
        >> 8u64) & 0xffu64) as u8 == b6 && (n & 0xffu64) as u8 == b7) by (bit_vector)
        requires
            n == ((b0 as u64) << 56u64) | ((b1 as u64) << 48u64) | ((b2 as u64) << 40u64) | ((
            b3 as u64) << 32u64) | ((b4 as u64) << 24u64) | ((b5 as u64) << 16u64) | ((
            b6 as u64) << 8u64) | (b7 as u64),
    ;
    assert(key_of(n) =~= b);
}

/// The key of session number `id`.
pub fn resume_key_of(id: u64) -> (k: Vec<u8>)
    ensures
        k@ == key_of(id),
{
    let k = vec![
        ((id >> 56u64) & 0xffu64) as u8,
        ((id >> 48u64) & 0xffu64) as u8,
        ((id >> 40u64) & 0xffu64) as u8,
        ((id >> 32u64) & 0xffu64) as u8,
        ((id >> 24u64) & 0xffu64) as u8,
        ((id >> 16u64) & 0xffu64) as u8,
        ((id >> 8u64) & 0xffu64) as u8,
        (id & 0xffu64) as u8,
    ];
    assert(k@ =~= key_of(id));
    k
}

/// The session number a presented key names, if it has the shape of a key.
pub fn session_id_of(key: &[u8]) -> (r: Option<u64>)
    ensures
        r is Some <==> key@.len() == 8,
        r matches Some(id) ==> id == id_of(key@) && key_of(id) == key@,
{
    if key.len() != 8 {
        return None;
    }
    let n: u64 = ((key[0] as u64) << 56u64) | ((key[1] as u64) << 48u64) | ((key[2] as u64)
        << 40u64) | ((key[3] as u64) << 32u64) | ((key[4] as u64) << 24u64) | ((key[5] as u64)
        << 16u64) | ((key[6] as u64) << 8u64) | (key[7] as u64);
    proof {
        lemma_key_of_id(key@);
    }
    Some(n)
}

/// The abstract state of an acceptor: the live sessions by number, and the
/// last number handed out.
pub ghost struct AcceptorView<S> {
    pub sessions: Map<u64, S>,
    pub last_key_id: u64,
}

/// Every live session has a number that was already handed out.
pub open spec fn acceptor_wf<S>(v: AcceptorView<S>) -> bool {
    forall|id: u64| #[trigger] v.sessions.contains_key(id) ==> 1 <= id <= v.last_key_id
}

/// The routing table of the reliability layer's server side. `S` is the
/// handle through which a session receives replacement links.
pub struct ReliableAcceptor<S> {
    sessions: BTreeMap<u64, S>,
    next_key_id: u64,
}

impl<S> View for ReliableAcceptor<S> {
    type V = AcceptorView<S>;

    closed spec fn view(&self) -> AcceptorView<S> {
        AcceptorView { sessions: self.sessions@, last_key_id: self.next_key_id }
    }
}

impl<S> ReliableAcceptor<S> {
    /// An acceptor without sessions.
    pub fn new() -> (a: Self)
        ensures
            a@.sessions == Map::<u64, S>::empty(),
            a@.last_key_id == 0,
            acceptor_wf(a@),
    {
        ReliableAcceptor { sessions: BTreeMap::new(), next_key_id: 0 }
    }

    /// Registers a new session with the handle that feeds it, and returns
    /// its fresh resume key.
    pub fn register(&mut self, handle: S) -> (key: Vec<u8>)
        requires
            old(self)@.last_key_id < u64::MAX,
        ensures
            final(self)@.last_key_id == old(self)@.last_key_id + 1,
            key@ == key_of(final(self)@.last_key_id),
            final(self)@.sessions == old(self)@.sessions.insert(final(self)@.last_key_id, handle),
            acceptor_wf(old(self)@) ==> acceptor_wf(final(self)@),
    {
        let key = self.generate_resume_key();
        self.sessions.insert(self.next_key_id, handle);
        key
    }

    /// Advances the counter and returns the key of the new number.
    fn generate_resume_key(&mut self) -> (key: Vec<u8>)
        requires
            old(self)@.last_key_id < u64::MAX,
        ensures
            final(self)@.last_key_id == old(self)@.last_key_id + 1,
            final(self)@.sessions == old(self)@.sessions,
            key@ == key_of(final(self)@.last_key_id),
    {
        self.next_key_id = self.next_key_id + 1;
        resume_key_of(self.next_key_id)
    }

    /// The handle of the session a presented resume key names.
    pub fn route(&self, key: &[u8]) -> (r: Result<&S, IngestError>)
        ensures
            r is Ok <==> (key@.len() == 8 && self@.sessions.contains_key(id_of(key@))),
            r matches Ok(h) ==> *h == self@.sessions[id_of(key@)],
            r matches Err(e) ==> e == IngestError::UnknownResumeKey,
    {
        match session_id_of(key) {
            None => Err(IngestError::UnknownResumeKey),
            Some(id) => match self.sessions.get(&id) {
                Some(h) => Ok(h),
                None => Err(IngestError::UnknownResumeKey),
            },
        }
    }

    /// Forgets the session a resume key names (when the session dies).
    pub fn remove_session(&mut self, key: &[u8])
        ensures
            key@.len() == 8 ==> final(self)@.sessions == old(self)@.sessions.remove(id_of(key@)),
            key@.len() != 8 ==> final(self)@.sessions == old(self)@.sessions,
            final(self)@.last_key_id == old(self)@.last_key_id,
            acceptor_wf(old(self)@) ==> acceptor_wf(final(self)@),
    {
        match session_id_of(key) {
            None => {},
            Some(id) => {
                self.sessions.remove(&id);
                assert forall|i: u64| #[trigger] self@.sessions.contains_key(i) implies old(
                    self,
                )@.sessions.contains_key(i) by {}
            },
        }
    }

    /// The number of live sessions.
    pub fn session_count(&self) -> (n: usize)
        ensures
            n == self@.sessions.len(),
    {
        self.sessions.len()
    }
}

/// A session that was just registered is found by its resume key.
pub proof fn law_registered_key_routes<S>(before: AcceptorView<S>, after: AcceptorView<S>, handle: S)
    requires
        after.last_key_id == before.last_key_id + 1,
        after.sessions == before.sessions.insert(after.last_key_id, handle),
    ensures
        key_of(after.last_key_id).len() == 8,
        after.sessions.contains_key(id_of(key_of(after.last_key_id))),
        after.sessions[id_of(key_of(after.last_key_id))] == handle,
{
    lemma_id_of_key(after.last_key_id);
}

/// A fresh resume key names no live session and differs from every key
/// handed out before.
pub proof fn law_fresh_keys_are_unique<S>(v: AcceptorView<S>, earlier: u64)
    requires
        acceptor_wf(v),
        v.last_key_id < u64::MAX,
        1 <= earlier <= v.last_key_id,
    ensures
        !v.sessions.contains_key(id_of(key_of((v.last_key_id + 1) as u64))),
        key_of((v.last_key_id + 1) as u64) != key_of(earlier),
{
    let fresh = (v.last_key_id + 1) as u64;
    lemma_id_of_key(fresh);
    lemma_id_of_key(earlier);
}

/// Once a session is removed, its resume key no longer routes.
pub proof fn law_removed_key_does_not_route<S>(before: AcceptorView<S>, key: Seq<u8>)
    requires
        key.len() == 8,
    ensures
        !before.sessions.remove(id_of(key)).contains_key(id_of(key)),
{
}

} // verus!
