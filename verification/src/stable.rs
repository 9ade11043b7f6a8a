//! The stable conduit: sequenced frames with piggybacked acknowledgements
//! over a link that may be replaced. Encoded frames stay in a replay buffer
//! until acknowledged; on reconnect both sides exchange the highest sequence
//! number they received, and the frames the peer missed are sent again in
//! their original order. Inbound duplicates are dropped.
//!
//! [`StableCore`] holds the state shared by the sending and receiving halves
//! and decides; the halves perform the I/O.
use std::collections::VecDeque;
use std::time::{Duration, SystemTime, UNIX_EPOCH};
use vstd::prelude::*;
use vstd::string::StringExecFns;

use crate::link::IoFailure;
use crate::reliable::{ReplayEntry, seq_after, trimmed};

verus! {

/// Errors of a stable conduit.
#[derive(Debug)]
pub enum StableConduitError {
    Encode(String),
    Decode(String),
    Io(IoFailure),
    LinkDead,
    Setup(String),
    /// The server rejected our resume key; the session is permanently lost.
    SessionLost,
}

/// The text of a stable conduit error.
pub open spec fn stable_error_text(e: StableConduitError) -> Seq<char> {
    match e {
        StableConduitError::Encode(m) => "encode error: "@ + m@,
        StableConduitError::Decode(m) => "decode error: "@ + m@,
        StableConduitError::Io(f) => "io error: "@ + f.message@,
        StableConduitError::LinkDead => "link dead"@,
        StableConduitError::Setup(m) => "setup error: "@ + m@,
        StableConduitError::SessionLost => "session lost: server rejected resume key"@,
    }
}

impl StableConduitError {
    /// The human-readable description of the error.
    pub fn message(&self) -> (s: String)
        ensures
            s@ == stable_error_text(*self),
    {
        let (prefix, detail): (&str, &str) = match self {
            StableConduitError::Encode(m) => ("encode error: ", m.as_str()),
            StableConduitError::Decode(m) => ("decode error: ", m.as_str()),
            StableConduitError::Io(f) => ("io error: ", f.message.as_str()),
            StableConduitError::LinkDead => {
                return "link dead".to_string();
            },
            StableConduitError::Setup(m) => ("setup error: ", m.as_str()),
            StableConduitError::SessionLost => {
                return "session lost: server rejected resume key".to_string();
            },
        };
        let mut s = prefix.to_string();
        s.append(detail);
        s
    }
}

/// The client's opening handshake.
#[derive(Clone, Debug)]
pub struct ClientHello {
    pub resume_key: Option<Vec<u8>>,
    pub last_received: Option<u32>,
}

/// The server's handshake response.
#[derive(Clone, Debug)]
pub struct ServerHello {
    pub resume_key: Vec<u8>,
    pub last_received: Option<u32>,
    /// The server did not recognize the resume key: the session is lost.
    pub rejected: bool,
}

/// The abstract state of a [`StableCore`].
pub ghost struct StableView {
    /// Incremented every time the link is replaced.
    pub link_generation: u64,
    pub resume_key: Option<Seq<u8>>,
    pub next_send_seq: u32,
    pub last_received: Option<u32>,
    /// Encoded frames kept for replay, oldest first.
    pub replay: Seq<(u32, Seq<u8>)>,
}

/// The replay buffer as (sequence number, bytes) pairs.
pub open spec fn entries_view(s: Seq<ReplayEntry<Vec<u8>>>) -> Seq<(u32, Seq<u8>)> {
    s.map_values(|e: ReplayEntry<Vec<u8>>| (e.seq, e.item@))
}

/// The buffered frames without the acknowledged front: every leading frame
/// numbered at most `ack` is dropped.
pub open spec fn trimmed_frames(s: Seq<(u32, Seq<u8>)>, ack: u32) -> Seq<(u32, Seq<u8>)>
    decreases s.len(),
{
    if s.len() > 0 && s[0].0 <= ack {
        trimmed_frames(s.drop_first(), ack)
    } else {
        s
    }
}

proof fn lemma_trimmed_view(s: Seq<ReplayEntry<Vec<u8>>>, ack: u32)
    ensures
        entries_view(trimmed(s, ack)) == trimmed_frames(entries_view(s), ack),
    decreases s.len(),
{
    if s.len() > 0 && s[0].seq <= ack {
        assert(entries_view(s.drop_first()) =~= entries_view(s).drop_first());
        lemma_trimmed_view(s.drop_first(), ack);
    }
}

/// Whether a frame numbered `seq` repeats one already received.
pub open spec fn is_duplicate(last_received: Option<u32>, seq: u32) -> bool {
    match last_received {
        Some(prev) => seq <= prev,
        None => false,
    }
}

/// The buffered frames the peer has not seen, given the highest number it
/// reports having received, in their original order.
pub open spec fn unseen(frames: Seq<(u32, Seq<u8>)>, peer_last: Option<u32>) -> Seq<(u32, Seq<u8>)>
    decreases frames.len(),
{
    if frames.len() == 0 {
        Seq::empty()
    } else {
        let rest = unseen(frames.drop_last(), peer_last);
        if is_duplicate(peer_last, frames.last().0) {
            rest
        } else {
            rest.push(frames.last())
        }
    }
}

/// A reconnect resends exactly the frames the peer missed: every resent
/// frame is numbered above the peer's mark, and every buffered frame
/// numbered above it is resent.
pub proof fn law_replay_is_what_the_peer_missed(frames: Seq<(u32, Seq<u8>)>, peer_last: u32)
    ensures
        forall|i: int|
            0 <= i < unseen(frames, Some(peer_last)).len() ==> #[trigger] unseen(
                frames,
                Some(peer_last),
            )[i].0 > peer_last,
        forall|j: int|
            0 <= j < frames.len() && #[trigger] frames[j].0 > peer_last ==> unseen(
                frames,
                Some(peer_last),
            ).contains(frames[j]),
    decreases frames.len(),
{
    if frames.len() > 0 {
        let rest = frames.drop_last();
        law_replay_is_what_the_peer_missed(rest, peer_last);
        assert forall|j: int|
            0 <= j < frames.len() && #[trigger] frames[j].0 > peer_last implies unseen(
                frames,
                Some(peer_last),
            ).contains(frames[j]) by {
            if j < frames.len() - 1 {
                assert(rest[j] == frames[j]);
                let k = choose|k: int|
                    0 <= k < unseen(rest, Some(peer_last)).len() && unseen(rest, Some(peer_last))[k]
                        == frames[j];
                if !is_duplicate(Some(peer_last), frames.last().0) {
                    assert(unseen(frames, Some(peer_last))[k] == frames[j]);
                }
            } else {
                assert(unseen(frames, Some(peer_last)).last() == frames[j]);
            }
        }
    }
}

/// When the peer received everything that was buffered, nothing is resent.
pub proof fn law_nothing_replayed_when_all_acked(frames: Seq<(u32, Seq<u8>)>, peer_last: u32)
    requires
        forall|i: int| 0 <= i < frames.len() ==> #[trigger] frames[i].0 <= peer_last,
    ensures
        unseen(frames, Some(peer_last)) == Seq::<(u32, Seq<u8>)>::empty(),
    decreases frames.len(),
{
    if frames.len() > 0 {
        law_nothing_replayed_when_all_acked(frames.drop_last(), peer_last);
        assert(frames.last().0 <= peer_last);
    }
}

/// A frame is delivered once: after a frame is taken, the same frame (or an
/// older one) arriving again is a duplicate, and the mark never goes down.
pub proof fn law_duplicate_frames_are_skipped(last_received: Option<u32>, seq: u32, again: u32)
    requires
        !is_duplicate(last_received, seq),
        again <= seq,
    ensures
        is_duplicate(Some(seq), again),
        last_received matches Some(prev) ==> prev < seq,
{
}

/// Once a link is replaced, a permit taken on the old link is dead: the
/// generation it carries is no longer the current one.
pub proof fn law_replaced_link_is_dead(generation: u64)
    ensures
        (if generation == u64::MAX {
            0
        } else {
            (generation + 1) as u64
        }) != generation,
{
}

/// The 16-byte resume key derived from a clock reading: the low eight bytes
/// of the nanosecond count, little-endian, then eight zero bytes.
pub open spec fn key_bytes(nanos: u128) -> Seq<u8> {
    Seq::new(16, |i: int| if i < 8 { ((nanos >> (8 * i) as u128) & 0xff) as u8 } else { 0u8 })
}

/// Shared state of a stable conduit.
pub struct StableCore {
    link_generation: u64,
    resume_key: Option<Vec<u8>>,
    next_send_seq: u32,
    last_received: Option<u32>,
    replay: VecDeque<ReplayEntry<Vec<u8>>>,
}

impl View for StableCore {
    type V = StableView;

    closed spec fn view(&self) -> StableView {
        StableView {
            link_generation: self.link_generation,
            resume_key: match self.resume_key {
                Some(k) => Some(k@),
                None => None,
            },
            next_send_seq: self.next_send_seq,
            last_received: self.last_received,
            replay: entries_view(self.replay@),
        }
    }
}

fn copy_bytes(v: &Vec<u8>) -> (c: Vec<u8>)
    ensures
        c@ == v@,
{
    let c = v.clone();
    assert(c@ =~= v@);
    c
}

impl StableCore {
    /// The state right after the first handshake.
    pub fn new(resume_key: Vec<u8>) -> (c: Self)
        ensures
            c@ == (StableView {
                link_generation: 0,
                resume_key: Some(resume_key@),
                next_send_seq: 0,
                last_received: None,
                replay: Seq::empty(),
            }),
    {
        let c = StableCore {
            link_generation: 0,
            resume_key: Some(resume_key),
            next_send_seq: 0,
            last_received: None,
            replay: VecDeque::new(),
        };
        assert(c@.replay =~= Seq::<(u32, Seq<u8>)>::empty());
        c
    }

    pub fn link_generation(&self) -> (g: u64)
        ensures
            g == self@.link_generation,
    {
        self.link_generation
    }

    pub fn last_received(&self) -> (l: Option<u32>)
        ensures
            l == self@.last_received,
    {
        self.last_received
    }

    /// The Hello a client sends on a fresh link: its resume key (if any) and
    /// the highest sequence number it received.
    pub fn client_hello(&self) -> (h: ClientHello)
        ensures
            h.last_received == self@.last_received,
            match (h.resume_key, self@.resume_key) {
                (Some(k), Some(v)) => k@ == v,
                (None, None) => true,
                _ => false,
            },
    {
        let resume_key = match &self.resume_key {
            Some(k) => Some(copy_bytes(k)),
            None => None,
        };
        ClientHello { resume_key, last_received: self.last_received }
    }

    /// Number a frame sent on the link of `generation`: it gets the next
    /// sequence number and acknowledges the highest one received. A permit
    /// from a replaced link is dead and nothing changes.
    pub fn begin_send(&mut self, generation: u64) -> (r: Result<(u32, Option<u32>), StableConduitError>)
        ensures
            generation != old(self)@.link_generation ==> final(self)@ == old(self)@ && r matches Err(
                StableConduitError::LinkDead,
            ),
            generation == old(self)@.link_generation ==> r == Ok::<
                (u32, Option<u32>),
                StableConduitError,
            >((old(self)@.next_send_seq, old(self)@.last_received)) && final(self)@ == (StableView {
                next_send_seq: seq_after(old(self)@.next_send_seq),
                ..old(self)@
            }),
    {
        if self.link_generation != generation {
            return Err(StableConduitError::LinkDead);
        }
        let seq = self.next_send_seq;
        self.next_send_seq = seq.wrapping_add(1);
        Ok((seq, self.last_received))
    }

    /// Keep the encoded frame `seq` for replay until it is acknowledged.
    pub fn record_sent(&mut self, seq: u32, bytes: Vec<u8>)
        ensures
            final(self)@ == (StableView { replay: old(self)@.replay.push((seq, bytes@)), ..old(self)@ }),
    {
        self.replay.push_back(ReplayEntry { seq, item: bytes });
        assert(entries_view(self.replay@) =~= old(self)@.replay.push((seq, bytes@)));
    }

    /// Drop the acknowledged frames from the front of the replay buffer.
    fn trim(&mut self, ack: u32)
        ensures
            final(self)@ == (StableView {
                replay: trimmed_frames(old(self)@.replay, ack),
                ..old(self)@
            }),
    {
        while self.replay.len() > 0 && self.replay[0].seq <= ack
            invariant
                trimmed(old(self).replay@, ack) == trimmed(self.replay@, ack),
                self@.link_generation == old(self)@.link_generation,
                self@.resume_key == old(self)@.resume_key,
                self@.next_send_seq == old(self)@.next_send_seq,
                self@.last_received == old(self)@.last_received,
            decreases self.replay.len(),
        {
            let ghost before = self.replay@;
            self.replay.pop_front();
            assert(self.replay@ =~= before.drop_first());
        }
        proof {
            lemma_trimmed_view(old(self).replay@, ack);
        }
    }

    /// An inbound frame: its acknowledgement trims the replay buffer; it is
    /// a duplicate if its number is not above the highest received, and
    /// otherwise becomes the highest received. Duplicates are dropped.
    pub fn receive_frame(&mut self, seq: u32, ack: Option<u32>) -> (dup: bool)
        ensures
            dup == is_duplicate(old(self)@.last_received, seq),
            final(self)@.replay == (match ack {
                Some(a) => trimmed_frames(old(self)@.replay, a),
                None => old(self)@.replay,
            }),
            final(self)@.last_received == (if dup {
                old(self)@.last_received
            } else {
                Some(seq)
            }),
            final(self)@.link_generation == old(self)@.link_generation,
            final(self)@.resume_key == old(self)@.resume_key,
            final(self)@.next_send_seq == old(self)@.next_send_seq,
    {
        if let Some(a) = ack {
            self.trim(a);
        }
        let dup = match self.last_received {
            Some(prev) => seq <= prev,
            None => false,
        };
        if !dup {
            self.last_received = Some(seq);
        }
        dup
    }

    /// A copy of the replay buffer, oldest first, to resend after a
    /// reconnect.
    pub fn replay_frames(&self) -> (frames: Vec<(u32, Vec<u8>)>)
        ensures
            frames@.len() == self@.replay.len(),
            forall|i: int|
                0 <= i < frames@.len() ==> (#[trigger] frames@[i]).0 == self@.replay[i].0
                    && frames@[i].1@ == self@.replay[i].1,
    {
        let mut frames: Vec<(u32, Vec<u8>)> = Vec::new();
        let mut i: usize = 0;
        while i < self.replay.len()
            invariant
                i <= self.replay@.len(),
                frames@.len() == i,
                forall|k: int|
                    0 <= k < i ==> (#[trigger] frames@[k]).0 == self@.replay[k].0 && frames@[k].1@
                        == self@.replay[k].1,
            decreases self.replay@.len() - i,
        {
            let e = &self.replay[i];
            frames.push((e.seq, copy_bytes(&e.item)));
            i = i + 1;
        }
        frames
    }

    /// Adopt a replacement link if no one replaced the link of `generation`
    /// in the meantime: the generation advances and the new resume key is
    /// kept. Tells whether the link was adopted.
    pub fn install_link(&mut self, generation: u64, resume_key: Vec<u8>) -> (adopted: bool)
        ensures
            adopted == (generation == old(self)@.link_generation),
            adopted ==> final(self)@ == (StableView {
                link_generation: if old(self)@.link_generation == u64::MAX {
                    0
                } else {
                    (old(self)@.link_generation + 1) as u64
                },
                resume_key: Some(resume_key@),
                ..old(self)@
            }),
            !adopted ==> final(self)@ == old(self)@,
    {
        if self.link_generation != generation {
            return false;
        }
        self.link_generation = self.link_generation.wrapping_add(1);
        self.resume_key = Some(resume_key);
        true
    }
}

/// Of the frames to replay, the ones the peer has not received, in order.
pub fn frames_to_replay(frames: Vec<(u32, Vec<u8>)>, peer_last_received: Option<u32>) -> (out: Vec<
    (u32, Vec<u8>),
>)
    ensures
        out@.map_values(|f: (u32, Vec<u8>)| (f.0, f.1@)) == unseen(
            frames@.map_values(|f: (u32, Vec<u8>)| (f.0, f.1@)),
            peer_last_received,
        ),
{
    let ghost fv = frames@.map_values(|f: (u32, Vec<u8>)| (f.0, f.1@));
    let mut out: Vec<(u32, Vec<u8>)> = Vec::new();
    let mut i: usize = 0;
    while i < frames.len()
        invariant
            i <= frames@.len(),
            fv == frames@.map_values(|f: (u32, Vec<u8>)| (f.0, f.1@)),
            out@.map_values(|f: (u32, Vec<u8>)| (f.0, f.1@)) == unseen(
                fv.subrange(0, i as int),
                peer_last_received,
            ),
        decreases frames@.len() - i,
    {
        let seq = frames[i].0;
        let ghost pre = fv.subrange(0, i as int);
        let ghost next = fv.subrange(0, i + 1);
        assert(next.drop_last() =~= pre);
        assert(next.last() == fv[i as int]);
        let dup = match peer_last_received {
            Some(last) => seq <= last,
            None => false,
        };
        if !dup {
            let bytes = copy_bytes(&frames[i].1);
            let ghost before = out@;
            out.push((seq, bytes));
            assert(out@.map_values(|f: (u32, Vec<u8>)| (f.0, f.1@)) =~= before.map_values(
                |f: (u32, Vec<u8>)| (f.0, f.1@),
            ).push(fv[i as int]));
        }
        i = i + 1;
    }
    assert(fv.subrange(0, frames@.len() as int) =~= fv);
    out
}

/// The client side of the reconnect handshake: the server's answer either
/// resumes the session (new resume key, and the highest number the server
/// received) or, if it rejected our key, the session is lost.
pub fn accept_server_hello(hello: ServerHello) -> (r: Result<(Vec<u8>, Option<u32>), StableConduitError>)
    ensures
        hello.rejected ==> r matches Err(StableConduitError::SessionLost),
        !hello.rejected ==> (r matches Ok((k, l)) && k@ == hello.resume_key@ && l == hello.last_received),
{
    if hello.rejected {
        return Err(StableConduitError::SessionLost);
    }
    Ok((hello.resume_key, hello.last_received))
}

/// The server side of the handshake: answer with a fresh resume key and the
/// highest number we received; the client's mark says what to replay to it.
pub fn answer_client_hello(
    client: &ClientHello,
    key: Vec<u8>,
    last_received: Option<u32>,
) -> (r: (ServerHello, Option<u32>))
    ensures
        r.0.resume_key@ == key@,
        r.0.last_received == last_received,
        !r.0.rejected,
        r.1 == client.last_received,
{
    (ServerHello { resume_key: key, last_received, rejected: false }, client.last_received)
}

#[verifier::external_type_specification]
#[verifier::external_body]
pub struct ExSystemTime(SystemTime);

/// `SystemTime::now`: the system clock's reading. Nothing is stated of it:
/// it is whatever the clock shows.
#[verifier::external_body]
fn clock_now() -> SystemTime {
    SystemTime::now()
}

/// `SystemTime::duration_since(UNIX_EPOCH)`: the time elapsed since the
/// Unix epoch, or `None` when the reading is earlier than the epoch. Nothing
/// more is stated of it.
#[verifier::external_body]
fn since_epoch(t: SystemTime) -> Option<Duration> {
    t.duration_since(UNIX_EPOCH).ok()
}

/// `Duration::as_nanos`: the whole nanoseconds of a duration. Nothing is
/// stated of the value (the duration is opaque here).
#[verifier::external_body]
fn duration_nanos(d: Duration) -> u128 {
    d.as_nanos()
}

/// Nanoseconds since the Unix epoch by the system clock, zero when the
/// clock reads earlier than the epoch.
fn unix_nanos() -> u128 {
    match since_epoch(clock_now()) {
        Some(d) => duration_nanos(d),
        None => 0,
    }
}

/// A fresh resume key from the current time: the key of some clock reading.
pub fn fresh_key() -> (k: Vec<u8>)
    ensures
        exists|n: u128| k@ == key_bytes(n),
{
    let n = unix_nanos();
    key_from_nanos(n)
}

/// The resume key derived from a clock reading in nanoseconds.
pub fn key_from_nanos(nanos: u128) -> (k: Vec<u8>)
    ensures
        k@ == key_bytes(nanos),
{
    let mut k: Vec<u8> = Vec::new();
    let mut i: usize = 0;
    while i < 16
        invariant
            i <= 16,
            k@.len() == i,
            forall|j: int| 0 <= j < i ==> #[trigger] k@[j] == key_bytes(nanos)[j],
        decreases 16 - i,
    {
        if i < 8 {
            let shift: u128 = 8 * (i as u128);
            k.push(((nanos >> shift) & 0xff) as u8);
        } else {
            k.push(0u8);
        }
        i = i + 1;
    }
    assert(k@ =~= key_bytes(nanos));
    k
}

/// Frames are numbered in the order they are sent, without gaps: starting
/// from a conduit that has sent nothing, the frame of the `i`-th successful
/// send carries `i` (modulo 2^32). `states` are the conduit's states around
/// the sends and `seqs` the numbers the sends were given (each send as
/// `begin_send` does it when the link generation is current).
pub proof fn law_send_numbers_frames_in_order(states: Seq<StableView>, seqs: Seq<u32>)
    requires
        states.len() == seqs.len() + 1,
        states[0].next_send_seq == 0,
        forall|i: int|
            0 <= i < seqs.len() ==> #[trigger] seqs[i] == states[i].next_send_seq && states[i + 1]
                == (StableView { next_send_seq: seq_after(states[i].next_send_seq), ..states[i] }),
    ensures
        forall|i: int| 0 <= i < seqs.len() ==> #[trigger] seqs[i] == i % 0x1_0000_0000,
    decreases seqs.len(),
{
    if seqs.len() > 0 {
        let n = seqs.len() - 1;
        let s0 = states.subrange(0, n + 1);
        let q0 = seqs.subrange(0, n);
        assert forall|i: int| 0 <= i < q0.len() implies #[trigger] q0[i] == s0[i].next_send_seq
            && s0[i + 1] == (StableView { next_send_seq: seq_after(s0[i].next_send_seq), ..s0[i] }) by {
            assert(q0[i] == seqs[i]);
        }
        law_send_numbers_frames_in_order(s0, q0);
        assert forall|i: int| 0 <= i < seqs.len() implies #[trigger] seqs[i] == i % 0x1_0000_0000 by {
            if i < n {
                assert(seqs[i] == q0[i]);
            } else if n > 0 {
                assert(seqs[n - 1] == q0[n - 1]);
                assert(seqs[n - 1] == (n - 1) % 0x1_0000_0000);
                assert(states[n].next_send_seq == seq_after(states[n - 1].next_send_seq));
                assert(seqs[n] == seq_after(seqs[n - 1]));
                assert(n % 0x1_0000_0000 == if (n - 1) % 0x1_0000_0000 == 0xffff_ffff {
                    0
                } else {
                    (n - 1) % 0x1_0000_0000 + 1
                }) by (nonlinear_arith)
                    requires
                        n >= 1,
                ;
            }
        }
    }
}

} // verus!
