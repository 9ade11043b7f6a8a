//! Reliable, ordered delivery over an unreliable link: sequence numbers,
//! piggybacked acknowledgements, a replay buffer of unacknowledged packets,
//! and deduplication of inbound packets after a reconnect.
//!
//! [`ReliableCore`] is the state shared by the sending and the receiving
//! half of a reliable link; the halves perform the I/O it decides.
use std::collections::VecDeque;
use vstd::prelude::*;

use vstd::string::StringExecFns;

use crate::link::{IoFailure, IoKind};
use crate::text::{decimal, push_decimal};

verus! {

/// The sequence number after `s`, wrapping around at 2^32.
pub open spec fn seq_after(s: u32) -> u32 {
    if s == u32::MAX {
        0
    } else {
        (s + 1) as u32
    }
}

/// A sequenced packet. `Hello` opens (or reopens) a link.
#[derive(Debug)]
pub enum Packet<T> {
    Hello { resume_key: Option<Vec<u8>>, last_received: Option<u32> },
    Data { seq: u32, ack: Option<u32>, item: T },
}

/// An outbound item kept for replay until the peer acknowledges it.
#[derive(Debug)]
pub struct ReplayEntry<T> {
    pub seq: u32,
    pub item: T,
}

/// The replay buffer without its acknowledged front: every leading entry
/// whose sequence number is at most `ack` is dropped, and the rest stays in
/// order.
pub open spec fn trimmed<T>(buf: Seq<ReplayEntry<T>>, ack: u32) -> Seq<ReplayEntry<T>>
    decreases buf.len(),
{
    if buf.len() > 0 && buf[0].seq <= ack {
        trimmed(buf.drop_first(), ack)
    } else {
        buf
    }
}

/// The abstract state of a [`ReliableCore`].
pub ghost struct ReliableView<T> {
    /// Unacked outbound packets, oldest first.
    pub replay: Seq<ReplayEntry<T>>,
    /// Highest contiguous sequence number delivered upward.
    pub rx_delivered: Option<u32>,
    /// The sequence number of the next outbound packet.
    pub next_seq: u32,
    /// The next inbound sequence number that can be delivered.
    pub expected_seq: u32,
}

/// The buffered packets are consecutive and end just before `next_seq`
/// (counting modulo 2^32).
pub open spec fn reliable_wf<T>(v: ReliableView<T>) -> bool {
    forall|i: int|
        0 <= i < v.replay.len() ==> #[trigger] v.replay[i].seq as int == (v.next_seq as int
            - v.replay.len() + i) % 0x1_0000_0000
}

/// What happens to one inbound packet.
#[derive(Debug)]
pub enum Inbound<T> {
    /// A Hello after the handshake: skipped.
    SkipHello,
    /// A packet seen before (replay overlap after a reconnect): skipped.
    Duplicate,
    /// The next packet in order: its item goes up.
    Deliver(T),
    /// A packet ahead of the expected one: on an ordered transport this is
    /// a protocol error.
    Gap { expected: u32, got: u32 },
}

/// The state after receiving a data packet `seq` acknowledging `ack`.
pub open spec fn after_data<T>(v: ReliableView<T>, seq: u32, ack: Option<u32>) -> ReliableView<T> {
    let v1 = match ack {
        Some(a) => ReliableView { replay: trimmed(v.replay, a), ..v },
        None => v,
    };
    if seq == v1.expected_seq {
        ReliableView { expected_seq: seq_after(seq), rx_delivered: Some(seq), ..v1 }
    } else {
        v1
    }
}

/// State shared by the two halves of a reliable link.
pub struct ReliableCore<T> {
    replay_buffer: VecDeque<ReplayEntry<T>>,
    rx_delivered: Option<u32>,
    next_seq: u32,
    expected_seq: u32,
}

impl<T> View for ReliableCore<T> {
    type V = ReliableView<T>;

    closed spec fn view(&self) -> ReliableView<T> {
        ReliableView {
            replay: self.replay_buffer@,
            rx_delivered: self.rx_delivered,
            next_seq: self.next_seq,
            expected_seq: self.expected_seq,
        }
    }
}

impl<T> ReliableCore<T> {
    /// A fresh link: nothing sent, nothing received.
    pub fn new() -> (c: Self)
        ensures
            c@ == (ReliableView::<T> {
                replay: Seq::empty(),
                rx_delivered: None,
                next_seq: 0,
                expected_seq: 0,
            }),
            reliable_wf(c@),
    {
        ReliableCore { replay_buffer: VecDeque::new(), rx_delivered: None, next_seq: 0, expected_seq: 0 }
    }

    /// Highest contiguous sequence number delivered upward (announced in
    /// our Hello on a reconnect).
    pub fn rx_delivered(&self) -> (d: Option<u32>)
        ensures
            d == self@.rx_delivered,
    {
        self.rx_delivered
    }

    /// Number of packets waiting for acknowledgement.
    pub fn unacked(&self) -> (n: usize)
        ensures
            n == self@.replay.len(),
    {
        self.replay_buffer.len()
    }

    /// Sequence number of the `i`-th unacknowledged packet, oldest first.
    pub fn unacked_seq(&self, i: usize) -> (s: u32)
        requires
            i < self@.replay.len(),
        ensures
            s == self@.replay[i as int].seq,
    {
        self.replay_buffer[i].seq
    }

    /// Send one item: it gets the next sequence number and carries the
    /// highest delivered inbound number as its acknowledgement. A clone of
    /// the item stays buffered for replay before the packet leaves.
    pub fn send(&mut self, item: T) -> (p: Packet<T>)
        where
            T: Clone,
        requires
            reliable_wf(old(self)@),
        ensures
            reliable_wf(final(self)@),
            p matches Packet::Data { seq, ack, item: sent } && seq == old(self)@.next_seq && ack
                == old(self)@.rx_delivered && sent == item,
            final(self)@.next_seq == seq_after(old(self)@.next_seq),
            final(self)@.rx_delivered == old(self)@.rx_delivered,
            final(self)@.expected_seq == old(self)@.expected_seq,
            final(self)@.replay.len() == old(self)@.replay.len() + 1,
            final(self)@.replay.drop_last() == old(self)@.replay,
            final(self)@.replay.last().seq == old(self)@.next_seq,
            cloned(item, final(self)@.replay.last().item),
    {
        let seq = self.next_seq;
        self.next_seq = self.next_seq.wrapping_add(1);
        let ack = self.rx_delivered;
        let kept = item.clone();
        self.replay_buffer.push_back(ReplayEntry { seq, item: kept });
        assert(self@.replay.drop_last() =~= old(self)@.replay);
        assert forall|i: int| 0 <= i < self@.replay.len() implies #[trigger] self@.replay[i].seq as int
            == (self@.next_seq as int - self@.replay.len() + i) % 0x1_0000_0000 by {
            if i < old(self)@.replay.len() {
                assert(self@.replay[i] == old(self)@.replay[i]);
            }
        }
        Packet::Data { seq, ack, item }
    }

    /// Drop every acknowledged packet from the front of the replay buffer.
    pub fn trim(&mut self, ack: u32)
        requires
            reliable_wf(old(self)@),
        ensures
            reliable_wf(final(self)@),
            final(self)@ == (ReliableView { replay: trimmed(old(self)@.replay, ack), ..old(self)@ }),
    {
        while self.replay_buffer.len() > 0 && self.replay_buffer[0].seq <= ack
            invariant
                reliable_wf(self@),
                trimmed(old(self)@.replay, ack) == trimmed(self@.replay, ack),
                self@.next_seq == old(self)@.next_seq,
                self@.rx_delivered == old(self)@.rx_delivered,
                self@.expected_seq == old(self)@.expected_seq,
            decreases self.replay_buffer.len(),
        {
            let ghost before = self@.replay;
            self.replay_buffer.pop_front();
            assert(self@.replay =~= before.drop_first());
            assert forall|i: int| 0 <= i < self@.replay.len() implies #[trigger] self@.replay[i].seq as int
                == (self@.next_seq as int - self@.replay.len() + i) % 0x1_0000_0000 by {
                assert(self@.replay[i] == before[i + 1]);
            }
        }
    }

    /// Receive one packet from the inner link: a Hello is skipped; for a
    /// data packet the acknowledgement trims the replay buffer first, then
    /// the packet is delivered if it is the expected one, skipped if it came
    /// before, and refused as a gap if it is ahead.
    pub fn receive(&mut self, packet: Packet<T>) -> (r: Inbound<T>)
        requires
            reliable_wf(old(self)@),
        ensures
            reliable_wf(final(self)@),
            match packet {
                Packet::Hello { .. } => final(self)@ == old(self)@ && r is SkipHello,
                Packet::Data { seq, ack, item } => {
                    &&& final(self)@ == after_data(old(self)@, seq, ack)
                    &&& seq < old(self)@.expected_seq ==> r is Duplicate
                    &&& seq > old(self)@.expected_seq ==> r == Inbound::<T>::Gap {
                        expected: old(self)@.expected_seq,
                        got: seq,
                    }
                    &&& seq == old(self)@.expected_seq ==> r == Inbound::Deliver(item)
                },
            },
    {
        match packet {
            Packet::Hello { .. } => Inbound::SkipHello,
            Packet::Data { seq, ack, item } => {
                if let Some(a) = ack {
                    self.trim(a);
                }
                if seq < self.expected_seq {
                    return Inbound::Duplicate;
                }
                if seq > self.expected_seq {
                    return Inbound::Gap { expected: self.expected_seq, got: seq };
                }
                self.expected_seq = seq.wrapping_add(1);
                self.rx_delivered = Some(seq);
                Inbound::Deliver(item)
            },
        }
    }
}

/// Once a packet was delivered, the same packet arriving again (replay
/// overlap after a reconnect) is not delivered twice, whatever it
/// acknowledges; only at the wrap-around of the sequence space can a number
/// come round again.
pub proof fn law_no_double_delivery<T>(
    v: ReliableView<T>,
    seq: u32,
    ack: Option<u32>,
    ack2: Option<u32>,
)
    requires
        seq == v.expected_seq,
        seq < u32::MAX,
    ensures
        seq < after_data(v, seq, ack).expected_seq,
        after_data(v, seq, ack).rx_delivered == Some(seq),
        after_data(after_data(v, seq, ack), seq, ack2).expected_seq == after_data(
            v,
            seq,
            ack,
        ).expected_seq,
{
}

/// Trimming by an acknowledgement keeps the unacknowledged packets in their
/// order: the result is a suffix of the buffer, and its first packet (if
/// any) is newer than the acknowledgement.
pub proof fn law_trim_keeps_suffix<T>(buf: Seq<ReplayEntry<T>>, ack: u32)
    ensures
        trimmed(buf, ack).len() <= buf.len(),
        trimmed(buf, ack) == buf.subrange(buf.len() - trimmed(buf, ack).len(), buf.len() as int),
        trimmed(buf, ack).len() > 0 ==> trimmed(buf, ack)[0].seq > ack,
    decreases buf.len(),
{
    if buf.len() > 0 && buf[0].seq <= ack {
        law_trim_keeps_suffix(buf.drop_first(), ack);
        assert(buf.drop_first().subrange(
            buf.drop_first().len() - trimmed(buf, ack).len(),
            buf.drop_first().len() as int,
        ) =~= buf.subrange(buf.len() - trimmed(buf, ack).len(), buf.len() as int));
    } else {
        assert(buf.subrange(0, buf.len() as int) =~= buf);
    }
}

/// Errors of the receiving half of a reliable link.
#[derive(Debug, Clone, PartialEq, Eq)]
pub enum ReliableLinkError {
    /// The underlying transport failed; its message.
    Transport(String),
    /// A packet ahead of the expected one arrived on an ordered transport.
    SequenceGap { expected: u32, got: u32 },
}

/// The text of a reliable link error.
pub open spec fn reliable_link_error_text(e: ReliableLinkError) -> Seq<char> {
    match e {
        ReliableLinkError::Transport(m) => "transport error: "@ + m@,
        ReliableLinkError::SequenceGap { expected, got } => "sequence gap: expected "@ + decimal(
            expected as nat,
        ) + ", got "@ + decimal(got as nat),
    }
}

impl ReliableLinkError {
    /// The human-readable description of the error.
    pub fn message(&self) -> (s: String)
        ensures
            s@ == reliable_link_error_text(*self),
    {
        match self {
            ReliableLinkError::Transport(m) => {
                let mut s = "transport error: ".to_string();
                s.append(m.as_str());
                s
            },
            ReliableLinkError::SequenceGap { expected, got } => {
                let mut s = "sequence gap: expected ".to_string();
                push_decimal(&mut s, *expected as u64);
                s.append(", got ");
                push_decimal(&mut s, *got as u64);
                s
            },
        }
    }
}

/// What the handshake makes of the first packet read from the peer: its
/// Hello (resume key and last delivered sequence number), or the I/O
/// failure it reports: the read failed (connection reset), the link ended
/// before a Hello (unexpected end), or a data packet came first (invalid
/// data).
pub fn hello_from_read<T>(read: Result<Option<Packet<T>>, String>) -> (r: Result<
    (Option<Vec<u8>>, Option<u32>),
    IoFailure,
>)
    ensures
        match read {
            Err(m) => r matches Err(f) && f.kind == IoKind::ConnectionReset && f.message@ == m@,
            Ok(None) => r matches Err(f) && f.kind == IoKind::UnexpectedEof && f.message@
                == "connection closed before Hello"@,
            Ok(Some(Packet::Data { .. })) => r matches Err(f) && f.kind == IoKind::InvalidData
                && f.message@ == "expected Hello, got Data"@,
            Ok(Some(Packet::Hello { resume_key, last_received })) => r matches Ok(h) && h.0
                == resume_key && h.1 == last_received,
        },
{
    match read {
        Err(m) => Err(IoFailure { kind: IoKind::ConnectionReset, message: m }),
        Ok(None) => Err(
            IoFailure {
                kind: IoKind::UnexpectedEof,
                message: "connection closed before Hello".to_string(),
            },
        ),
        Ok(Some(Packet::Data { .. })) => Err(
            IoFailure { kind: IoKind::InvalidData, message: "expected Hello, got Data".to_string() },
        ),
        Ok(Some(Packet::Hello { resume_key, last_received })) => Ok((resume_key, last_received)),
    }
}

} // verus!
