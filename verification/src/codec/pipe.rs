//! The two directions of the packet stream: sequence numbers, octet counters
//! and the order in which keys take effect.
//!
//! The send pipe is a queue that the driver works off in order: a packet is
//! sealed with the keys that the queue installed before it. The receive pipe
//! counts what the driver has opened and holds the keys for what comes next.

use crate::cipher::{PacketDecrypt, PacketEncrypt, PacketKeys, PacketKeysView};
use vstd::prelude::*;

verus! {

/// The sequence number after `seq`. Sequence numbers wrap around.
pub open spec fn next_seq(seq: u32) -> u32 {
    if seq == u32::MAX {
        0
    } else {
        (seq + 1) as u32
    }
}

/// A counter of octets after `n` more; it stops at the largest number.
pub open spec fn counted(count: u64, n: usize) -> u64 {
    if count + n > u64::MAX {
        u64::MAX
    } else {
        (count + n) as u64
    }
}

/// One thing that the driver has to do on the sending side.
#[derive(Clone, PartialEq, Eq)]
pub enum Outbound {
    /// Send the payload as the packet with this sequence number.
    Packet { seq: u32, payload: Vec<u8> },
    /// Protect the packets that follow with these keys.
    NewKeys { keys: PacketEncrypt, block_len: usize, tag_len: usize },
}

/// What an [`Outbound`] holds.
pub enum OutboundView {
    Packet { seq: u32, payload: Seq<u8> },
    NewKeys { keys: PacketKeysView, block_len: usize, tag_len: usize },
}

impl View for Outbound {
    type V = OutboundView;

    open spec fn view(&self) -> OutboundView {
        match self {
            Outbound::Packet { seq, payload } => OutboundView::Packet {
                seq: *seq,
                payload: payload@,
            },
            Outbound::NewKeys { keys, block_len, tag_len } => OutboundView::NewKeys {
                keys: keys@,
                block_len: *block_len,
                tag_len: *tag_len,
            },
        }
    }
}

/// The sending side.
pub struct SendPipe {
    queue: Vec<Outbound>,
    packet_seq: u32,
    block_len: usize,
    tag_len: usize,
    sent_bytes: u64,
}

/// What a [`SendPipe`] holds.
pub struct SendPipeView {
    /// What the driver has still to do, in order.
    pub queue: Seq<OutboundView>,
    /// The sequence number of the next packet.
    pub packet_seq: u32,
    /// The block length of the keys that were installed last.
    pub block_len: usize,
    /// The tag length of the keys that were installed last.
    pub tag_len: usize,
    /// The octets that went out on the wire so far.
    pub sent_bytes: u64,
}

/// Sequence numbers go on through a change of keys: installing keys leaves the
/// number of the next packet as it is, and every packet takes the number after
/// the one before.
pub proof fn lemma_sequence_is_contiguous(
    pipe: SendPipeView,
    payload: Seq<u8>,
    keys: PacketKeysView,
    block_len: usize,
    tag_len: usize,
)
    ensures
        pipe.keyed(keys, block_len, tag_len).packet_seq == pipe.packet_seq,
        pipe.fed(payload).packet_seq == next_seq(pipe.packet_seq),
        pipe.keyed(keys, block_len, tag_len).fed(payload).queue.last() == (OutboundView::Packet {
            seq: pipe.packet_seq,
            payload,
        }),
{
}

impl SendPipeView {
    /// Nothing sent, nothing queued, no protection.
    pub open spec fn fresh() -> SendPipeView {
        SendPipeView { queue: Seq::empty(), packet_seq: 0, block_len: 8, tag_len: 0, sent_bytes: 0 }
    }

    /// The pipe after `payload` was fed to it.
    pub open spec fn fed(self, payload: Seq<u8>) -> SendPipeView {
        SendPipeView {
            queue: self.queue.push(OutboundView::Packet { seq: self.packet_seq, payload }),
            packet_seq: next_seq(self.packet_seq),
            ..self
        }
    }

    /// The pipe after keys were installed.
    pub open spec fn keyed(self, keys: PacketKeysView, block_len: usize, tag_len: usize) -> SendPipeView {
        SendPipeView {
            queue: self.queue.push(OutboundView::NewKeys { keys, block_len, tag_len }),
            block_len,
            tag_len,
            ..self
        }
    }
}

impl View for SendPipe {
    type V = SendPipeView;

    closed spec fn view(&self) -> SendPipeView {
        SendPipeView {
            queue: self.queue@.map_values(|o: Outbound| o@),
            packet_seq: self.packet_seq,
            block_len: self.block_len,
            tag_len: self.tag_len,
            sent_bytes: self.sent_bytes,
        }
    }
}

impl SendPipe {
    /// A pipe that has sent nothing and protects nothing.
    pub fn new() -> (pipe: SendPipe)
        ensures
            pipe@ == SendPipeView::fresh(),
    {
        let pipe = SendPipe {
            queue: Vec::new(),
            packet_seq: 0,
            block_len: 8,
            tag_len: 0,
            sent_bytes: 0,
        };
        assert(pipe@.queue =~= Seq::empty());
        pipe
    }

    /// Queues `payload` for sending and returns the sequence number that the
    /// packet gets.
    pub fn feed_packet(&mut self, payload: &[u8]) -> (seq: u32)
        ensures
            seq == old(self)@.packet_seq,
            final(self)@ == old(self)@.fed(payload@),
    {
        let seq: u32 = self.packet_seq;
        let mut copy: Vec<u8> = Vec::new();
        crate::codec::encode::extend(&mut copy, payload);
        self.queue.push(Outbound::Packet { seq, payload: copy });
        self.packet_seq = if seq == u32::MAX {
            0
        } else {
            seq + 1
        };
        assert(self@.queue =~= old(self)@.queue.push(
            OutboundView::Packet { seq, payload: payload@ },
        ));
        seq
    }

    /// Installs the keys for the packets that are fed from now on. The packets
    /// that are queued already go out under the keys before.
    pub fn set_encrypt(&mut self, keys: PacketEncrypt, block_len: usize, tag_len: usize)
        ensures
            final(self)@ == old(self)@.keyed(keys@, block_len, tag_len),
    {
        self.queue.push(Outbound::NewKeys { keys, block_len, tag_len });
        self.block_len = block_len;
        self.tag_len = tag_len;
        assert(self@.queue =~= old(self)@.queue.push(
            OutboundView::NewKeys { keys: keys@, block_len, tag_len },
        ));
    }

    /// The octets that went out on the wire so far, framing and tags included.
    pub fn sent_bytes(&self) -> (n: u64)
        ensures
            n == self@.sent_bytes,
    {
        self.sent_bytes
    }

    /// Whether anything waits on the queue.
    pub fn has_outbound(&self) -> (waits: bool)
        ensures
            waits == (self@.queue.len() > 0),
    {
        self.queue.len() > 0
    }

    /// The block length of the keys that were installed last.
    pub fn block_len(&self) -> (n: usize)
        ensures
            n == self@.block_len,
    {
        self.block_len
    }

    /// The tag length of the keys that were installed last.
    pub fn tag_len(&self) -> (n: usize)
        ensures
            n == self@.tag_len,
    {
        self.tag_len
    }

    /// Takes the next thing to do off the queue.
    pub fn poll_write(&mut self) -> (next: Option<Outbound>)
        ensures
            match next {
                Some(item) => old(self)@.queue.len() > 0 && item@ == old(self)@.queue[0]
                    && final(self)@ == (SendPipeView {
                    queue: old(self)@.queue.skip(1),
                    ..old(self)@
                }),
                None => old(self)@.queue.len() == 0 && final(self)@ == old(self)@,
            },
    {
        if self.queue.len() == 0 {
            return None;
        }
        let item: Outbound = self.queue.remove(0);
        assert(self@.queue =~= old(self)@.queue.skip(1));
        Some(item)
    }

    /// Counts `n` octets that went out on the wire.
    pub fn count_sent(&mut self, n: usize)
        ensures
            final(self)@ == (SendPipeView {
                sent_bytes: counted(old(self)@.sent_bytes, n),
                ..old(self)@
            }),
    {
        self.sent_bytes = add_count(self.sent_bytes, n);
    }
}

/// `count` after `n` more octets.
pub fn add_count(count: u64, n: usize) -> (sum: u64)
    ensures
        sum == counted(count, n),
        sum >= count,
{
    let room: u64 = u64::MAX - count;
    if n as u64 > room {
        u64::MAX
    } else {
        count + n as u64
    }
}

/// The receiving side.
pub struct RecvPipe {
    keys: PacketDecrypt,
    packet_seq: u32,
    block_len: usize,
    tag_len: usize,
    recvd_bytes: u64,
}

/// What a [`RecvPipe`] holds.
pub struct RecvPipeView {
    /// The keys that protect the next packet.
    pub keys: PacketKeysView,
    /// The sequence number of the next packet.
    pub packet_seq: u32,
    /// The block length of these keys.
    pub block_len: usize,
    /// The tag length of these keys.
    pub tag_len: usize,
    /// The octets that came in from the wire so far.
    pub recvd_bytes: u64,
}

impl RecvPipeView {
    /// Nothing received, no protection.
    pub open spec fn fresh() -> RecvPipeView {
        RecvPipeView {
            keys: PacketKeysView::Plain,
            packet_seq: 0,
            block_len: 8,
            tag_len: 0,
            recvd_bytes: 0,
        }
    }
}

impl View for RecvPipe {
    type V = RecvPipeView;

    closed spec fn view(&self) -> RecvPipeView {
        RecvPipeView {
            keys: self.keys@,
            packet_seq: self.packet_seq,
            block_len: self.block_len,
            tag_len: self.tag_len,
            recvd_bytes: self.recvd_bytes,
        }
    }
}

impl RecvPipe {
    /// A pipe that has received nothing and expects cleartext.
    pub fn new() -> (pipe: RecvPipe)
        ensures
            pipe@ == RecvPipeView::fresh(),
    {
        RecvPipe { keys: PacketKeys::Plain, packet_seq: 0, block_len: 8, tag_len: 0, recvd_bytes: 0 }
    }

    /// Installs the keys for the packets that come in from now on.
    pub fn set_decrypt(&mut self, keys: PacketDecrypt, block_len: usize, tag_len: usize)
        ensures
            final(self)@ == (RecvPipeView { keys: keys@, block_len, tag_len, ..old(self)@ }),
    {
        self.keys = keys;
        self.block_len = block_len;
        self.tag_len = tag_len;
    }

    /// The octets that came in from the wire so far, framing and tags included.
    pub fn recvd_bytes(&self) -> (n: u64)
        ensures
            n == self@.recvd_bytes,
    {
        self.recvd_bytes
    }

    /// The keys that protect the next packet.
    pub fn keys(&self) -> (keys: &PacketDecrypt)
        ensures
            keys@ == self@.keys,
    {
        &self.keys
    }

    /// The block length of the keys that protect the next packet.
    pub fn block_len(&self) -> (n: usize)
        ensures
            n == self@.block_len,
    {
        self.block_len
    }

    /// The tag length of the keys that protect the next packet.
    pub fn tag_len(&self) -> (n: usize)
        ensures
            n == self@.tag_len,
    {
        self.tag_len
    }

    /// Counts one packet of `n` octets on the wire that was opened, and
    /// returns its sequence number.
    pub fn count_recvd(&mut self, n: usize) -> (seq: u32)
        ensures
            seq == old(self)@.packet_seq,
            final(self)@ == (RecvPipeView {
                packet_seq: next_seq(seq),
                recvd_bytes: counted(old(self)@.recvd_bytes, n),
                ..old(self)@
            }),
    {
        let seq: u32 = self.packet_seq;
        self.packet_seq = if seq == u32::MAX {
            0
        } else {
            seq + 1
        };
        self.recvd_bytes = add_count(self.recvd_bytes, n);
        seq
    }
}

} // verus!
