//! The cleartext form of a packet (RFC 4253, section 6): the length of the
//! packet, the length of the padding, the payload and the padding.
//!
//! Encryption and authentication are applied to this form by the driver.

use crate::codec::encode::{extend, u32_octets};
use crate::codec::wire;
use crate::error::Error;
use vstd::arithmetic::div_mod::{
    lemma_fundamental_div_mod, lemma_mod_bound, lemma_mod_multiples_basic,
};
use vstd::prelude::*;

verus! {

/// The largest `packet_length` that is accepted.
pub const MAX_PACKET_LEN: usize = 35000;

/// The smallest packet, its length field included.
pub const MIN_FRAME_LEN: usize = 16;

/// The reason given when a packet announces more than [`MAX_PACKET_LEN`].
pub const PACKET_TOO_LONG: &'static str = "packet is too long";

/// The reason given when a packet is smaller than [`MIN_FRAME_LEN`].
pub const PACKET_TOO_SHORT: &'static str = "packet is too short";

/// The reason given when the size of a packet is no multiple of the block
/// length.
pub const PACKET_MISALIGNED: &'static str = "packet length is not a multiple of the block length";

/// The reason given when a packet is not as long as it announces.
pub const PACKET_TRUNCATED: &'static str = "packet does not have the announced length";

/// The reason given when the padding of a packet is shorter than four octets
/// or longer than the packet.
pub const BAD_PADDING: &'static str = "packet has invalid padding";

/// What the size of a packet must be a multiple of: the block length of the
/// cipher, but eight at least.
pub open spec fn alignment(block_len: usize) -> int {
    if block_len < 8 {
        8
    } else {
        block_len as int
    }
}

/// The length of the padding of a payload of `payload_len` octets: the least
/// number from four on that makes the packet, with its two length fields, a
/// multiple of the alignment and no smaller than [`MIN_FRAME_LEN`].
pub open spec fn padding_len(payload_len: int, block_len: usize) -> int {
    let align = alignment(block_len);
    let over = (payload_len + 9) % align;
    let least = if over == 0 {
        4
    } else {
        4 + align - over
    };
    if 5 + payload_len + least < MIN_FRAME_LEN {
        least + align
    } else {
        least
    }
}

/// The largest block length for which packets are framed: with it the
/// padding still fits in one octet.
pub const MAX_BLOCK_LEN: usize = 252;

/// A payload of `payload_len` octets can be framed: the block length is not
/// too large and the packet is not too long.
pub open spec fn can_frame(payload_len: int, block_len: usize) -> bool {
    &&& block_len <= MAX_BLOCK_LEN
    &&& 1 + payload_len + padding_len(payload_len, block_len) <= MAX_PACKET_LEN
}

/// The packet with the given payload and padding.
pub open spec fn framed(payload: Seq<u8>, padding: Seq<u8>) -> Seq<u8> {
    wire::u32_be((1 + payload.len() + padding.len()) as u32) + seq![padding.len() as u8] + payload
        + padding
}

/// What is wrong with a `packet_length`, if anything: it is too large, or the
/// packet is too small, or of a size that is no multiple of the alignment.
pub open spec fn checked_packet_len(packet_len: int, block_len: usize) -> Result<(), Error> {
    if packet_len > MAX_PACKET_LEN {
        Err(Error::Protocol(PACKET_TOO_LONG))
    } else if 4 + packet_len < MIN_FRAME_LEN {
        Err(Error::Protocol(PACKET_TOO_SHORT))
    } else if (4 + packet_len) % alignment(block_len) != 0 {
        Err(Error::Protocol(PACKET_MISALIGNED))
    } else {
        Ok(())
    }
}

/// The payload of the packet `frame`, or what is wrong with the packet.
pub open spec fn unframed(frame: Seq<u8>, block_len: usize) -> Result<Seq<u8>, Error> {
    if frame.len() < 5 {
        Err(Error::Protocol(PACKET_TOO_SHORT))
    } else {
        let packet_len = wire::u32_from_be(frame.take(4));
        let padding = frame[4] as int;
        match checked_packet_len(packet_len, block_len) {
            Err(e) => Err(e),
            Ok(_) => if frame.len() != 4 + packet_len {
                Err(Error::Protocol(PACKET_TRUNCATED))
            } else if padding < 4 || padding + 1 > packet_len {
                Err(Error::Protocol(BAD_PADDING))
            } else {
                Ok(frame.subrange(5, 4 + packet_len - padding))
            },
        }
    }
}

/// The alignment for a block length.
pub fn align_for(block_len: usize) -> (align: usize)
    ensures
        align == alignment(block_len),
{
    if block_len < 8 {
        8
    } else {
        block_len
    }
}

/// The length of the padding of a payload of `payload_len` octets, if such a
/// payload can be framed.
pub fn padding_for(payload_len: usize, block_len: usize) -> (n: Option<usize>)
    ensures
        match n {
            Some(padding) => can_frame(payload_len as int, block_len) && padding == padding_len(
                payload_len as int,
                block_len,
            ),
            None => !can_frame(payload_len as int, block_len),
        },
{
    proof {
        lemma_padding_len(payload_len as int, block_len);
    }
    if payload_len > MAX_PACKET_LEN || block_len > MAX_BLOCK_LEN {
        return None;
    }
    let align: usize = align_for(block_len);
    let over: usize = (payload_len + 9) % align;
    let least: usize = if over == 0 {
        4
    } else {
        4 + (align - over)
    };
    let padding: usize = if 5 + payload_len + least < MIN_FRAME_LEN {
        least + align
    } else {
        least
    };
    if 1 + payload_len + padding > MAX_PACKET_LEN {
        return None;
    }
    Some(padding)
}

/// Frames `payload` with the given padding. There is no packet if the payload
/// cannot be framed or if the padding has another length than it must have.
pub fn encode_frame(payload: &[u8], block_len: usize, padding: &[u8]) -> (r: Option<Vec<u8>>)
    ensures
        match r {
            Some(frame) => can_frame(payload@.len() as int, block_len) && padding@.len()
                == padding_len(payload@.len() as int, block_len) && frame@ == framed(
                payload@,
                padding@,
            ),
            None => !(can_frame(payload@.len() as int, block_len) && padding@.len() == padding_len(
                payload@.len() as int,
                block_len,
            )),
        },
{
    let needed: usize = match padding_for(payload.len(), block_len) {
        Some(needed) => needed,
        None => {
            return None;
        },
    };
    if padding.len() != needed {
        return None;
    }
    let packet_len: usize = 1 + payload.len() + padding.len();
    let mut frame: Vec<u8> = Vec::new();
    let len_octets: [u8; 4] = u32_octets(packet_len as u32);
    extend(&mut frame, len_octets.as_slice());
    frame.push(padding.len() as u8);
    extend(&mut frame, payload);
    extend(&mut frame, padding);
    assert(frame@ =~= framed(payload@, padding@));
    Some(frame)
}

/// Checks the `packet_length` that the first four octets of a packet announce
/// and gives the size of the whole packet, length field included.
pub fn check_packet_len(packet_len: u32, block_len: usize) -> (r: Result<usize, Error>)
    ensures
        match checked_packet_len(packet_len as int, block_len) {
            Ok(_) => r == Ok::<usize, Error>((4 + packet_len) as usize) && 4 + packet_len
                <= usize::MAX,
            Err(e) => r == Err::<usize, Error>(e),
        },
{
    if packet_len > MAX_PACKET_LEN as u32 {
        return Err(Error::Protocol(PACKET_TOO_LONG));
    }
    let size: usize = 4 + packet_len as usize;
    if size < MIN_FRAME_LEN {
        return Err(Error::Protocol(PACKET_TOO_SHORT));
    }
    if size % align_for(block_len) != 0 {
        return Err(Error::Protocol(PACKET_MISALIGNED));
    }
    Ok(size)
}

/// Takes the payload out of the packet `frame`.
pub fn decode_frame(frame: &[u8], block_len: usize) -> (r: Result<Vec<u8>, Error>)
    ensures
        match unframed(frame@, block_len) {
            Ok(payload) => r matches Ok(out) && out@ == payload,
            Err(e) => r matches Err(err) && err == e,
        },
{
    if frame.len() < 5 {
        return Err(Error::Protocol(PACKET_TOO_SHORT));
    }
    let packet_len: u32 = (frame[0] as u32) * 0x100_0000 + (frame[1] as u32) * 0x1_0000 + (
    frame[2] as u32) * 0x100 + (frame[3] as u32);
    proof {
        let head = frame@.take(4);
        assert(head[0] == frame@[0] && head[1] == frame@[1] && head[2] == frame@[2] && head[3]
            == frame@[3]);
    }
    let size: usize = match check_packet_len(packet_len, block_len) {
        Ok(size) => size,
        Err(e) => {
            return Err(e);
        },
    };
    if frame.len() != size {
        return Err(Error::Protocol(PACKET_TRUNCATED));
    }
    let padding: usize = frame[4] as usize;
    if padding < 4 || padding + 1 > packet_len as usize {
        return Err(Error::Protocol(BAD_PADDING));
    }
    let end: usize = size - padding;
    let mut payload: Vec<u8> = Vec::new();
    let mut i: usize = 5;
    while i < end
        invariant
            5 <= i <= end <= frame@.len(),
            payload@ == frame@.subrange(5, i as int),
        decreases end - i,
    {
        payload.push(frame[i]);
        i = i + 1;
        assert(frame@.subrange(5, i as int) =~= frame@.subrange(5, i - 1).push(frame@[i - 1]));
    }
    Ok(payload)
}

/// Padding is between four octets and 255, where the block length is 252 at
/// most, and makes the size of the packet a multiple of the alignment and no
/// smaller than [`MIN_FRAME_LEN`].
pub proof fn lemma_padding_len(payload_len: int, block_len: usize)
    requires
        0 <= payload_len,
    ensures
        4 <= padding_len(payload_len, block_len),
        block_len <= 252 ==> padding_len(payload_len, block_len) <= 255,
        (5 + payload_len + padding_len(payload_len, block_len)) % alignment(block_len) == 0,
        5 + payload_len + padding_len(payload_len, block_len) >= MIN_FRAME_LEN,
{
    let align = alignment(block_len);
    let x = payload_len + 9;
    let over = x % align;
    lemma_mod_bound(x, align);
    lemma_fundamental_div_mod(x, align);
    let q = if over == 0 {
        x / align
    } else {
        x / align + 1
    };
    let least = if over == 0 {
        4
    } else {
        4 + align - over
    };
    assert(5 + payload_len + least == q * align) by (nonlinear_arith)
        requires
            x == align * (x / align) + over,
            x == payload_len + 9,
            q == if over == 0 {
                x / align
            } else {
                x / align + 1
            },
            least == if over == 0 {
                4
            } else {
                4 + align - over
            },
    ;
    if 5 + payload_len + least < MIN_FRAME_LEN {
        assert(5 + payload_len + least + align == (q + 1) * align) by (nonlinear_arith)
            requires
                5 + payload_len + least == q * align,
        ;
        lemma_mod_multiples_basic(q + 1, align);
        assert(q >= 1) by (nonlinear_arith)
            requires
                q * align >= 9,
                align >= 8,
        ;
        assert(align < 16) by (nonlinear_arith)
            requires
                q * align < 16,
                q >= 1,
        ;
        assert((q + 1) * align >= 16) by (nonlinear_arith)
            requires
                q >= 1,
                align >= 8,
        ;
    } else {
        lemma_mod_multiples_basic(q, align);
    }
}

/// Every payload of up to 32768 octets can be framed for every block length
/// of up to 252 octets.
pub proof fn lemma_can_frame(payload_len: int, block_len: usize)
    requires
        0 <= payload_len <= 32768,
        block_len <= 252,
    ensures
        can_frame(payload_len, block_len),
{
    lemma_padding_len(payload_len, block_len);
}

/// Framing comes undone: the packet that is made of a payload and its padding
/// is accepted, and gives the payload back.
pub proof fn lemma_frame_round_trip(payload: Seq<u8>, padding: Seq<u8>, block_len: usize)
    requires
        can_frame(payload.len() as int, block_len),
        padding.len() == padding_len(payload.len() as int, block_len),
    ensures
        unframed(framed(payload, padding), block_len) == Ok::<Seq<u8>, Error>(payload),
{
    let frame = framed(payload, padding);
    let packet_len = 1 + payload.len() + padding.len();
    lemma_padding_len(payload.len() as int, block_len);
    wire::lemma_u32_round_trip(packet_len as u32);
    assert(frame.take(4) =~= wire::u32_be(packet_len as u32));
    assert(frame[4] == padding.len() as u8);
    assert(frame.len() == 4 + packet_len);
    assert(wire::u32_from_be(frame.take(4)) == packet_len);
    assert(checked_packet_len(packet_len as int, block_len) is Ok);
    assert(frame.subrange(5, 4 + packet_len - padding.len()) =~= payload);
}

} // verus!
