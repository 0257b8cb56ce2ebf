//! Building a payload field by field.

use crate::buf;
use crate::codec::wire;
use vstd::prelude::*;
use vstd::string::StringSliceAdditionalSpecFns;

verus! {

/// The wire octets of each string of `names`, in order.
pub open spec fn str_names(names: Seq<&str>) -> Seq<Seq<u8>> {
    Seq::new(names.len(), |i: int| names[i].spec_bytes())
}

/// A payload under construction.
pub struct PacketEncode {
    buf: Vec<u8>,
}

impl View for PacketEncode {
    type V = Seq<u8>;

    /// The octets written so far.
    closed spec fn view(&self) -> Seq<u8> {
        self.buf@
    }
}

/// Appends `data` to `out`.
pub fn extend(out: &mut Vec<u8>, data: &[u8])
    ensures
        final(out)@ == old(out)@ + data@,
{
    let n: usize = data.len();
    let mut i: usize = 0;
    while i < n
        invariant
            n == data@.len(),
            i <= n,
            out@ == old(out)@ + data@.take(i as int),
        decreases n - i,
    {
        out.push(data[i]);
        i = i + 1;
        assert(data@.take(i as int) =~= data@.take(i - 1).push(data@[i - 1]));
    }
    assert(data@.take(n as int) =~= data@);
}

/// The four octets of `value`, most significant first.
pub fn u32_octets(value: u32) -> (out: [u8; 4])
    ensures
        out@ == wire::u32_be(value),
{
    let out: [u8; 4] = [
        (value / 0x100_0000) as u8,
        (value / 0x1_0000 % 0x100) as u8,
        (value / 0x100 % 0x100) as u8,
        (value % 0x100) as u8,
    ];
    assert(out@ =~= wire::u32_be(value));
    out
}

impl PacketEncode {
    /// An empty payload.
    pub fn new() -> (out: PacketEncode)
        ensures
            out@ == Seq::<u8>::empty(),
    {
        PacketEncode { buf: Vec::new() }
    }

    /// Writes one octet.
    pub fn put_u8(&mut self, value: u8)
        ensures
            final(self)@ == old(self)@.push(value),
    {
        self.buf.push(value);
    }

    /// Writes a `uint32`.
    pub fn put_u32(&mut self, value: u32)
        ensures
            final(self)@ == old(self)@ + wire::u32_be(value),
    {
        let octets: [u8; 4] = u32_octets(value);
        extend(&mut self.buf, octets.as_slice());
    }

    /// Writes a `boolean`.
    pub fn put_bool(&mut self, value: bool)
        ensures
            final(self)@ == old(self)@.push(wire::bool_octet(value)),
    {
        self.buf.push(if value { 1u8 } else { 0u8 });
    }

    /// Writes `data` as it is, without a length.
    pub fn put_raw(&mut self, data: &[u8])
        ensures
            final(self)@ == old(self)@ + data@,
    {
        extend(&mut self.buf, data);
    }

    /// Writes `data` as a `string`.
    pub fn put_bytes(&mut self, data: &[u8])
        requires
            data@.len() <= u32::MAX,
        ensures
            final(self)@ == old(self)@ + wire::string(data@),
    {
        let octets: [u8; 4] = u32_octets(data.len() as u32);
        extend(&mut self.buf, octets.as_slice());
        extend(&mut self.buf, data);
        assert(self.buf@ =~= old(self)@ + wire::string(data@));
    }

    /// Writes the octets of `text` as a `string`.
    pub fn put_str(&mut self, text: &str)
        requires
            text.spec_bytes().len() <= u32::MAX,
        ensures
            final(self)@ == old(self)@ + wire::string(text.spec_bytes()),
    {
        self.put_bytes(text.as_bytes());
    }

    /// Writes `names` as a `name-list`.
    pub fn put_name_list(&mut self, names: &[&str])
        requires
            wire::join(str_names(names@)).len() <= u32::MAX,
        ensures
            final(self)@ == old(self)@ + wire::name_list(str_names(names@)),
    {
        let joined: Vec<u8> = join_names(names);
        self.put_bytes(joined.as_slice());
    }

    /// Writes, as an `mpint`, the number that is not negative and has the
    /// given magnitude, most significant octet first.
    pub fn put_biguint(&mut self, magnitude: &[u8])
        requires
            magnitude@.len() < u32::MAX,
        ensures
            final(self)@ == old(self)@ + wire::mpint(magnitude@),
    {
        let body: Vec<u8> = mpint_body(magnitude);
        self.put_bytes(body.as_slice());
    }

    /// The octets written so far.
    pub fn as_bytes(&self) -> (out: &[u8])
        ensures
            out@ == self@,
    {
        self.buf.as_slice()
    }

    /// The finished payload.
    pub fn finish(self) -> (out: bytes::Bytes)
        ensures
            buf::contents(out) == self@,
    {
        buf::copy_from_slice(self.buf.as_slice())
    }
}

/// The names joined by commas.
pub fn join_names(names: &[&str]) -> (out: Vec<u8>)
    ensures
        out@ == wire::join(str_names(names@)),
{
    let mut out: Vec<u8> = Vec::new();
    let n: usize = names.len();
    let mut i: usize = 0;
    while i < n
        invariant
            n == names@.len(),
            i <= n,
            out@ == wire::join(str_names(names@).take(i as int)),
        decreases n - i,
    {
        let ghost before = str_names(names@).take(i as int);
        let ghost after = str_names(names@).take(i + 1);
        proof {
            assert(after.drop_last() =~= before);
            assert(after.last() == names@[i as int].spec_bytes());
        }
        if i > 0 {
            out.push(wire::COMMA);
        }
        extend(&mut out, names[i].as_bytes());
        i = i + 1;
        proof {
            if i == 1 {
                assert(out@ =~= after[0]);
            } else {
                assert(out@ =~= wire::join(before) + seq![wire::COMMA] + after.last());
            }
        }
    }
    assert(str_names(names@).take(n as int) =~= str_names(names@));
    out
}

/// The body of the `mpint` of the number with the given magnitude.
pub fn mpint_body(magnitude: &[u8]) -> (out: Vec<u8>)
    ensures
        out@ == wire::mpint_body(magnitude@),
        out@.len() <= magnitude@.len() + 1,
{
    let n: usize = magnitude.len();
    let mut start: usize = 0;
    assert(magnitude@.skip(0) =~= magnitude@);
    while start < n && magnitude[start] == 0
        invariant
            n == magnitude@.len(),
            start <= n,
            wire::strip_zeros(magnitude@) == wire::strip_zeros(magnitude@.skip(start as int)),
        decreases n - start,
    {
        proof {
            let rest = magnitude@.skip(start as int);
            assert(rest[0] == 0);
            assert(rest.drop_first() =~= magnitude@.skip(start + 1));
        }
        start = start + 1;
    }
    let ghost digits = magnitude@.skip(start as int);
    proof {
        if start < n {
            assert(digits[0] != 0);
        }
        assert(wire::strip_zeros(digits) == digits);
    }
    let mut out: Vec<u8> = Vec::new();
    if start < n && magnitude[start] >= 0x80 {
        out.push(0u8);
    }
    let ghost sign = out@;
    let mut i: usize = start;
    while i < n
        invariant
            n == magnitude@.len(),
            start <= i <= n,
            out@ == sign + magnitude@.subrange(start as int, i as int),
        decreases n - i,
    {
        out.push(magnitude[i]);
        i = i + 1;
        assert(magnitude@.subrange(start as int, i as int) =~= magnitude@.subrange(
            start as int,
            i - 1,
        ).push(magnitude@[i - 1]));
    }
    assert(magnitude@.subrange(start as int, n as int) =~= digits);
    assert(out@ =~= wire::mpint_body(magnitude@));
    out
}

} // verus!
