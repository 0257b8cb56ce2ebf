//! Reading a payload field by field.

use crate::buf;
use crate::codec::wire;
use crate::error::Error;
use vstd::prelude::*;

verus! {

/// The reason given when a payload ends before a field does.
pub const TRUNCATED: &'static str = "unexpected end of packet";

/// The reason given when a field of fixed length has another length.
pub const BAD_LENGTH: &'static str = "unexpected length of a fixed-length field";

/// A payload that is being read from front to back.
pub struct PacketDecode {
    buf: bytes::Bytes,
    pos: usize,
}

impl PacketDecode {
    #[verifier::type_invariant]
    spec fn in_bounds(self) -> bool {
        self.pos <= buf::contents(self.buf).len()
    }

    /// The whole payload, read or not.
    pub closed spec fn original(&self) -> Seq<u8> {
        buf::contents(self.buf)
    }

    /// The octets that have not been read yet.
    pub closed spec fn remaining(&self) -> Seq<u8> {
        buf::contents(self.buf).skip(self.pos as int)
    }

    /// What a read that found too few octets leaves and returns.
    pub open spec fn failed<T>(&self, after: &PacketDecode, r: Result<T, Error>) -> bool {
        &&& r == Err::<T, Error>(Error::Decode(TRUNCATED))
        &&& after.remaining() == self.remaining()
    }

    /// A reader at the front of `payload`.
    pub fn new(payload: bytes::Bytes) -> (out: PacketDecode)
        ensures
            out.original() == buf::contents(payload),
            out.remaining() == buf::contents(payload),
    {
        assert(buf::contents(payload).skip(0) =~= buf::contents(payload));
        PacketDecode { buf: payload, pos: 0 }
    }

    /// The whole payload, whatever has been read of it.
    pub fn as_original_bytes(&self) -> (out: &[u8])
        ensures
            out@ == self.original(),
    {
        buf::as_slice(&self.buf)
    }

    /// The number of octets that have not been read yet.
    pub fn remaining_len(&self) -> (n: usize)
        ensures
            n == self.remaining().len(),
    {
        proof {
            use_type_invariant(self);
        }
        buf::as_slice(&self.buf).len() - self.pos
    }

    /// The number of octets that have been read.
    pub fn consumed(&self) -> (n: usize)
        ensures
            n + self.remaining().len() == self.original().len(),
    {
        proof {
            use_type_invariant(self);
        }
        self.pos
    }

    /// Goes back, or forth, to where `n` octets have been read.
    pub fn rewind(&mut self, n: usize)
        requires
            n <= old(self).original().len(),
        ensures
            final(self).original() == old(self).original(),
            final(self).remaining() == old(self).original().skip(n as int),
    {
        self.pos = n;
    }

    /// What remains is the end of the whole.
    pub fn remaining_is_tail(&self)
        ensures
            self.remaining().len() <= self.original().len(),
            self.remaining() == self.original().skip(
                self.original().len() - self.remaining().len(),
            ),
    {
        proof {
            use_type_invariant(self);
        }
    }

    /// Reads one octet.
    pub fn get_u8(&mut self) -> (r: Result<u8, Error>)
        ensures
            final(self).original() == old(self).original(),
            match wire::parse_u8(old(self).remaining()) {
                Some((value, rest)) => r == Ok::<u8, Error>(value) && final(self).remaining()
                    == rest,
                None => old(self).failed(final(self), r),
            },
    {
        proof {
            use_type_invariant(&*self);
        }
        let data: &[u8] = buf::as_slice(&self.buf);
        if data.len() - self.pos < 1 {
            return Err(Error::Decode(TRUNCATED));
        }
        let value: u8 = data[self.pos];
        assert(old(self).remaining().skip(1) =~= data@.skip(self.pos + 1));
        self.pos = self.pos + 1;
        Ok(value)
    }

    /// Reads a `uint32`.
    pub fn get_u32(&mut self) -> (r: Result<u32, Error>)
        ensures
            final(self).original() == old(self).original(),
            match wire::parse_u32(old(self).remaining()) {
                Some((value, rest)) => r == Ok::<u32, Error>(value) && final(self).remaining()
                    == rest,
                None => old(self).failed(final(self), r),
            },
    {
        proof {
            use_type_invariant(&*self);
        }
        let data: &[u8] = buf::as_slice(&self.buf);
        if data.len() - self.pos < 4 {
            return Err(Error::Decode(TRUNCATED));
        }
        let p: usize = self.pos;
        let value: u32 = (data[p] as u32) * 0x100_0000 + (data[p + 1] as u32) * 0x1_0000 + (data[p
            + 2] as u32) * 0x100 + (data[p + 3] as u32);
        proof {
            let head = old(self).remaining().take(4);
            assert(head[0] == data@[p as int] && head[1] == data@[p + 1] && head[2] == data@[p + 2]
                && head[3] == data@[p + 3]);
            assert(old(self).remaining().skip(4) =~= data@.skip(p + 4));
        }
        self.pos = p + 4;
        Ok(value)
    }

    /// Reads a `boolean`. Every octet but zero is true.
    pub fn get_bool(&mut self) -> (r: Result<bool, Error>)
        ensures
            final(self).original() == old(self).original(),
            match wire::parse_bool(old(self).remaining()) {
                Some((value, rest)) => r == Ok::<bool, Error>(value) && final(self).remaining()
                    == rest,
                None => old(self).failed(final(self), r),
            },
    {
        match self.get_u8() {
            Ok(octet) => Ok(octet != 0),
            Err(e) => Err(e),
        }
    }

    /// Passes over `n` octets.
    pub fn skip(&mut self, n: usize) -> (r: Result<(), Error>)
        ensures
            final(self).original() == old(self).original(),
            match wire::parse_raw(old(self).remaining(), n as nat) {
                Some((_, rest)) => r == Ok::<(), Error>(()) && final(self).remaining() == rest,
                None => old(self).failed(final(self), r),
            },
    {
        proof {
            use_type_invariant(&*self);
        }
        let data: &[u8] = buf::as_slice(&self.buf);
        if data.len() - self.pos < n {
            return Err(Error::Decode(TRUNCATED));
        }
        assert(old(self).remaining().skip(n as int) =~= data@.skip(self.pos + n));
        self.pos = self.pos + n;
        Ok(())
    }

    /// Reads `n` octets.
    pub fn get_raw(&mut self, n: usize) -> (r: Result<Vec<u8>, Error>)
        ensures
            final(self).original() == old(self).original(),
            match wire::parse_raw(old(self).remaining(), n as nat) {
                Some((value, rest)) => r matches Ok(v) && v@ == value && final(self).remaining()
                    == rest,
                None => old(self).failed(final(self), r),
            },
    {
        proof {
            use_type_invariant(&*self);
        }
        let data: &[u8] = buf::as_slice(&self.buf);
        if data.len() - self.pos < n {
            return Err(Error::Decode(TRUNCATED));
        }
        let p: usize = self.pos;
        let mut out: Vec<u8> = Vec::new();
        let mut i: usize = 0;
        while i < n
            invariant
                i <= n,
                p + n <= data@.len() <= usize::MAX,
                out@ == data@.subrange(p as int, p + i),
            decreases n - i,
        {
            out.push(data[p + i]);
            i = i + 1;
            assert(data@.subrange(p as int, p + i) =~= data@.subrange(p as int, p + i - 1).push(
                data@[p + i - 1],
            ));
        }
        assert(old(self).remaining().take(n as int) =~= data@.subrange(p as int, p + n));
        assert(old(self).remaining().skip(n as int) =~= data@.skip(p + n));
        self.pos = p + n;
        Ok(out)
    }

    /// Reads a `string` of exactly `N` octets into an array.
    pub fn get_byte_array<const N: usize>(&mut self) -> (r: Result<[u8; N], Error>)
        ensures
            final(self).original() == old(self).original(),
            match wire::parse_string(old(self).remaining()) {
                Some((value, rest)) => if value.len() == N {
                    r matches Ok(v) && v@ == value && final(self).remaining() == rest
                } else {
                    r == Err::<[u8; N], Error>(Error::Decode(BAD_LENGTH))
                        && final(self).remaining() == old(self).remaining()
                },
                None => old(self).failed(final(self), r),
            },
    {
        proof {
            use_type_invariant(&*self);
        }
        let start: usize = self.pos;
        let value: Vec<u8> = match self.get_bytes() {
            Ok(value) => value,
            Err(e) => {
                return Err(e);
            },
        };
        if value.len() != N {
            self.pos = start;
            return Err(Error::Decode(BAD_LENGTH));
        }
        let mut out: [u8; N] = [0u8;N];
        let mut i: usize = 0;
        while i < N
            invariant
                i <= N,
                value@.len() == N,
                forall|j: int| 0 <= j < i ==> out@[j] == value@[j],
            decreases N - i,
        {
            out[i] = value[i];
            i = i + 1;
        }
        assert(out@ =~= value@);
        Ok(out)
    }

    /// Reads a `string`.
    pub fn get_bytes(&mut self) -> (r: Result<Vec<u8>, Error>)
        ensures
            final(self).original() == old(self).original(),
            match wire::parse_string(old(self).remaining()) {
                Some((value, rest)) => r matches Ok(v) && v@ == value && final(self).remaining()
                    == rest,
                None => old(self).failed(final(self), r),
            },
    {
        proof {
            use_type_invariant(&*self);
        }
        let start: usize = self.pos;
        let len: u32 = match self.get_u32() {
            Ok(len) => len,
            Err(e) => {
                return Err(e);
            },
        };
        match self.get_raw(len as usize) {
            Ok(value) => Ok(value),
            Err(e) => {
                self.pos = start;
                Err(e)
            },
        }
    }

    /// Reads a `name-list`.
    pub fn get_name_list(&mut self) -> (r: Result<Vec<Vec<u8>>, Error>)
        ensures
            final(self).original() == old(self).original(),
            match wire::parse_name_list(old(self).remaining()) {
                Some((value, rest)) => r matches Ok(v) && wire::views(v@) == value
                    && final(self).remaining() == rest,
                None => old(self).failed(final(self), r),
            },
    {
        match self.get_bytes() {
            Ok(body) => Ok(split_names(body.as_slice())),
            Err(e) => Err(e),
        }
    }
}

/// Whether `a` and `b` hold the same octets.
pub fn same_octets(a: &[u8], b: &[u8]) -> (same: bool)
    ensures
        same == (a@ == b@),
{
    let n: usize = a.len();
    if n != b.len() {
        return false;
    }
    let mut i: usize = 0;
    while i < n
        invariant
            n == a@.len(),
            n == b@.len(),
            i <= n,
            forall|j: int| 0 <= j < i ==> a@[j] == b@[j],
        decreases n - i,
    {
        if a[i] != b[i] {
            return false;
        }
        i = i + 1;
    }
    assert(a@ =~= b@);
    true
}

/// The names in the body of a name-list.
pub fn split_names(body: &[u8]) -> (names: Vec<Vec<u8>>)
    ensures
        wire::views(names@) == wire::names_of(body@),
{
    let mut names: Vec<Vec<u8>> = Vec::new();
    let n: usize = body.len();
    if n == 0 {
        assert(wire::views(names@) =~= wire::names_of(body@));
        return names;
    }
    let mut name: Vec<u8> = Vec::new();
    let mut i: usize = 0;
    assert(body@.take(0) =~= Seq::<u8>::empty());
    assert(wire::views(names@).push(name@) =~= wire::split(body@.take(0)));
    while i < n
        invariant
            n == body@.len(),
            i <= n,
            wire::views(names@).push(name@) == wire::split(body@.take(i as int)),
        decreases n - i,
    {
        let ghost done = wire::views(names@);
        let ghost open = name@;
        let octet: u8 = body[i];
        if octet == wire::COMMA {
            names.push(name);
            name = Vec::new();
            assert(wire::views(names@) =~= done.push(open));
        } else {
            name.push(octet);
            assert(wire::views(names@) =~= done);
        }
        i = i + 1;
        proof {
            let s = body@.take(i as int);
            assert(s.drop_last() =~= body@.take(i - 1));
            assert(s.last() == octet);
            let before = wire::split(s.drop_last());
            assert(before == done.push(open));
            if octet == wire::COMMA {
                assert(wire::views(names@).push(name@) =~= before.push(Seq::<u8>::empty()));
            } else {
                assert(wire::views(names@).push(name@) =~= before.update(
                    before.len() - 1,
                    before.last().push(octet),
                ));
            }
        }
    }
    assert(body@.take(n as int) =~= body@);
    let ghost done = wire::views(names@);
    names.push(name);
    assert(wire::views(names@) =~= done.push(name@));
    names
}

} // verus!
