//! The wire format of the fields that SSH payloads are made of (RFC 4251,
//! section 5), as functions on sequences of octets.

use vstd::prelude::*;

verus! {

/// The octet that separates the names of a name-list.
pub const COMMA: u8 = 0x2c;

/// A `uint32`: four octets, most significant first.
pub open spec fn u32_be(x: u32) -> Seq<u8> {
    seq![
        (x as int / 0x100_0000) as u8,
        (x as int / 0x1_0000 % 0x100) as u8,
        (x as int / 0x100 % 0x100) as u8,
        (x as int % 0x100) as u8,
    ]
}

/// The number that four octets stand for, most significant first.
pub open spec fn u32_from_be(b: Seq<u8>) -> int
    recommends
        b.len() == 4,
{
    b[0] as int * 0x100_0000 + b[1] as int * 0x1_0000 + b[2] as int * 0x100 + b[3] as int
}

/// A `boolean`: one octet, 1 for true and 0 for false.
pub open spec fn bool_octet(b: bool) -> u8 {
    if b {
        1u8
    } else {
        0u8
    }
}

/// A `string`: the length as a `uint32`, then the octets themselves.
pub open spec fn string(s: Seq<u8>) -> Seq<u8>
    recommends
        s.len() <= u32::MAX,
{
    u32_be(s.len() as u32) + s
}

/// The names joined by commas, without a length in front.
pub open spec fn join(names: Seq<Seq<u8>>) -> Seq<u8>
    decreases names.len(),
{
    if names.len() == 0 {
        Seq::empty()
    } else if names.len() == 1 {
        names[0]
    } else {
        join(names.drop_last()) + seq![COMMA] + names.last()
    }
}

/// The pieces between the commas of `s`; one more piece than there are commas.
pub open spec fn split(s: Seq<u8>) -> Seq<Seq<u8>>
    decreases s.len(),
{
    if s.len() == 0 {
        seq![Seq::<u8>::empty()]
    } else {
        let before = split(s.drop_last());
        if s.last() == COMMA {
            before.push(Seq::<u8>::empty())
        } else {
            before.update(before.len() - 1, before.last().push(s.last()))
        }
    }
}

/// The names that the body of a name-list holds. The empty body is the empty
/// list.
pub open spec fn names_of(s: Seq<u8>) -> Seq<Seq<u8>> {
    if s.len() == 0 {
        Seq::empty()
    } else {
        split(s)
    }
}

/// A `name-list`: the names joined by commas, as a `string`.
pub open spec fn name_list(names: Seq<Seq<u8>>) -> Seq<u8>
    recommends
        join(names).len() <= u32::MAX,
{
    string(join(names))
}

/// `s` without the zero octets at its front.
pub open spec fn strip_zeros(s: Seq<u8>) -> Seq<u8>
    decreases s.len(),
{
    if s.len() > 0 && s[0] == 0 {
        strip_zeros(s.drop_first())
    } else {
        s
    }
}

/// The body of the `mpint` of a number that is not negative, given by its
/// magnitude, most significant octet first: no needless zero in front, and one
/// zero octet in front where the first octet would else read as a sign.
pub open spec fn mpint_body(magnitude: Seq<u8>) -> Seq<u8> {
    let digits = strip_zeros(magnitude);
    if digits.len() > 0 && digits[0] >= 0x80 {
        seq![0u8] + digits
    } else {
        digits
    }
}

/// An `mpint` that is not negative: its body as a `string`.
pub open spec fn mpint(magnitude: Seq<u8>) -> Seq<u8>
    recommends
        magnitude.len() < u32::MAX,
{
    string(mpint_body(magnitude))
}

/// The octets of each vector of `v`, in order.
pub open spec fn views(v: Seq<Vec<u8>>) -> Seq<Seq<u8>> {
    Seq::new(v.len(), |i: int| v[i]@)
}

/// Reads one octet from the front of `s`: the octet and what follows it.
pub open spec fn parse_u8(s: Seq<u8>) -> Option<(u8, Seq<u8>)> {
    if s.len() >= 1 {
        Some((s[0], s.skip(1)))
    } else {
        None
    }
}

/// Reads a `uint32` from the front of `s`: the number and what follows it.
pub open spec fn parse_u32(s: Seq<u8>) -> Option<(u32, Seq<u8>)> {
    if s.len() >= 4 {
        Some((u32_from_be(s.take(4)) as u32, s.skip(4)))
    } else {
        None
    }
}

/// Reads a `boolean` from the front of `s`. Every octet but zero is true.
pub open spec fn parse_bool(s: Seq<u8>) -> Option<(bool, Seq<u8>)> {
    if s.len() >= 1 {
        Some((s[0] != 0, s.skip(1)))
    } else {
        None
    }
}

/// Reads `n` octets from the front of `s`: the octets and what follows them.
pub open spec fn parse_raw(s: Seq<u8>, n: nat) -> Option<(Seq<u8>, Seq<u8>)> {
    if s.len() >= n {
        Some((s.take(n as int), s.skip(n as int)))
    } else {
        None
    }
}

/// Reads a `string` from the front of `s`: its octets and what follows it.
pub open spec fn parse_string(s: Seq<u8>) -> Option<(Seq<u8>, Seq<u8>)> {
    match parse_u32(s) {
        Some((n, rest)) => parse_raw(rest, n as nat),
        None => None,
    }
}

/// Reads a `name-list` from the front of `s`: its names and what follows it.
pub open spec fn parse_name_list(s: Seq<u8>) -> Option<(Seq<Seq<u8>>, Seq<u8>)> {
    match parse_string(s) {
        Some((body, rest)) => Some((names_of(body), rest)),
        None => None,
    }
}

/// A name holds no comma and is not empty.
pub open spec fn is_name(name: Seq<u8>) -> bool {
    name.len() > 0 && !name.contains(COMMA)
}

/// Reading four octets back gives the number that was written.
pub proof fn lemma_u32_round_trip(x: u32)
    ensures
        u32_be(x).len() == 4,
        u32_from_be(u32_be(x)) == x,
{
}

/// Splitting goes piece by piece: what follows a comma is split on its own.
pub proof fn lemma_split_append(a: Seq<u8>, b: Seq<u8>)
    requires
        !b.contains(COMMA),
    ensures
        split(a + seq![COMMA] + b) == split(a).push(b),
        split(b) == seq![b],
    decreases b.len(),
{
    if b.len() == 0 {
        let s = a + seq![COMMA] + b;
        assert(s.drop_last() =~= a);
        assert(s.last() == COMMA);
        assert(b =~= Seq::<u8>::empty());
    } else {
        let b0 = b.drop_last();
        assert forall|i: int| 0 <= i < b0.len() implies b0[i] != COMMA by {
            assert(b0[i] == b[i]);
            assert(b.contains(b[i]));
        }
        assert(!b0.contains(COMMA));
        lemma_split_append(a, b0);
        let s = a + seq![COMMA] + b;
        assert(s.drop_last() =~= a + seq![COMMA] + b0);
        assert(s.last() == b.last());
        assert(b.contains(b.last()));
        assert(b0.push(b.last()) =~= b);
        assert(split(s) =~= split(a).push(b));
        assert(split(b) =~= seq![b]);
    }
}

/// A list of names comes back from its own wire form: joining names with
/// commas and taking the result apart at the commas gives the names again.
pub proof fn lemma_names_round_trip(names: Seq<Seq<u8>>)
    requires
        forall|i: int| 0 <= i < names.len() ==> is_name(#[trigger] names[i]),
    ensures
        names_of(join(names)) == names,
    decreases names.len(),
{
    if names.len() == 0 {
    } else if names.len() == 1 {
        lemma_split_append(Seq::empty(), names[0]);
        assert(names =~= seq![names[0]]);
    } else {
        let front = names.drop_last();
        assert forall|i: int| 0 <= i < front.len() implies is_name(#[trigger] front[i]) by {
            assert(front[i] == names[i]);
        }
        lemma_names_round_trip(front);
        lemma_join_nonempty(front);
        lemma_split_append(join(front), names.last());
        assert(front.push(names.last()) =~= names);
    }
}

/// Joined names are as long as the names and the commas between them.
pub proof fn lemma_join_nonempty(names: Seq<Seq<u8>>)
    requires
        names.len() > 0,
        forall|i: int| 0 <= i < names.len() ==> is_name(#[trigger] names[i]),
    ensures
        join(names).len() > 0,
    decreases names.len(),
{
    if names.len() > 1 {
    } else {
        assert(is_name(names[0]));
    }
}

/// A `string` in front of anything reads back as its octets, and leaves what
/// followed it.
pub proof fn lemma_parse_string(s: Seq<u8>, rest: Seq<u8>)
    requires
        s.len() <= u32::MAX,
    ensures
        parse_string(string(s) + rest) == Some((s, rest)),
{
    let w = string(s) + rest;
    lemma_u32_round_trip(s.len() as u32);
    assert(w.take(4) =~= u32_be(s.len() as u32));
    assert(w.skip(4) =~= s + rest);
    assert((s + rest).take(s.len() as int) =~= s);
    assert((s + rest).skip(s.len() as int) =~= rest);
}

/// A `uint32` in front of anything reads back as the number.
pub proof fn lemma_parse_u32(x: u32, rest: Seq<u8>)
    ensures
        parse_u32(u32_be(x) + rest) == Some((x, rest)),
{
    let w = u32_be(x) + rest;
    lemma_u32_round_trip(x);
    assert(w.take(4) =~= u32_be(x));
    assert(w.skip(4) =~= rest);
}

/// A `name-list` in front of anything reads back as its names.
pub proof fn lemma_parse_name_list(names: Seq<Seq<u8>>, rest: Seq<u8>)
    requires
        forall|i: int| 0 <= i < names.len() ==> is_name(#[trigger] names[i]),
        join(names).len() <= u32::MAX,
    ensures
        parse_name_list(name_list(names) + rest) == Some((names, rest)),
{
    lemma_parse_string(join(names), rest);
    lemma_names_round_trip(names);
}

} // verus!
