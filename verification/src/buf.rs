//! Shared byte buffers.
//!
//! Payloads that are kept for later (key-exchange init messages, host keys,
//! signatures) are held in `bytes::Bytes`. Verus cannot look inside that type,
//! so its contents get a name and the three operations used here a contract.

use vstd::prelude::*;

verus! {

/// `bytes::Bytes`: a buffer of octets that is cheap to clone. Nothing is known
/// of a value but through what is stated below.
#[verifier::external_type_specification]
#[verifier::external_body]
pub struct ExBytes(bytes::Bytes);

/// The octets that a buffer holds, first to last.
pub uninterp spec fn contents(b: bytes::Bytes) -> Seq<u8>;

/// `bytes::Bytes::copy_from_slice`: a new buffer with a copy of `data`.
#[verifier::external_body]
pub(crate) fn copy_from_slice(data: &[u8]) -> (b: bytes::Bytes)
    ensures
        contents(b) == data@,
{
    bytes::Bytes::copy_from_slice(data)
}

/// `Deref` of `bytes::Bytes`: the buffer's octets as a slice.
#[verifier::external_body]
pub(crate) fn as_slice(b: &bytes::Bytes) -> (s: &[u8])
    ensures
        s@ == contents(*b),
{
    b
}

/// `Clone` of `bytes::Bytes`: a second handle on the same octets.
#[verifier::external_body]
pub(crate) fn clone(b: &bytes::Bytes) -> (c: bytes::Bytes)
    ensures
        contents(c) == contents(*b),
{
    b.clone()
}

} // verus!
