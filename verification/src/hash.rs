//! The hash functions that key exchanges are built on.
//!
//! The digests are computed by the `sha2` and `sha1` crates. Verus takes them
//! as functions from octets to octets of which only the length is known.

use sha2::Digest;
use vstd::prelude::*;

verus! {

/// The SHA-256 digest of `data`.
pub uninterp spec fn sha256(data: Seq<u8>) -> Seq<u8>;

/// The SHA-1 digest of `data`.
pub uninterp spec fn sha1(data: Seq<u8>) -> Seq<u8>;

/// `sha2::Sha256::digest`: the SHA-256 digest of `data`, which has 32 octets.
#[verifier::external_body]
fn sha256_digest(data: &[u8]) -> (out: Vec<u8>)
    ensures
        out@ == sha256(data@),
        out@.len() == 32,
{
    sha2::Sha256::digest(data).to_vec()
}

/// `sha1::Sha1::digest`: the SHA-1 digest of `data`, which has 20 octets.
#[verifier::external_body]
fn sha1_digest(data: &[u8]) -> (out: Vec<u8>)
    ensures
        out@ == sha1(data@),
        out@.len() == 20,
{
    sha1::Sha1::digest(data).to_vec()
}

/// A hash function.
#[derive(Debug, Clone, Copy, PartialEq, Eq, Structural)]
pub enum HashAlgo {
    Sha256,
    Sha1,
}

impl HashAlgo {
    /// The digest of `data`.
    pub open spec fn digest(self, data: Seq<u8>) -> Seq<u8> {
        match self {
            HashAlgo::Sha256 => sha256(data),
            HashAlgo::Sha1 => sha1(data),
        }
    }

    /// The number of octets of every digest.
    pub open spec fn output_len(self) -> nat {
        match self {
            HashAlgo::Sha256 => 32,
            HashAlgo::Sha1 => 20,
        }
    }

    /// Computes the digest of `data`.
    pub fn compute_hash(&self, data: &[u8]) -> (out: Vec<u8>)
        ensures
            out@ == self.digest(data@),
            out@.len() == self.output_len(),
    {
        match self {
            HashAlgo::Sha256 => sha256_digest(data),
            HashAlgo::Sha1 => sha1_digest(data),
        }
    }
}

} // verus!
