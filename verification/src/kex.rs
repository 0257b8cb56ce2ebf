//! Key exchange algorithms, as the negotiation sees them.
//!
//! The exchange itself (the group arithmetic and its messages) is carried out
//! by the driver. The core chooses the algorithm, hands the driver what the
//! exchange hash covers, and takes the outcome.

use crate::hash::HashAlgo;
use vstd::prelude::*;

verus! {

/// A key exchange algorithm.
#[derive(Debug, Clone, Copy, PartialEq, Eq)]
pub struct KexAlgo {
    /// The name of the algorithm on the wire.
    pub name: &'static str,
    /// The hash function of the algorithm, which also derives the keys.
    pub hash: HashAlgo,
}

/// "curve25519-sha256" from RFC 8731.
pub open spec fn spec_curve25519_sha256() -> KexAlgo {
    KexAlgo {
        name: "curve25519-sha256",
        hash: HashAlgo::Sha256,
    }
}

/// "curve25519-sha256" from RFC 8731.
#[verifier::when_used_as_spec(spec_curve25519_sha256)]
pub fn curve25519_sha256() -> (algo: KexAlgo)
    ensures
        algo == spec_curve25519_sha256(),
{
    KexAlgo {
        name: "curve25519-sha256",
        hash: HashAlgo::Sha256,
    }
}

/// "curve25519-sha256@libssh.org", the older name of the same algorithm.
pub open spec fn spec_curve25519_sha256_libssh() -> KexAlgo {
    KexAlgo {
        name: "curve25519-sha256@libssh.org",
        hash: HashAlgo::Sha256,
    }
}

/// "curve25519-sha256@libssh.org", the older name of the same algorithm.
#[verifier::when_used_as_spec(spec_curve25519_sha256_libssh)]
pub fn curve25519_sha256_libssh() -> (algo: KexAlgo)
    ensures
        algo == spec_curve25519_sha256_libssh(),
{
    KexAlgo {
        name: "curve25519-sha256@libssh.org",
        hash: HashAlgo::Sha256,
    }
}

/// "diffie-hellman-group14-sha1" from RFC 4253. Outdated.
pub open spec fn spec_diffie_hellman_group14_sha1() -> KexAlgo {
    KexAlgo {
        name: "diffie-hellman-group14-sha1",
        hash: HashAlgo::Sha1,
    }
}

/// "diffie-hellman-group14-sha1" from RFC 4253. Outdated.
#[verifier::when_used_as_spec(spec_diffie_hellman_group14_sha1)]
pub fn diffie_hellman_group14_sha1() -> (algo: KexAlgo)
    ensures
        algo == spec_diffie_hellman_group14_sha1(),
{
    KexAlgo {
        name: "diffie-hellman-group14-sha1",
        hash: HashAlgo::Sha1,
    }
}

/// What the exchange hash covers besides the exchange's own messages.
pub struct KexInput {
    /// Our identification string, without the line end.
    pub client_ident: bytes::Bytes,
    /// The peer's identification string, without the line end.
    pub server_ident: bytes::Bytes,
    /// The payload of our `SSH_MSG_KEXINIT`.
    pub client_kex_init: bytes::Bytes,
    /// The payload of the peer's `SSH_MSG_KEXINIT`.
    pub server_kex_init: bytes::Bytes,
}

/// The outcome of a key exchange.
pub struct KexOutput {
    /// The magnitude of the shared secret K, most significant octet first.
    pub shared_secret: Vec<u8>,
    /// The exchange hash H.
    pub exchange_hash: bytes::Bytes,
    /// The server's public host key, encoded.
    pub server_pubkey: bytes::Bytes,
    /// The server's signature of the exchange hash, encoded.
    pub server_exchange_hash_sign: bytes::Bytes,
}

} // verus!
