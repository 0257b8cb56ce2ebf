//! Message authentication codes, as the negotiation sees them.

use vstd::prelude::*;

verus! {

/// What a MAC is computed over.
#[derive(Debug, Clone, Copy, PartialEq, Eq, Structural)]
pub enum MacAlgoVariant {
    /// Over the cleartext of the packet.
    EncryptAndMac,
    /// Over the ciphertext of the packet.
    EncryptThenMac,
}

/// A message authentication code.
#[derive(Debug, Clone, Copy, PartialEq, Eq)]
pub struct MacAlgo {
    /// The name of the algorithm on the wire.
    pub name: &'static str,
    /// The length of the tag in octets.
    pub tag_len: usize,
    /// The length of the key in octets.
    pub key_len: usize,
    /// Over cleartext or over ciphertext.
    pub variant: MacAlgoVariant,
}

/// "hmac-sha2-256" from RFC 6668.
pub open spec fn spec_hmac_sha2_256() -> MacAlgo {
    MacAlgo {
        name: "hmac-sha2-256",
        tag_len: 32,
        key_len: 32,
        variant: MacAlgoVariant::EncryptAndMac,
    }
}

/// "hmac-sha2-256" from RFC 6668.
#[verifier::when_used_as_spec(spec_hmac_sha2_256)]
pub fn hmac_sha2_256() -> (algo: MacAlgo)
    ensures
        algo == spec_hmac_sha2_256(),
{
    MacAlgo {
        name: "hmac-sha2-256",
        tag_len: 32,
        key_len: 32,
        variant: MacAlgoVariant::EncryptAndMac,
    }
}

/// "hmac-sha1" from RFC 4253. Outdated.
pub open spec fn spec_hmac_sha1() -> MacAlgo {
    MacAlgo {
        name: "hmac-sha1",
        tag_len: 20,
        key_len: 20,
        variant: MacAlgoVariant::EncryptAndMac,
    }
}

/// "hmac-sha1" from RFC 4253. Outdated.
#[verifier::when_used_as_spec(spec_hmac_sha1)]
pub fn hmac_sha1() -> (algo: MacAlgo)
    ensures
        algo == spec_hmac_sha1(),
{
    MacAlgo {
        name: "hmac-sha1",
        tag_len: 20,
        key_len: 20,
        variant: MacAlgoVariant::EncryptAndMac,
    }
}

/// Stands in the place of a MAC where the cipher authenticates by itself. It
/// has no name that a peer could offer.
pub open spec fn spec_invalid() -> MacAlgo {
    MacAlgo {
        name: "",
        tag_len: 0,
        key_len: 0,
        variant: MacAlgoVariant::EncryptAndMac,
    }
}

/// Stands in the place of a MAC where the cipher authenticates by itself. It
/// has no name that a peer could offer.
#[verifier::when_used_as_spec(spec_invalid)]
pub fn invalid() -> (algo: MacAlgo)
    ensures
        algo == spec_invalid(),
{
    MacAlgo {
        name: "",
        tag_len: 0,
        key_len: 0,
        variant: MacAlgoVariant::EncryptAndMac,
    }
}

} // verus!
