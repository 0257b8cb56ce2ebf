//! Ciphers, as the negotiation sees them.
//!
//! A cipher is described by its name and its sizes. The keyed state that
//! results from a key exchange is described by [`PacketEncrypt`] and
//! [`PacketDecrypt`]: the algorithm together with the derived key material. The
//! driver turns these into running ciphers.

use crate::mac::MacAlgo;
use vstd::prelude::*;

verus! {

/// How a cipher protects the integrity of a packet.
#[derive(Debug, Clone, Copy, PartialEq, Eq, Structural)]
pub enum CipherAlgoVariant {
    /// The cipher only encrypts and is paired with a MAC.
    Standard,
    /// The cipher authenticates by itself and needs no MAC.
    Aead { tag_len: usize },
}

impl CipherAlgoVariant {
    /// The cipher authenticates by itself.
    pub open spec fn spec_is_aead(&self) -> bool {
        *self is Aead
    }

    #[verifier::when_used_as_spec(spec_is_aead)]
    pub fn is_aead(&self) -> (r: bool)
        ensures
            r == self.spec_is_aead(),
    {
        match self {
            CipherAlgoVariant::Standard => false,
            CipherAlgoVariant::Aead { .. } => true,
        }
    }
}

/// A cipher.
#[derive(Debug, Clone, Copy, PartialEq, Eq)]
pub struct CipherAlgo {
    /// The name of the algorithm on the wire.
    pub name: &'static str,
    /// The length of the key in octets.
    pub key_len: usize,
    /// The length of the initialization vector in octets.
    pub iv_len: usize,
    /// The length of a block in octets.
    pub block_len: usize,
    /// Plain cipher or authenticated cipher.
    pub variant: CipherAlgoVariant,
}

/// "aes128-ctr" from RFC 4344.
pub open spec fn spec_aes128_ctr() -> CipherAlgo {
    CipherAlgo {
        name: "aes128-ctr",
        key_len: 16,
        iv_len: 16,
        block_len: 16,
        variant: CipherAlgoVariant::Standard,
    }
}

/// "aes128-ctr" from RFC 4344.
#[verifier::when_used_as_spec(spec_aes128_ctr)]
pub fn aes128_ctr() -> (algo: CipherAlgo)
    ensures
        algo == spec_aes128_ctr(),
{
    CipherAlgo {
        name: "aes128-ctr",
        key_len: 16,
        iv_len: 16,
        block_len: 16,
        variant: CipherAlgoVariant::Standard,
    }
}

/// "aes192-ctr" from RFC 4344.
pub open spec fn spec_aes192_ctr() -> CipherAlgo {
    CipherAlgo {
        name: "aes192-ctr",
        key_len: 24,
        iv_len: 16,
        block_len: 16,
        variant: CipherAlgoVariant::Standard,
    }
}

/// "aes192-ctr" from RFC 4344.
#[verifier::when_used_as_spec(spec_aes192_ctr)]
pub fn aes192_ctr() -> (algo: CipherAlgo)
    ensures
        algo == spec_aes192_ctr(),
{
    CipherAlgo {
        name: "aes192-ctr",
        key_len: 24,
        iv_len: 16,
        block_len: 16,
        variant: CipherAlgoVariant::Standard,
    }
}

/// "aes256-ctr" from RFC 4344.
pub open spec fn spec_aes256_ctr() -> CipherAlgo {
    CipherAlgo {
        name: "aes256-ctr",
        key_len: 32,
        iv_len: 16,
        block_len: 16,
        variant: CipherAlgoVariant::Standard,
    }
}

/// "aes256-ctr" from RFC 4344.
#[verifier::when_used_as_spec(spec_aes256_ctr)]
pub fn aes256_ctr() -> (algo: CipherAlgo)
    ensures
        algo == spec_aes256_ctr(),
{
    CipherAlgo {
        name: "aes256-ctr",
        key_len: 32,
        iv_len: 16,
        block_len: 16,
        variant: CipherAlgoVariant::Standard,
    }
}

/// "aes256-cbc" from RFC 4253. Outdated.
pub open spec fn spec_aes256_cbc() -> CipherAlgo {
    CipherAlgo {
        name: "aes256-cbc",
        key_len: 32,
        iv_len: 16,
        block_len: 16,
        variant: CipherAlgoVariant::Standard,
    }
}

/// "aes256-cbc" from RFC 4253. Outdated.
#[verifier::when_used_as_spec(spec_aes256_cbc)]
pub fn aes256_cbc() -> (algo: CipherAlgo)
    ensures
        algo == spec_aes256_cbc(),
{
    CipherAlgo {
        name: "aes256-cbc",
        key_len: 32,
        iv_len: 16,
        block_len: 16,
        variant: CipherAlgoVariant::Standard,
    }
}

/// The key material of the cipher of one direction of a connection.
#[derive(Clone, PartialEq, Eq)]
pub struct CipherKeys {
    /// The cipher that the key is for.
    pub algo: CipherAlgo,
    /// The encryption key.
    pub key: Vec<u8>,
    /// The initialization vector.
    pub iv: Vec<u8>,
}

/// What a [`CipherKeys`] holds.
pub struct CipherKeysView {
    pub algo: CipherAlgo,
    pub key: Seq<u8>,
    pub iv: Seq<u8>,
}

impl View for CipherKeys {
    type V = CipherKeysView;

    open spec fn view(&self) -> CipherKeysView {
        CipherKeysView { algo: self.algo, key: self.key@, iv: self.iv@ }
    }
}

/// The key material of the MAC of one direction of a connection.
#[derive(Clone, PartialEq, Eq)]
pub struct MacKeys {
    /// The MAC that the key is for.
    pub algo: MacAlgo,
    /// The integrity key.
    pub key: Vec<u8>,
}

/// What a [`MacKeys`] holds.
pub struct MacKeysView {
    pub algo: MacAlgo,
    pub key: Seq<u8>,
}

impl View for MacKeys {
    type V = MacKeysView;

    open spec fn view(&self) -> MacKeysView {
        MacKeysView { algo: self.algo, key: self.key@ }
    }
}

/// How the packets of one direction are protected, with the key material.
#[derive(Clone, PartialEq, Eq)]
pub enum PacketKeys {
    /// Packets travel as they are: no encryption, no MAC.
    Plain,
    /// The MAC covers the sequence number and the cleartext; the whole packet
    /// is then encrypted.
    EncryptAndMac(CipherKeys, MacKeys),
    /// The packet but its length is encrypted; the MAC covers the sequence
    /// number and the ciphertext.
    EncryptThenMac(CipherKeys, MacKeys),
    /// The cipher encrypts and authenticates at once.
    Aead(CipherKeys),
}

/// What a [`PacketKeys`] holds.
pub enum PacketKeysView {
    Plain,
    EncryptAndMac(CipherKeysView, MacKeysView),
    EncryptThenMac(CipherKeysView, MacKeysView),
    Aead(CipherKeysView),
}

impl View for PacketKeys {
    type V = PacketKeysView;

    open spec fn view(&self) -> PacketKeysView {
        match self {
            PacketKeys::Plain => PacketKeysView::Plain,
            PacketKeys::EncryptAndMac(cipher, mac) => PacketKeysView::EncryptAndMac(cipher@, mac@),
            PacketKeys::EncryptThenMac(cipher, mac) => PacketKeysView::EncryptThenMac(
                cipher@,
                mac@,
            ),
            PacketKeys::Aead(cipher) => PacketKeysView::Aead(cipher@),
        }
    }
}

impl PacketKeys {
    /// Packets travel as they are.
    pub open spec fn spec_is_plain(&self) -> bool {
        *self is Plain
    }

    /// Whether packets travel as they are. The padding of packets that do not
    /// must be random.
    #[verifier::when_used_as_spec(spec_is_plain)]
    pub fn is_plain(&self) -> (plain: bool)
        ensures
            plain == self.spec_is_plain(),
    {
        matches!(self, PacketKeys::Plain)
    }
}

/// How outgoing packets are protected.
pub type PacketEncrypt = PacketKeys;

/// How incoming packets are protected.
pub type PacketDecrypt = PacketKeys;

} // verus!
