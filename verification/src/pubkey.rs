//! Public key algorithms and keys.

pub mod ed25519;

use crate::buf;
use crate::codec::decode::{same_octets, PacketDecode};
use crate::codec::encode::PacketEncode;
use crate::codec::wire;
use crate::error::Error;
use crate::pubkey::ed25519::{Ed25519Privkey, Ed25519Pubkey};
use vstd::prelude::*;
use vstd::string::StringSliceAdditionalSpecFns;

verus! {

/// The reason given when a key is of a format that is not known here.
pub const UNKNOWN_FORMAT: &'static str = "unknown public key format";

/// The signature scheme behind a public key algorithm.
#[derive(Debug, Clone, Copy, PartialEq, Eq, Structural)]
pub enum PubkeyKind {
    /// Ed25519 (RFC 8032).
    Ed25519,
    /// RSA with SHA-1. Keys of this scheme cannot be decoded here, so nothing
    /// verifies under it.
    Rsa,
}

/// A public key algorithm.
#[derive(Debug, Clone, Copy, PartialEq, Eq)]
pub struct PubkeyAlgo {
    /// The name of the algorithm on the wire.
    pub name: &'static str,
    /// The signature scheme.
    pub kind: PubkeyKind,
}

/// "ssh-rsa" from RFC 4253. Outdated.
pub open spec fn spec_ssh_rsa() -> PubkeyAlgo {
    PubkeyAlgo { name: "ssh-rsa", kind: PubkeyKind::Rsa }
}

/// "ssh-rsa" from RFC 4253. Outdated.
#[verifier::when_used_as_spec(spec_ssh_rsa)]
pub fn ssh_rsa() -> (algo: PubkeyAlgo)
    ensures
        algo == spec_ssh_rsa(),
{
    PubkeyAlgo { name: "ssh-rsa", kind: PubkeyKind::Rsa }
}

/// A public key.
#[derive(Debug, Clone, Copy, PartialEq, Eq)]
pub enum Pubkey {
    /// An Ed25519 public key.
    Ed25519(Ed25519Pubkey),
}

/// A private key.
#[derive(Clone, PartialEq, Eq)]
pub enum Privkey {
    /// An Ed25519 keypair.
    Ed25519(Ed25519Privkey),
}

/// Whether `signature`, in its wire form, verifies as a signature of `message`
/// under `pubkey` with the scheme `kind`; if not, why not.
pub open spec fn verify_outcome(
    kind: PubkeyKind,
    pubkey: Pubkey,
    message: Seq<u8>,
    signature: Seq<u8>,
) -> Result<(), Error> {
    match kind {
        PubkeyKind::Ed25519 => ed25519::verify_outcome(pubkey, message, signature),
        PubkeyKind::Rsa => Err(Error::PubkeyFormat),
    }
}

/// Proof that a signature was verified. A value of this type exists only for
/// a key, a message and a signature for which verification succeeded.
pub struct SignatureVerified {
    kind: Ghost<PubkeyKind>,
    pubkey: Ghost<Pubkey>,
    message: Ghost<Seq<u8>>,
    signature: Ghost<Seq<u8>>,
}

impl SignatureVerified {
    #[verifier::type_invariant]
    spec fn verified(self) -> bool {
        verify_outcome(self.kind@, self.pubkey@, self.message@, self.signature@) is Ok
    }

    /// The scheme under which the signature was verified.
    pub closed spec fn kind(self) -> PubkeyKind {
        self.kind@
    }

    /// The key under which the signature was verified.
    pub closed spec fn pubkey(self) -> Pubkey {
        self.pubkey@
    }

    /// The message that was signed.
    pub closed spec fn message(self) -> Seq<u8> {
        self.message@
    }

    /// The signature, in its wire form.
    pub closed spec fn signature(self) -> Seq<u8> {
        self.signature@
    }

    /// Attests a verification that succeeded.
    pub(crate) fn assertion(
        Ghost(kind): Ghost<PubkeyKind>,
        Ghost(pubkey): Ghost<Pubkey>,
        Ghost(message): Ghost<Seq<u8>>,
        Ghost(signature): Ghost<Seq<u8>>,
    ) -> (out: SignatureVerified)
        requires
            verify_outcome(kind, pubkey, message, signature) is Ok,
        ensures
            out.kind() == kind,
            out.pubkey() == pubkey,
            out.message() == message,
            out.signature() == signature,
    {
        SignatureVerified {
            kind: Ghost(kind),
            pubkey: Ghost(pubkey),
            message: Ghost(message),
            signature: Ghost(signature),
        }
    }

    /// What is attested did verify.
    pub fn attests(&self)
        ensures
            verify_outcome(self.kind(), self.pubkey(), self.message(), self.signature()) is Ok,
    {
        proof {
            use_type_invariant(self);
        }
    }
}

impl PubkeyAlgo {
    /// Verifies that `signature` is a signature of `message` under `pubkey`.
    pub fn verify(&self, pubkey: &Pubkey, message: &[u8], signature: bytes::Bytes) -> (r: Result<
        SignatureVerified,
        Error,
    >)
        ensures
            match verify_outcome(self.kind, *pubkey, message@, buf::contents(signature)) {
                Ok(_) => r matches Ok(witness) && witness.kind() == self.kind && witness.pubkey()
                    == *pubkey && witness.message() == message@ && witness.signature()
                    == buf::contents(signature),
                Err(e) => r matches Err(err) && err == e,
            },
    {
        match self.kind {
            PubkeyKind::Ed25519 => ed25519::verify(pubkey, message, signature),
            PubkeyKind::Rsa => Err(Error::PubkeyFormat),
        }
    }

    /// Signs `message` with `privkey`; the signature comes in its wire form.
    pub fn sign(&self, privkey: &Privkey, message: &[u8]) -> (r: Result<bytes::Bytes, Error>)
        ensures
            match self.kind {
                PubkeyKind::Ed25519 => ed25519::signed(*privkey, message@, r),
                PubkeyKind::Rsa => r matches Err(e) && e == Error::PrivkeyFormat,
            },
    {
        match self.kind {
            PubkeyKind::Ed25519 => ed25519::sign(privkey, message),
            PubkeyKind::Rsa => Err(Error::PrivkeyFormat),
        }
    }
}

impl Pubkey {
    /// The wire form of the key: the name of its format, then the key.
    pub open spec fn wire(self) -> Seq<u8> {
        match self {
            Pubkey::Ed25519(key) => wire::string(ed25519::FORMAT.spec_bytes()) + wire::string(
                key@,
            ),
        }
    }

    /// The Ed25519 key with the given octets.
    pub open spec fn with_octets(octets: Seq<u8>) -> Pubkey {
        Pubkey::Ed25519(Ed25519Pubkey::with_octets(octets))
    }

    /// What decoding `blob` gives: a key, or the reason why there is none.
    pub open spec fn decoded(blob: Seq<u8>) -> Result<Seq<u8>, Error> {
        match wire::parse_string(blob) {
            None => Err(Error::Decode(crate::codec::decode::TRUNCATED)),
            Some((format, rest)) => if format == ed25519::FORMAT.spec_bytes() {
                ed25519::decoded_pubkey(rest)
            } else {
                Err(Error::Decode(UNKNOWN_FORMAT))
            },
        }
    }

    /// Decodes a key from its wire form.
    pub fn decode(blob: bytes::Bytes) -> (r: Result<Pubkey, Error>)
        ensures
            match Pubkey::decoded(buf::contents(blob)) {
                Ok(octets) => r matches Ok(Pubkey::Ed25519(key)) && key@ == octets
                    && key.is_valid(),
                Err(e) => r matches Err(err) && err == e,
            },
    {
        let mut blob = PacketDecode::new(blob);
        let format: Vec<u8> = match blob.get_bytes() {
            Ok(format) => format,
            Err(e) => {
                return Err(e);
            },
        };
        if same_octets(format.as_slice(), ed25519::FORMAT.as_bytes()) {
            match ed25519::decode_pubkey(&mut blob) {
                Ok(key) => Ok(Pubkey::Ed25519(key)),
                Err(e) => Err(e),
            }
        } else {
            Err(Error::Decode(UNKNOWN_FORMAT))
        }
    }

    /// The key in words: the kind of the key and its octets in hexadecimal
    /// digits.
    pub fn to_string(&self) -> (text: String)
        ensures
            match self {
                Pubkey::Ed25519(key) => text@ == "ed25519 "@ + ed25519::hex(key@),
            },
    {
        match self {
            Pubkey::Ed25519(key) => key.to_string(),
        }
    }

    /// Encodes the key in its wire form.
    pub fn encode(&self) -> (blob: bytes::Bytes)
        ensures
            buf::contents(blob) == self.wire(),
    {
        let mut blob = PacketEncode::new();
        match self {
            Pubkey::Ed25519(key) => ed25519::encode_pubkey(&mut blob, key),
        }
        blob.finish()
    }
}

} // verus!
