//! Ed25519 keys and signatures (RFC 8032), in their SSH encoding (RFC 8709).
//!
//! The arithmetic is done by the `ed25519-dalek` crate. Keys are held as their
//! octets; what the crate decides about octets is named here and taken on
//! trust.

use crate::buf;
use crate::codec::decode::{same_octets, PacketDecode, BAD_LENGTH, TRUNCATED};
use crate::codec::encode::PacketEncode;
use crate::codec::wire;
use crate::error::Error;
use crate::pubkey::{Privkey, Pubkey, PubkeyAlgo, PubkeyKind, SignatureVerified};
use ed25519_dalek::Signer;
use vstd::prelude::*;
use vstd::string::StringExecFns;
use vstd::string::StringSliceAdditionalSpecFns;

verus! {

/// The name of the key format and of the signature format.
pub const FORMAT: &'static str = "ssh-ed25519";

/// The reason given when a signature is of another format.
pub const BAD_SIGNATURE_FORMAT: &'static str = "expected signature format 'ssh-ed25519'";

/// The reason given when the octets of a public key are no point of the curve.
pub const INVALID_PUBKEY: &'static str = "ed25519 public key is not valid";

/// The reason given when a private key comes with another public key than
/// the one that it holds.
pub const MISMATCHED_KEYS: &'static str = "ed25519 privkey is not valid (public keys do not match)";

/// The reason given when the octets of a keypair are not accepted.
pub const INVALID_KEYPAIR: &'static str = "ed25519 keypair is not valid";

/// The reason given when signing fails.
pub const SIGN_FAILED: &'static str = "could not sign with ed25519";

/// Whether `octets` are an Ed25519 public key: 32 octets that decompress to a
/// point of the curve.
pub uninterp spec fn is_public_key(octets: Seq<u8>) -> bool;

/// Whether `octets` are an Ed25519 keypair: a secret key followed by a public
/// key.
pub uninterp spec fn is_keypair(octets: Seq<u8>) -> bool;

/// Whether `signature` passes the strict verification as a signature of
/// `message` under `pubkey`.
pub uninterp spec fn verifies_strict(pubkey: Seq<u8>, message: Seq<u8>, signature: Seq<u8>) -> bool;

/// The signature of `message` under `keypair`, where signing succeeds.
pub uninterp spec fn signature_of(keypair: Seq<u8>, message: Seq<u8>) -> Option<Seq<u8>>;

/// `ed25519_dalek::PublicKey::from_bytes`: whether the octets are accepted as a
/// public key. Only 32 octets are.
#[verifier::external_body]
fn dalek_public_key_accepts(octets: &[u8]) -> (ok: bool)
    ensures
        ok == is_public_key(octets@),
        ok ==> octets@.len() == 32,
{
    ed25519_dalek::PublicKey::from_bytes(octets).is_ok()
}

/// `ed25519_dalek::Keypair::from_bytes`: whether the octets are accepted as a
/// keypair. Only 64 octets are.
#[verifier::external_body]
fn dalek_keypair_accepts(octets: &[u8]) -> (ok: bool)
    ensures
        ok == is_keypair(octets@),
        ok ==> octets@.len() == 64,
{
    ed25519_dalek::Keypair::from_bytes(octets).is_ok()
}

/// `ed25519_dalek::PublicKey::verify_strict`: whether the signature verifies.
/// Octets that are no public key, or no signature, do not verify.
#[verifier::external_body]
fn dalek_verify_strict(pubkey: &[u8; 32], message: &[u8], signature: &[u8; 64]) -> (ok: bool)
    ensures
        ok == verifies_strict(pubkey@, message@, signature@),
{
    let pubkey = ed25519_dalek::PublicKey::from_bytes(pubkey);
    let signature = ed25519_dalek::Signature::from_bytes(signature);
    match (pubkey, signature) {
        (Ok(pubkey), Ok(signature)) => pubkey.verify_strict(message, &signature).is_ok(),
        _ => false,
    }
}

/// `ed25519_dalek::Keypair::try_sign`: the signature of the message, if the
/// octets are a keypair and signing succeeds.
#[verifier::external_body]
fn dalek_try_sign(keypair: &[u8; 64], message: &[u8]) -> (r: Option<[u8; 64]>)
    ensures
        match signature_of(keypair@, message@) {
            Some(signature) => r matches Some(octets) && octets@ == signature,
            None => r is None,
        },
{
    match ed25519_dalek::Keypair::from_bytes(keypair) {
        Ok(keypair) => match keypair.try_sign(message) {
            Ok(signature) => Some(signature.to_bytes()),
            Err(_) => None,
        },
        Err(_) => None,
    }
}

/// "ssh-ed25519" public key algorithm from RFC 8709.
pub open spec fn spec_ssh_ed25519() -> PubkeyAlgo {
    PubkeyAlgo { name: "ssh-ed25519", kind: PubkeyKind::Ed25519 }
}

/// "ssh-ed25519" public key algorithm from RFC 8709.
#[verifier::when_used_as_spec(spec_ssh_ed25519)]
pub fn ssh_ed25519() -> (algo: PubkeyAlgo)
    ensures
        algo == spec_ssh_ed25519(),
{
    PubkeyAlgo { name: "ssh-ed25519", kind: PubkeyKind::Ed25519 }
}

/// Ed25519 public key from RFC 8032.
#[derive(Debug, Clone, Copy, PartialEq, Eq)]
pub struct Ed25519Pubkey {
    octets: [u8; 32],
}

/// Ed25519 keypair from RFC 8032.
#[derive(Clone, PartialEq, Eq)]
pub struct Ed25519Privkey {
    keypair: [u8; 64],
}

impl View for Ed25519Pubkey {
    type V = Seq<u8>;

    /// The 32 octets of the key.
    closed spec fn view(&self) -> Seq<u8> {
        self.octets@
    }
}

impl View for Ed25519Privkey {
    type V = Seq<u8>;

    /// The 64 octets of the keypair: the secret key, then the public key.
    closed spec fn view(&self) -> Seq<u8> {
        self.keypair@
    }
}

impl Ed25519Pubkey {
    /// The octets are a point of the curve.
    pub open spec fn is_valid(&self) -> bool {
        is_public_key(self@)
    }

    /// The key with the given octets, of which there must be 32.
    pub closed spec fn with_octets(octets: Seq<u8>) -> Ed25519Pubkey {
        choose|key: Ed25519Pubkey| key@ == octets
    }

    /// A key is the key with its octets.
    pub proof fn lemma_with_octets(self)
        ensures
            Ed25519Pubkey::with_octets(self@) == self,
    {
        let other = Ed25519Pubkey::with_octets(self@);
        assert(other@ == self@);
        assert(other.octets =~= self.octets);
    }

    /// The key that `octets` are, if they are one.
    pub fn from_bytes(octets: &[u8]) -> (r: Option<Ed25519Pubkey>)
        ensures
            match r {
                Some(key) => is_public_key(octets@) && key@ == octets@,
                None => !is_public_key(octets@),
            },
    {
        if !dalek_public_key_accepts(octets) {
            return None;
        }
        let mut out: [u8; 32] = [0u8;32];
        let mut i: usize = 0;
        while i < 32
            invariant
                i <= 32,
                octets@.len() == 32,
                forall|j: int| 0 <= j < i ==> out@[j] == octets@[j],
            decreases 32 - i,
        {
            out[i] = octets[i];
            i = i + 1;
        }
        assert(out@ =~= octets@);
        Some(Ed25519Pubkey { octets: out })
    }

    /// The octets of the key.
    pub fn as_bytes(&self) -> (octets: &[u8; 32])
        ensures
            octets@ == self@,
    {
        &self.octets
    }

    /// The key in words: `ed25519` and the octets in hexadecimal digits.
    pub fn to_string(&self) -> (text: String)
        ensures
            text@ == "ed25519 "@ + hex(self@),
    {
        let mut text: String = String::from_str("ed25519 ");
        let mut i: usize = 0;
        assert(self@.take(0) =~= Seq::<u8>::empty());
        while i < 32
            invariant
                i <= 32,
                self@.len() == 32,
                text@ == "ed25519 "@ + hex(self@.take(i as int)),
            decreases 32 - i,
        {
            let octet: u8 = self.octets[i];
            let ghost before = self@.take(i as int);
            text.append(hex_digit(octet / 16));
            text.append(hex_digit(octet % 16));
            i = i + 1;
            proof {
                let now = self@.take(i as int);
                assert(now.drop_last() =~= before);
                assert(now.last() == octet);
                assert(text@ =~= "ed25519 "@ + hex(now));
            }
        }
        assert(self@.take(32) =~= self@);
        text
    }
}

/// The hexadecimal digit of a number below sixteen.
pub open spec fn hex_char(n: u8) -> char {
    if n == 0 {
        '0'
    } else if n == 1 {
        '1'
    } else if n == 2 {
        '2'
    } else if n == 3 {
        '3'
    } else if n == 4 {
        '4'
    } else if n == 5 {
        '5'
    } else if n == 6 {
        '6'
    } else if n == 7 {
        '7'
    } else if n == 8 {
        '8'
    } else if n == 9 {
        '9'
    } else if n == 10 {
        'a'
    } else if n == 11 {
        'b'
    } else if n == 12 {
        'c'
    } else if n == 13 {
        'd'
    } else if n == 14 {
        'e'
    } else {
        'f'
    }
}

/// The octets in hexadecimal digits, two for each octet, the higher first.
pub open spec fn hex(octets: Seq<u8>) -> Seq<char>
    decreases octets.len(),
{
    if octets.len() == 0 {
        Seq::empty()
    } else {
        hex(octets.drop_last()) + seq![
            hex_char(octets.last() / 16),
            hex_char(octets.last() % 16),
        ]
    }
}

/// The hexadecimal digit of a number below sixteen.
pub fn hex_digit(n: u8) -> (digit: &'static str)
    requires
        n < 16,
    ensures
        digit@ == seq![hex_char(n)],
{
    proof {
        reveal_strlit("0");
        reveal_strlit("1");
        reveal_strlit("2");
        reveal_strlit("3");
        reveal_strlit("4");
        reveal_strlit("5");
        reveal_strlit("6");
        reveal_strlit("7");
        reveal_strlit("8");
        reveal_strlit("9");
        reveal_strlit("a");
        reveal_strlit("b");
        reveal_strlit("c");
        reveal_strlit("d");
        reveal_strlit("e");
        reveal_strlit("f");
    }
    let digit: &'static str = if n == 0 {
        "0"
    } else if n == 1 {
        "1"
    } else if n == 2 {
        "2"
    } else if n == 3 {
        "3"
    } else if n == 4 {
        "4"
    } else if n == 5 {
        "5"
    } else if n == 6 {
        "6"
    } else if n == 7 {
        "7"
    } else if n == 8 {
        "8"
    } else if n == 9 {
        "9"
    } else if n == 10 {
        "a"
    } else if n == 11 {
        "b"
    } else if n == 12 {
        "c"
    } else if n == 13 {
        "d"
    } else if n == 14 {
        "e"
    } else {
        "f"
    };
    assert(digit@ =~= seq![hex_char(n)]);
    digit
}

impl Ed25519Privkey {
    /// The keypair is accepted as one.
    pub open spec fn is_valid(&self) -> bool {
        is_keypair(self@)
    }

    /// Get the public key associated with this private key.
    pub fn pubkey(&self) -> (key: Ed25519Pubkey)
        ensures
            key@ == self@.skip(32),
    {
        let mut out: [u8; 32] = [0u8;32];
        let mut i: usize = 0;
        while i < 32
            invariant
                i <= 32,
                forall|j: int| 0 <= j < i ==> out@[j] == self.keypair@[32 + j],
            decreases 32 - i,
        {
            out[i] = self.keypair[32 + i];
            i = i + 1;
        }
        assert(out@ =~= self.keypair@.skip(32));
        Ed25519Pubkey { octets: out }
    }

    /// The octets of the keypair: the secret key, then the public key.
    pub fn to_bytes(&self) -> (octets: [u8; 64])
        ensures
            octets@ == self@,
    {
        self.keypair
    }
}

/// The name of the format has eleven octets.
pub proof fn lemma_format_len()
    ensures
        FORMAT.spec_bytes().len() == 11,
{
    reveal_strlit("ssh-ed25519");
    vstd::string::is_ascii_spec_bytes(FORMAT);
}

/// Whether `signature`, in its wire form, verifies as a signature of `message`
/// under `pubkey`; if not, why not.
pub open spec fn verify_outcome(pubkey: Pubkey, message: Seq<u8>, signature: Seq<u8>) -> Result<
    (),
    Error,
> {
    match pubkey {
        Pubkey::Ed25519(key) => match wire::parse_string(signature) {
            None => Err(Error::Decode(TRUNCATED)),
            Some((format, rest)) => if format != FORMAT.spec_bytes() {
                Err(Error::Decode(BAD_SIGNATURE_FORMAT))
            } else {
                match wire::parse_string(rest) {
                    None => Err(Error::Decode(TRUNCATED)),
                    Some((octets, _)) => if octets.len() != 64 {
                        Err(Error::Decode(BAD_LENGTH))
                    } else if verifies_strict(key@, message, octets) {
                        Ok(())
                    } else {
                        Err(Error::Signature)
                    },
                }
            },
        },
    }
}

/// Verifies that `signature` is an Ed25519 signature of `message` under
/// `pubkey`.
pub fn verify(pubkey: &Pubkey, message: &[u8], signature: bytes::Bytes) -> (r: Result<
    SignatureVerified,
    Error,
>)
    ensures
        match verify_outcome(*pubkey, message@, buf::contents(signature)) {
            Ok(_) => r matches Ok(witness) && witness.kind() == PubkeyKind::Ed25519
                && witness.pubkey() == *pubkey && witness.message() == message@
                && witness.signature() == buf::contents(signature),
            Err(e) => r matches Err(err) && err == e,
        },
{
    let Pubkey::Ed25519(key) = pubkey;
    let ghost blob = buf::contents(signature);
    let mut signature = PacketDecode::new(signature);
    let format: Vec<u8> = match signature.get_bytes() {
        Ok(format) => format,
        Err(e) => {
            return Err(e);
        },
    };
    if !same_octets(format.as_slice(), FORMAT.as_bytes()) {
        return Err(Error::Decode(BAD_SIGNATURE_FORMAT));
    }
    let octets: [u8; 64] = match signature.get_byte_array::<64>() {
        Ok(octets) => octets,
        Err(e) => {
            return Err(e);
        },
    };
    if dalek_verify_strict(key.as_bytes(), message, &octets) {
        Ok(
            SignatureVerified::assertion(
                Ghost(PubkeyKind::Ed25519),
                Ghost(*pubkey),
                Ghost(message@),
                Ghost(blob),
            ),
        )
    } else {
        Err(Error::Signature)
    }
}

/// What signing `message` with `privkey` gives: the signature in its wire
/// form, or the reason why there is none.
pub open spec fn signed(privkey: Privkey, message: Seq<u8>, r: Result<bytes::Bytes, Error>) -> bool {
    match privkey {
        Privkey::Ed25519(key) => match signature_of(key@, message) {
            Some(signature) => r matches Ok(blob) && buf::contents(blob) == wire::string(
                FORMAT.spec_bytes(),
            ) + wire::string(signature),
            None => r matches Err(e) && e == Error::Crypto(SIGN_FAILED),
        },
    }
}

/// Signs `message` with `privkey`.
pub fn sign(privkey: &Privkey, message: &[u8]) -> (r: Result<bytes::Bytes, Error>)
    ensures
        signed(*privkey, message@, r),
{
    let Privkey::Ed25519(key) = privkey;
    let keypair: [u8; 64] = key.to_bytes();
    let octets: [u8; 64] = match dalek_try_sign(&keypair, message) {
        Some(octets) => octets,
        None => {
            return Err(Error::Crypto(SIGN_FAILED));
        },
    };
    proof {
        lemma_format_len();
    }
    let mut signature = PacketEncode::new();
    signature.put_str(FORMAT);
    signature.put_bytes(octets.as_slice());
    Ok(signature.finish())
}

/// Writes the wire form of `pubkey` to `blob`.
pub fn encode_pubkey(blob: &mut PacketEncode, pubkey: &Ed25519Pubkey)
    ensures
        final(blob)@ == old(blob)@ + Pubkey::Ed25519(*pubkey).wire(),
{
    proof {
        lemma_format_len();
    }
    blob.put_str(FORMAT);
    blob.put_bytes(pubkey.as_bytes().as_slice());
    assert(blob@ =~= old(blob)@ + Pubkey::Ed25519(*pubkey).wire());
}

/// What decoding a public key from `blob`, after the name of its format, gives:
/// the octets of the key, or the reason why there is none.
pub open spec fn decoded_pubkey(blob: Seq<u8>) -> Result<Seq<u8>, Error> {
    match wire::parse_string(blob) {
        None => Err(Error::Decode(TRUNCATED)),
        Some((octets, _)) => if is_public_key(octets) {
            Ok(octets)
        } else {
            Err(Error::Crypto(INVALID_PUBKEY))
        },
    }
}

/// Reads a public key from `blob`, after the name of its format.
pub fn decode_pubkey(blob: &mut PacketDecode) -> (r: Result<Ed25519Pubkey, Error>)
    ensures
        final(blob).original() == old(blob).original(),
        match decoded_pubkey(old(blob).remaining()) {
            Ok(octets) => r matches Ok(key) && key@ == octets && key.is_valid(),
            Err(e) => r matches Err(err) && err == e,
        },
        match wire::parse_string(old(blob).remaining()) {
            Some((_, rest)) => final(blob).remaining() == rest,
            None => final(blob).remaining() == old(blob).remaining(),
        },
{
    let octets: Vec<u8> = match blob.get_bytes() {
        Ok(octets) => octets,
        Err(e) => {
            return Err(e);
        },
    };
    match Ed25519Pubkey::from_bytes(octets.as_slice()) {
        Some(key) => Ok(key),
        None => Err(Error::Crypto(INVALID_PUBKEY)),
    }
}

/// What decoding a private key from `blob` gives: the octets of the keypair, or
/// the reason why there is none.
pub open spec fn decoded_privkey(blob: Seq<u8>) -> Result<Seq<u8>, Error> {
    match wire::parse_string(blob) {
        None => Err(Error::Decode(TRUNCATED)),
        Some((public, rest)) => if public.len() != 32 {
            Err(Error::Decode(BAD_LENGTH))
        } else {
            match wire::parse_string(rest) {
                None => Err(Error::Decode(TRUNCATED)),
                Some((keypair, _)) => if keypair.len() != 64 {
                    Err(Error::Decode(BAD_LENGTH))
                } else if public != keypair.skip(32) {
                    Err(Error::Decode(MISMATCHED_KEYS))
                } else if !is_keypair(keypair) {
                    Err(Error::Crypto(INVALID_KEYPAIR))
                } else {
                    Ok(keypair)
                },
            }
        },
    }
}

/// What follows a private key in `blob`.
pub open spec fn after_privkey(blob: Seq<u8>) -> Seq<u8> {
    match wire::parse_string(blob) {
        None => blob,
        Some((_, rest)) => match wire::parse_string(rest) {
            None => blob,
            Some((_, rest)) => rest,
        },
    }
}

/// Reads a private key from `blob`: the public key, then the keypair, whose
/// second half must be that public key. On failure nothing is read.
pub fn decode_privkey(blob: &mut PacketDecode) -> (r: Result<Ed25519Privkey, Error>)
    ensures
        final(blob).original() == old(blob).original(),
        match decoded_privkey(old(blob).remaining()) {
            Ok(octets) => r matches Ok(key) && key@ == octets && key.is_valid()
                && final(blob).remaining() == after_privkey(old(blob).remaining()),
            Err(e) => r matches Err(err) && err == e
                && final(blob).remaining() == old(blob).remaining(),
        },
{
    blob.remaining_is_tail();
    let start: usize = blob.consumed();
    let public_bytes: [u8; 32] = match blob.get_byte_array::<32>() {
        Ok(octets) => octets,
        Err(e) => {
            return Err(e);
        },
    };
    let keypair_bytes: [u8; 64] = match blob.get_byte_array::<64>() {
        Ok(octets) => octets,
        Err(e) => {
            blob.rewind(start);
            return Err(e);
        },
    };
    let mut same: bool = true;
    let mut i: usize = 0;
    while i < 32
        invariant
            i <= 32,
            same == (forall|j: int| 0 <= j < i ==> public_bytes@[j] == keypair_bytes@[32 + j]),
        decreases 32 - i,
    {
        if public_bytes[i] != keypair_bytes[32 + i] {
            same = false;
        }
        i = i + 1;
    }
    proof {
        if same {
            assert(public_bytes@ =~= keypair_bytes@.skip(32));
        } else {
            let j = choose|j: int| 0 <= j < 32 && public_bytes@[j] != keypair_bytes@[32 + j];
            assert(keypair_bytes@.skip(32)[j] == keypair_bytes@[32 + j]);
        }
    }
    if !same {
        blob.rewind(start);
        return Err(Error::Decode(MISMATCHED_KEYS));
    }
    if !dalek_keypair_accepts(keypair_bytes.as_slice()) {
        blob.rewind(start);
        return Err(Error::Crypto(INVALID_KEYPAIR));
    }
    Ok(Ed25519Privkey { keypair: keypair_bytes })
}

} // verus!
