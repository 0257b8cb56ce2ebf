//! Configuration of a client.

use crate::cipher::{aes128_ctr, aes192_ctr, aes256_cbc, aes256_ctr, CipherAlgo};
use crate::kex::{curve25519_sha256, curve25519_sha256_libssh, diffie_hellman_group14_sha1, KexAlgo};
use crate::mac::{hmac_sha1, hmac_sha2_256, MacAlgo};
use crate::pubkey::ed25519::ssh_ed25519;
use crate::pubkey::{ssh_rsa, PubkeyAlgo};
use vstd::prelude::*;

verus! {

/// Configuration of a client.
///
/// Start from the [default][Default] instance, which has a reasonable
/// configuration, and change it as needed; [`ClientConfig::with()`] is a
/// convenient way to do so.
///
/// For old servers with outdated cryptography there is
/// [`ClientConfig::default_compatible_insecure()`], which is less secure.
#[derive(Debug, Clone)]
pub struct ClientConfig {
    /// Supported key exchange algorithms, most preferred first. The first that
    /// the server supports too is used.
    pub kex_algos: Vec<KexAlgo>,
    /// Supported algorithms for the server's public key, most preferred first.
    pub server_pubkey_algos: Vec<PubkeyAlgo>,
    /// Supported ciphers, most preferred first.
    pub cipher_algos: Vec<CipherAlgo>,
    /// Supported message authentication codes, most preferred first.
    pub mac_algos: Vec<MacAlgo>,
    /// Keys are exchanged again once more octets than this have been sent or
    /// received since the last exchange.
    pub rekey_after_bytes: u64,
    /// Keys are exchanged again once more milliseconds than this have passed
    /// since the last exchange.
    pub rekey_after_duration: u64,
}

/// What a [`ClientConfig`] holds.
pub struct ClientConfigView {
    pub kex_algos: Seq<KexAlgo>,
    pub server_pubkey_algos: Seq<PubkeyAlgo>,
    pub cipher_algos: Seq<CipherAlgo>,
    pub mac_algos: Seq<MacAlgo>,
    pub rekey_after_bytes: u64,
    pub rekey_after_duration: u64,
}

impl View for ClientConfig {
    type V = ClientConfigView;

    open spec fn view(&self) -> ClientConfigView {
        ClientConfigView {
            kex_algos: self.kex_algos@,
            server_pubkey_algos: self.server_pubkey_algos@,
            cipher_algos: self.cipher_algos@,
            mac_algos: self.mac_algos@,
            rekey_after_bytes: self.rekey_after_bytes,
            rekey_after_duration: self.rekey_after_duration,
        }
    }
}

impl ClientConfigView {
    /// The default configuration.
    pub open spec fn default() -> ClientConfigView {
        ClientConfigView {
            kex_algos: seq![curve25519_sha256(), curve25519_sha256_libssh()],
            server_pubkey_algos: seq![ssh_ed25519()],
            cipher_algos: seq![aes128_ctr(), aes192_ctr(), aes256_ctr()],
            mac_algos: seq![hmac_sha2_256()],
            rekey_after_bytes: 0x4000_0000,
            rekey_after_duration: 3_600_000,
        }
    }

    /// The default configuration, extended by outdated algorithms at the end
    /// of each list.
    pub open spec fn default_compatible_insecure() -> ClientConfigView {
        let base = ClientConfigView::default();
        ClientConfigView {
            kex_algos: base.kex_algos.push(diffie_hellman_group14_sha1()),
            server_pubkey_algos: base.server_pubkey_algos.push(ssh_rsa()),
            cipher_algos: base.cipher_algos.push(aes256_cbc()),
            mac_algos: base.mac_algos.push(hmac_sha1()),
            ..base
        }
    }
}

impl Default for ClientConfig {
    /// The default configuration: Curve25519 key exchange, Ed25519 host keys,
    /// AES in counter mode, HMAC-SHA-256; new keys after a gibioctet or an
    /// hour.
    fn default() -> (config: ClientConfig)
        ensures
            config@ == ClientConfigView::default(),
    {
        let mut kex_algos: Vec<KexAlgo> = Vec::new();
        kex_algos.push(curve25519_sha256());
        kex_algos.push(curve25519_sha256_libssh());
        let mut server_pubkey_algos: Vec<PubkeyAlgo> = Vec::new();
        server_pubkey_algos.push(ssh_ed25519());
        let mut cipher_algos: Vec<CipherAlgo> = Vec::new();
        cipher_algos.push(aes128_ctr());
        cipher_algos.push(aes192_ctr());
        cipher_algos.push(aes256_ctr());
        let mut mac_algos: Vec<MacAlgo> = Vec::new();
        mac_algos.push(hmac_sha2_256());
        let config = ClientConfig {
            kex_algos,
            server_pubkey_algos,
            cipher_algos,
            mac_algos,
            rekey_after_bytes: 0x4000_0000,
            rekey_after_duration: 3_600_000,
        };
        assert(config@.kex_algos =~= ClientConfigView::default().kex_algos);
        assert(config@.server_pubkey_algos =~= ClientConfigView::default().server_pubkey_algos);
        assert(config@.cipher_algos =~= ClientConfigView::default().cipher_algos);
        assert(config@.mac_algos =~= ClientConfigView::default().mac_algos);
        config
    }
}

impl ClientConfig {
    /// Default configuration with higher compatibility and low security.
    ///
    /// Returns a configuration that includes support for outdated and
    /// potentially insecure crypto. **Use at your own risk!**
    pub fn default_compatible_insecure() -> (config: ClientConfig)
        ensures
            config@ == ClientConfigView::default_compatible_insecure(),
    {
        let mut config: ClientConfig = ClientConfig::default();
        config.kex_algos.push(diffie_hellman_group14_sha1());
        config.server_pubkey_algos.push(ssh_rsa());
        config.cipher_algos.push(aes256_cbc());
        config.mac_algos.push(hmac_sha1());
        config
    }

    /// Mutate `self` in a closure.
    ///
    /// This method applies your closure to `self` and returns the mutated
    /// configuration.
    pub fn with<F: FnOnce(&mut ClientConfig)>(self, f: F) -> (config: ClientConfig)
        requires
            forall|c: &mut ClientConfig| *c == self ==> call_requires(f, (c,)),
        ensures
            exists|c: &mut ClientConfig|
                *c == self && *final(c) == config && call_ensures(f, (c,), ()),
    {
        let mut config: ClientConfig = self;
        f(&mut config);
        config
    }
}

} // verus!
