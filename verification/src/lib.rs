//! Core of an SSH client (RFC 4253, RFC 4252, RFC 4254, RFC 8308).
//!
//! The crate holds the rules of the protocol as functions on plain values:
//!
//! - [`codec`]: the fields of payloads, the cleartext form of packets, and the
//!   two directions of the packet stream with their sequence numbers;
//! - [`client::negotiate`]: the key exchange, from `SSH_MSG_KEXINIT` to
//!   `SSH_MSG_NEWKEYS`, with the choice of algorithms and the derivation of
//!   keys;
//! - [`client::auth`]: authentication with the methods "none" and "password";
//! - [`client::conn`] and [`client::channel`]: channels and their windows;
//! - [`client::recv`]: the routing of received packets;
//! - [`pubkey`]: public keys and signatures.
//!
//! Network I/O, timers, cipher state and the arithmetic of key exchanges
//! belong to the driver that embeds this crate. The driver hands their results
//! in and carries the effects that the crate asks for out: see
//! [`client::negotiate::wanted`] and [`client::client_state::poll_write`].
//!
//! Every function is verified with Verus against a contract over the views of
//! its arguments. What is taken on trust of other crates is named where it is
//! used: the contents of `bytes::Bytes` in [`buf`], the digests in [`hash`],
//! the decisions of `ed25519-dalek` in [`pubkey::ed25519`], and the random
//! octets in [`random`].

pub mod buf;
pub mod cipher;
pub mod client;
pub mod codec;
pub mod codes;
pub mod error;
pub mod hash;
pub mod kex;
pub mod mac;
pub mod pubkey;
pub mod random;
