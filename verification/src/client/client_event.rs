//! What the client tells the application.

use crate::pubkey::Pubkey;
use vstd::prelude::*;

verus! {

/// An event for the application.
#[derive(Debug, Clone, Copy, PartialEq, Eq)]
pub enum ClientEvent {
    /// The server presented this public key and proved that it holds the
    /// private key. The application decides whether the key is the right one;
    /// the key exchange waits for the answer.
    ServerPubkey(Pubkey),
}

/// How a key exchange ended for one who asked for it.
#[derive(Debug, Clone, Copy, PartialEq, Eq, Structural)]
pub enum KexOutcome {
    /// The new keys are in use.
    Done,
    /// The peer refused to exchange keys again.
    RekeyRejected,
}

/// The answer to one request for a key exchange.
#[derive(Debug, Clone, Copy, PartialEq, Eq, Structural)]
pub struct Finished {
    /// The number under which the request was made.
    pub waiter: u64,
    /// How the exchange ended.
    pub outcome: KexOutcome,
}

} // verus!
