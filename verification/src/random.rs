//! Random octets from the operating system.

use rand::RngCore;
use vstd::prelude::*;

verus! {

/// `rand::rngs::OsRng::try_fill_bytes`: sixteen octets from the operating
/// system's source of randomness, or nothing if the source fails. Nothing is
/// known of the octets.
#[verifier::external_body]
pub(crate) fn random_cookie() -> (cookie: Option<[u8; 16]>) {
    let mut cookie = [0u8; 16];
    match rand::rngs::OsRng.try_fill_bytes(&mut cookie) {
        Ok(()) => Some(cookie),
        Err(_) => None,
    }
}

} // verus!
