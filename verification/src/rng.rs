//! Trusted adapter for the host's cryptographically secure random source.

use vstd::prelude::*;
use rand::rngs::OsRng;
use rand::RngCore;
use crate::error::Error;

verus! {

/// Relies on rand::rngs::OsRng::try_fill_bytes: on success the buffer is
/// filled with bytes from the operating system's secure random source.
/// Nothing can be promised of the values; a source failure is reported.
#[verifier::external_body]
pub fn random_bytes(n: usize) -> (r: Result<Vec<u8>, Error>)
    ensures
        match r {
            Ok(v) => v@.len() == n,
            Err(e) => e == Error::Rand,
        },
{
    let mut buf = vec![0u8; n];
    match OsRng.try_fill_bytes(&mut buf) {
        Ok(()) => Ok(buf),
        Err(_) => Err(Error::Rand),
    }
}

} // verus!
