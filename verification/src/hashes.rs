//! Trusted adapters for the hash primitives.
//!
//! The protocol engines treat each hash as a pure function of its input
//! bytes.  The functions of the outside crates are deterministic, so each
//! result is given a name (an uninterpreted spec function), and the engines'
//! contracts are stated over those names.

use vstd::prelude::*;
use sha3::Sha3_512;
use sha3::Shake256;
use sha3::digest::Digest;
use sha3::digest::Update;
use sha3::digest::ExtendableOutput;
use sha3::digest::XofReader;
use siphasher::sip128::Hasher128;
use siphasher::sip128::SipHasher;
use core::hash::Hasher;

verus! {

/// The 64-byte SHA3-512 digest of a byte string.
pub uninterp spec fn sha3_512_of(data: Seq<u8>) -> Seq<u8>;

/// The first `n` bytes of the SHAKE256 output stream seeded with `data`.
pub uninterp spec fn shake256_of(data: Seq<u8>, n: int) -> Seq<u8>;

/// The 128-bit SipHash-2-4 fingerprint of a byte string under the fixed
/// all-zero key.
pub uninterp spec fn sip128_of(data: Seq<u8>) -> u128;

/// Relies on sha3::Sha3_512: the digest is 64 bytes and depends on the
/// input bytes alone.
#[verifier::external_body]
pub fn sha3_512(data: &[u8]) -> (r: Vec<u8>)
    ensures
        r@ == sha3_512_of(data@),
        r@.len() == 64,
{
    Sha3_512::digest(data).to_vec()
}

/// Relies on sha3::Shake256: the output stream depends on the input bytes
/// alone, and successive reads return successive stream bytes.  This
/// adapter performs four successive reads of the requested lengths.
#[verifier::external_body]
pub fn shake256_blocks(data: &[u8], n1: usize, n2: usize, n3: usize, n4: usize) -> (r: (
    Vec<u8>,
    Vec<u8>,
    Vec<u8>,
    Vec<u8>,
))
    requires
        n1 + n2 + n3 + n4 <= usize::MAX,
    ensures
        r.0@ == shake256_of(data@, n1 + n2 + n3 + n4).subrange(0, n1 as int),
        r.1@ == shake256_of(data@, n1 + n2 + n3 + n4).subrange(n1 as int, n1 + n2),
        r.2@ == shake256_of(data@, n1 + n2 + n3 + n4).subrange(n1 + n2, n1 + n2 + n3),
        r.3@ == shake256_of(data@, n1 + n2 + n3 + n4).subrange(n1 + n2 + n3, n1 + n2 + n3 + n4),
        r.0@.len() == n1 && r.1@.len() == n2 && r.2@.len() == n3 && r.3@.len() == n4,
{
    let mut h = Shake256::default();
    h.update(data);
    let mut xof = h.finalize_xof();
    let mut b1 = vec![0u8; n1];
    let mut b2 = vec![0u8; n2];
    let mut b3 = vec![0u8; n3];
    let mut b4 = vec![0u8; n4];
    xof.read(&mut b1);
    xof.read(&mut b2);
    xof.read(&mut b3);
    xof.read(&mut b4);
    (b1, b2, b3, b4)
}

/// Relies on siphasher::sip128::SipHasher (SipHash128 2-4): the 128-bit
/// hash depends on the written bytes alone (the key of `SipHasher::new`
/// is fixed to zero).
#[verifier::external_body]
pub fn sip128(data: &[u8]) -> (r: u128)
    ensures
        r == sip128_of(data@),
{
    let mut h = SipHasher::new();
    h.write(data);
    u128::from(h.finish128())
}

} // verus!
