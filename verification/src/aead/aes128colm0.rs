//! The default AEAD slot: AES-128 with a 16-byte key, a 16-byte nonce and
//! a 16-byte tag appended to the ciphertext.
//!
//! Sealing and opening are exact inverses for matching inputs, and the
//! ciphertext is exactly one tag longer than the plaintext.

use vstd::prelude::*;
use aes::Aes128;
use eax::Eax;
use eax::aead::Aead;
use eax::aead::KeyInit;
use eax::aead::Payload;
use eax::aead::generic_array::GenericArray;
use crate::error::Alg;
use crate::error::ProtoError;

verus! {

/// The longest plaintext and the longest associated data the cipher
/// accepts, from the outside crate's own limits.
pub const LEN_MAX: u64 = 0x10_0000_0000;

/// The ciphertext-with-tag that sealing produces for given key, nonce,
/// associated data and plaintext.
pub uninterp spec fn aead_seal_of(key: Seq<u8>, nonce: Seq<u8>, aad: Seq<u8>, m: Seq<u8>) -> Seq<
    u8,
>;

/// What opening returns: the plaintext when the tag verifies, nothing
/// otherwise.
pub uninterp spec fn aead_open_of(key: Seq<u8>, nonce: Seq<u8>, aad: Seq<u8>, c: Seq<u8>) -> Option<
    Seq<u8>,
>;

/// Relies on eax::Eax<aes::Aes128> encryption: the ciphertext is the
/// plaintext length plus the 16-byte tag, depends on the four inputs
/// alone, and decrypting it with the same key, nonce and associated data
/// gives the plaintext back.  The crate refuses plaintexts and
/// associated data beyond its published maxima, so those inputs are
/// excluded here.
#[verifier::external_body]
fn eax_seal(key: &[u8], nonce: &[u8], aad: &[u8], m: &[u8]) -> (r: Vec<u8>)
    requires
        key@.len() == 16,
        nonce@.len() == 16,
        m@.len() + 16 <= usize::MAX,
        m@.len() <= LEN_MAX,
        aad@.len() <= LEN_MAX,
    ensures
        r@ == aead_seal_of(key@, nonce@, aad@, m@),
        r@.len() == m@.len() + 16,
        aead_open_of(key@, nonce@, aad@, r@) == Some(m@),
{
    let cipher: Eax<Aes128> = Eax::new(GenericArray::from_slice(key));
    cipher.encrypt(GenericArray::from_slice(nonce), Payload { msg: m, aad }).unwrap()
}

/// Relies on eax::Eax<aes::Aes128> decryption: the outcome depends on the
/// four inputs alone; on success the plaintext is the ciphertext minus
/// the 16-byte tag.
#[verifier::external_body]
fn eax_open(key: &[u8], nonce: &[u8], aad: &[u8], c: &[u8]) -> (r: Option<Vec<u8>>)
    requires
        key@.len() == 16,
        nonce@.len() == 16,
        c@.len() >= 16,
    ensures
        match r {
            Some(v) => aead_open_of(key@, nonce@, aad@, c@) == Some(v@) && v@.len() + 16
                == c@.len(),
            None => aead_open_of(key@, nonce@, aad@, c@) is None,
        },
{
    let cipher: Eax<Aes128> = Eax::new(GenericArray::from_slice(key));
    cipher.decrypt(GenericArray::from_slice(nonce), Payload { msg: c, aad }).ok()
}

/// The registry's default AEAD cipher slot, instantiated with
/// AES-128-EAX; ciphertexts are interchangeable only with that cipher.
pub struct Aes128Colm0;

impl Aes128Colm0 {
    pub fn key_length(&self) -> (r: usize)
        ensures
            r == 16,
    {
        16
    }

    pub fn nonce_length(&self) -> (r: usize)
        ensures
            r == 16,
    {
        16
    }

    pub fn tag_length(&self) -> (r: usize)
        ensures
            r == 16,
    {
        16
    }

    /// Seals a non-empty plaintext of accepted length; the result opens
    /// back to it under the same key, nonce and associated data.
    pub fn seal(&self, key: &[u8], nonce: &[u8], aad: &[u8], input: &[u8]) -> (r: Result<
        Vec<u8>,
        ProtoError,
    >)
        ensures
            match r {
                Ok(c) => {
                    &&& key@.len() == 16 && nonce@.len() == 16 && input@.len() > 0
                    &&& input@.len() <= LEN_MAX && aad@.len() <= LEN_MAX
                    &&& c@ == aead_seal_of(key@, nonce@, aad@, input@)
                    &&& c@.len() == input@.len() + 16
                    &&& aead_open_of(key@, nonce@, aad@, c@) == Some(input@)
                },
                Err(e) => {
                    &&& e == ProtoError::InvalidLength
                    &&& (key@.len() != 16 || nonce@.len() != 16 || input@.len() == 0
                        || input@.len() + 16 > usize::MAX || input@.len() > LEN_MAX
                        || aad@.len() > LEN_MAX)
                },
            },
    {
        if key.len() != 16 || nonce.len() != 16 || input.len() == 0 || input.len() > usize::MAX
            - 16 {
            return Err(ProtoError::InvalidLength);
        }
        if input.len() as u64 > LEN_MAX || aad.len() as u64 > LEN_MAX {
            return Err(ProtoError::InvalidLength);
        }
        Ok(eax_seal(key, nonce, aad, input))
    }

    /// Opens a ciphertext-with-tag; fails with `VerificationFailed` when
    /// the tag does not verify.
    pub fn open(&self, key: &[u8], nonce: &[u8], aad: &[u8], input: &[u8]) -> (r: Result<
        Vec<u8>,
        ProtoError,
    >)
        ensures
            match r {
                Ok(m) => {
                    &&& key@.len() == 16 && nonce@.len() == 16 && input@.len() > 16
                    &&& aead_open_of(key@, nonce@, aad@, input@) == Some(m@)
                    &&& m@.len() + 16 == input@.len()
                },
                Err(ProtoError::InvalidLength) => key@.len() != 16 || nonce@.len() != 16
                    || input@.len() <= 16,
                Err(ProtoError::VerificationFailed(Alg::Aes128Colm0)) => {
                    &&& key@.len() == 16 && nonce@.len() == 16 && input@.len() > 16
                    &&& aead_open_of(key@, nonce@, aad@, input@) is None
                },
                Err(_) => false,
            },
    {
        if key.len() != 16 || nonce.len() != 16 || input.len() <= 16 {
            return Err(ProtoError::InvalidLength);
        }
        match eax_open(key, nonce, aad, input) {
            Some(m) => Ok(m),
            None => Err(ProtoError::VerificationFailed(Alg::Aes128Colm0)),
        }
    }
}

} // verus!
