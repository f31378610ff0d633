//! The Ed25519 signature slot.
//!
//! Key material is held as plain canonical bytes: a secret key is the
//! 32-byte seed together with its cached 32-byte public key, a public key
//! and a signature are their canonical byte forms.  The outside signature
//! operations stand behind trusted adapters whose results are named, so
//! the engines' contracts can speak of them exactly.

use vstd::prelude::*;
use ed25519_dalek::Signer;
use ed25519_dalek::Verifier;
use crate::error::BadValue;
use crate::error::ProtoError;
use crate::rng::random_bytes;
use crate::error::Error;
use crate::wire::is_zero;

verus! {

/// The public key derived from a 32-byte Ed25519 seed.
pub uninterp spec fn ed25519_public_of(sk: Seq<u8>) -> Seq<u8>;

/// The signature of a message under a 32-byte Ed25519 seed.
pub uninterp spec fn ed25519_sign_of(sk: Seq<u8>, msg: Seq<u8>) -> Seq<u8>;

/// Whether a signature verifies under a public key for a message.
pub uninterp spec fn ed25519_verify_of(pk: Seq<u8>, sig: Seq<u8>, msg: Seq<u8>) -> bool;

/// Relies on ed25519_dalek::SigningKey::verifying_key: the public key is
/// 32 bytes and depends on the seed alone.
#[verifier::external_body]
fn dalek_public(sk: &[u8]) -> (r: Vec<u8>)
    requires
        sk@.len() == 32,
    ensures
        r@ == ed25519_public_of(sk@),
        r@.len() == 32,
{
    let seed: [u8; 32] = sk.try_into().unwrap();
    let key = ed25519_dalek::SigningKey::from_bytes(&seed);
    key.verifying_key().to_bytes().to_vec()
}

/// Relies on ed25519_dalek::SigningKey::sign: the signature is 64 bytes,
/// depends on the seed and the message alone, and verifies under the
/// seed's public key.
#[verifier::external_body]
fn dalek_sign(sk: &[u8], msg: &[u8]) -> (r: Vec<u8>)
    requires
        sk@.len() == 32,
    ensures
        r@ == ed25519_sign_of(sk@, msg@),
        r@.len() == 64,
        ed25519_verify_of(ed25519_public_of(sk@), r@, msg@),
{
    let seed: [u8; 32] = sk.try_into().unwrap();
    let key = ed25519_dalek::SigningKey::from_bytes(&seed);
    key.sign(msg).to_bytes().to_vec()
}

/// Relies on ed25519_dalek::VerifyingKey::verify: the outcome depends on
/// the public-key bytes, the signature bytes and the message alone.  Byte
/// forms that the outside crate rejects never verify.
#[verifier::external_body]
fn dalek_verify(pk: &[u8], sig: &[u8], msg: &[u8]) -> (r: bool)
    requires
        pk@.len() == 32,
        sig@.len() == 64,
    ensures
        r == ed25519_verify_of(pk@, sig@, msg@),
{
    let pk_arr: [u8; 32] = pk.try_into().unwrap();
    let sig_arr: [u8; 64] = sig.try_into().unwrap();
    let sig = ed25519_dalek::Signature::from_bytes(&sig_arr);
    match ed25519_dalek::VerifyingKey::from_bytes(&pk_arr) {
        Ok(key) => key.verify(msg, &sig).is_ok(),
        Err(_) => false,
    }
}

/// An Ed25519 secret key: the seed and its cached public key.
pub struct SecretKey {
    pub sk: Vec<u8>,
    pub pk: Vec<u8>,
}

/// An Ed25519 public key in its canonical 32-byte form.
#[derive(Debug, PartialEq, Eq)]
pub struct PublicKey {
    pub bytes: Vec<u8>,
}

/// An Ed25519 signature in its canonical 64-byte form.
#[derive(Debug, PartialEq, Eq)]
pub struct Signature {
    pub bytes: Vec<u8>,
}

impl View for PublicKey {
    type V = Seq<u8>;

    open spec fn view(&self) -> Seq<u8> {
        self.bytes@
    }
}

impl View for Signature {
    type V = Seq<u8>;

    open spec fn view(&self) -> Seq<u8> {
        self.bytes@
    }
}

impl SecretKey {
    /// The seed bytes.
    pub open spec fn spec_sk(&self) -> Seq<u8> {
        self.sk@
    }

    /// The cached public-key bytes.
    pub open spec fn spec_pk(&self) -> Seq<u8> {
        self.pk@
    }

    /// A well-formed secret key holds a 32-byte seed and the public key
    /// derived from it.
    pub open spec fn wf(&self) -> bool {
        &&& self.sk@.len() == 32
        &&& self.pk@.len() == 32
        &&& self.pk@ == ed25519_public_of(self.sk@)
    }

    /// Generates a fresh key pair from the host's random source.
    pub fn generate() -> (r: Result<SecretKey, Error>)
        ensures
            match r {
                Ok(k) => k.wf(),
                Err(e) => e == Error::Rand,
            },
    {
        let seed = random_bytes(32)?;
        let pk = dalek_public(seed.as_slice());
        Ok(SecretKey { sk: seed, pk })
    }

    /// Rebuilds a secret key from its seed, deriving the public key anew.
    pub fn from_seed(seed: Vec<u8>) -> (r: SecretKey)
        requires
            seed@.len() == 32,
        ensures
            r.wf(),
            r.spec_sk() == seed@,
    {
        let pk = dalek_public(seed.as_slice());
        SecretKey { sk: seed, pk }
    }
}

/// Which byte strings are accepted as a public key: exactly 32 bytes, not
/// all zero.
pub open spec fn valid_pk_bytes(b: Seq<u8>) -> bool {
    &&& b.len() == 32
    &&& !is_zero(b)
}

impl PublicKey {
    pub open spec fn wf(&self) -> bool {
        self.bytes@.len() == 32
    }

    /// Projects the public key out of a secret key.
    pub fn from_secret(sk: &SecretKey) -> (r: PublicKey)
        requires
            sk.wf(),
        ensures
            r@ == ed25519_public_of(sk.spec_sk()),
            r.wf(),
    {
        PublicKey { bytes: vstd::slice::slice_to_vec(sk.pk.as_slice()) }
    }

    /// The canonical byte form.
    pub fn read_bytes(&self) -> (r: Vec<u8>)
        ensures
            r@ == self@,
    {
        vstd::slice::slice_to_vec(self.bytes.as_slice())
    }

    /// Decodes a byte form, rejecting a wrong length or an all-zero value.
    pub fn from_bytes(b: &[u8]) -> (r: Result<PublicKey, ProtoError>)
        ensures
            match r {
                Ok(v) => valid_pk_bytes(b@) && v@ == b@ && v.wf(),
                Err(ProtoError::InvalidLength) => b@.len() != 32,
                Err(ProtoError::InvalidValue(BadValue::ZeroValue)) => b@.len() == 32 && is_zero(
                    b@,
                ),
                Err(_) => false,
            },
    {
        if b.len() != 32 {
            Err(ProtoError::InvalidLength)
        } else if crate::wire::zero_run(b, 0, 32) {
            proof {
                assert(b@.subrange(0, 32) =~= b@);
            }
            Err(ProtoError::InvalidValue(BadValue::ZeroValue))
        } else {
            proof {
                assert(b@.subrange(0, 32) =~= b@);
            }
            Ok(PublicKey { bytes: vstd::slice::slice_to_vec(b) })
        }
    }
}

/// Which byte strings are accepted as a signature: exactly 64 bytes, with
/// neither 32-byte half all zero.
pub open spec fn valid_sig_bytes(b: Seq<u8>) -> bool {
    &&& b.len() == 64
    &&& !is_zero(b.subrange(0, 32))
    &&& !is_zero(b.subrange(32, 64))
}

impl Signature {
    pub open spec fn wf(&self) -> bool {
        self.bytes@.len() == 64
    }

    /// The canonical byte form.
    pub fn read_bytes(&self) -> (r: Vec<u8>)
        ensures
            r@ == self@,
    {
        vstd::slice::slice_to_vec(self.bytes.as_slice())
    }

    /// Decodes a byte form, rejecting a wrong length or an all-zero half.
    pub fn from_bytes(b: &[u8]) -> (r: Result<Signature, ProtoError>)
        ensures
            match r {
                Ok(v) => valid_sig_bytes(b@) && v@ == b@ && v.wf(),
                Err(ProtoError::InvalidLength) => b@.len() != 64,
                Err(ProtoError::InvalidValue(BadValue::ZeroValue)) => b@.len() == 64 && (is_zero(
                    b@.subrange(0, 32),
                ) || is_zero(b@.subrange(32, 64))),
                Err(_) => false,
            },
    {
        if b.len() != 64 {
            Err(ProtoError::InvalidLength)
        } else if crate::wire::zero_run(b, 0, 32) || crate::wire::zero_run(b, 32, 64) {
            Err(ProtoError::InvalidValue(BadValue::ZeroValue))
        } else {
            Ok(Signature { bytes: vstd::slice::slice_to_vec(b) })
        }
    }
}

/// The Ed25519 capability: signing and verification over the byte-typed
/// key material.
pub struct Ed25519;

impl Ed25519 {
    /// Signs a message; the result verifies under the signer's public key.
    pub fn sign(sk: &SecretKey, message: &[u8]) -> (r: Signature)
        requires
            sk.wf(),
        ensures
            r@ == ed25519_sign_of(sk.spec_sk(), message@),
            ed25519_verify_of(ed25519_public_of(sk.spec_sk()), r@, message@),
            r.wf(),
    {
        Signature { bytes: dalek_sign(sk.sk.as_slice(), message) }
    }

    /// Verifies a signature over a message under a public key.
    pub fn verify(pk: &PublicKey, sig: &Signature, message: &[u8]) -> (r: bool)
        requires
            pk.wf(),
            sig.wf(),
        ensures
            r == ed25519_verify_of(pk@, sig@, message@),
    {
        dalek_verify(pk.bytes.as_slice(), sig.bytes.as_slice(), message)
    }
}


/// Packing round trip: re-decoding a public key's canonical byte form
/// gives the key back.  (An all-zero byte form is rejected by the
/// decoder, so it is left out here and checked by test.)
pub fn pk_read_then_from_bytes(pk: &PublicKey) -> (r: Result<PublicKey, ProtoError>)
    requires
        pk.wf(),
        !is_zero(pk@),
    ensures
        match r {
            Ok(v) => v@ == pk@ && v.wf(),
            Err(_) => false,
        },
{
    let b = pk.read_bytes();
    PublicKey::from_bytes(b.as_slice())
}

/// Packing round trip for signatures, as for public keys; a signature
/// with an all-zero half is rejected instead.
pub fn sig_read_then_from_bytes(sig: &Signature) -> (r: Result<Signature, ProtoError>)
    requires
        sig.wf(),
        !is_zero(sig@.subrange(0, 32)),
        !is_zero(sig@.subrange(32, 64)),
    ensures
        match r {
            Ok(v) => v@ == sig@ && v.wf(),
            Err(_) => false,
        },
{
    let b = sig.read_bytes();
    Signature::from_bytes(b.as_slice())
}

} // verus!
