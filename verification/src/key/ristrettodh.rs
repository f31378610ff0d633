//! The Ristretto-group Diffie-Hellman slot.
//!
//! Scalars and group elements are held as their canonical 32-byte forms.
//! The group operations of the outside crate stand behind trusted adapters;
//! each result is named, and the adapters also state the group laws the
//! engines rely on: scalar multiplication of a point folds into the
//! exponent, point addition adds exponents, and the scalar ring is
//! commutative and associative.  Those laws are what make the two sides of
//! a key exchange derive the same secret.

use vstd::prelude::*;
use curve25519_dalek::constants::RISTRETTO_BASEPOINT_TABLE;
use curve25519_dalek::ristretto::CompressedRistretto;
use curve25519_dalek::ristretto::RistrettoPoint;
use curve25519_dalek::scalar::Scalar;
use crate::error::BadValue;
use crate::error::Error;
use crate::error::ProtoError;
use crate::hashes::sha3_512;
use crate::hashes::sha3_512_of;
use crate::rng::random_bytes;
use crate::wire::is_zero;

verus! {

/// The compressed point `s·G` for a 32-byte scalar `s` (interpreted mod
/// the group order).
pub uninterp spec fn base_mul_of(s: Seq<u8>) -> Seq<u8>;

/// The compressed point `s·P` for a valid compressed point `P` and a
/// 32-byte scalar `s`.
pub uninterp spec fn point_mul_of(p: Seq<u8>, s: Seq<u8>) -> Seq<u8>;

/// The compressed sum of two valid compressed points.
pub uninterp spec fn point_add_of(a: Seq<u8>, b: Seq<u8>) -> Seq<u8>;

/// Whether 32 bytes decompress to a Ristretto point.
pub uninterp spec fn point_valid_of(b: Seq<u8>) -> bool;

/// The canonical form of the product of two scalars (mod the group order).
pub uninterp spec fn scalar_mul_of(a: Seq<u8>, b: Seq<u8>) -> Seq<u8>;

/// The canonical form of the sum of two scalars (mod the group order).
pub uninterp spec fn scalar_add_of(a: Seq<u8>, b: Seq<u8>) -> Seq<u8>;

/// The canonical scalar obtained by reducing 64 bytes mod the group order.
pub uninterp spec fn scalar_wide_reduce_of(b: Seq<u8>) -> Seq<u8>;

/// Relies on curve25519_dalek: multiplication of the basepoint by a scalar.
/// The result is a valid 32-byte compressed point and depends on the
/// scalar bytes alone.
#[verifier::external_body]
pub(crate) fn ristretto_base_mul(s: &[u8]) -> (r: Vec<u8>)
    requires
        s@.len() == 32,
    ensures
        r@ == base_mul_of(s@),
        r@.len() == 32,
        point_valid_of(r@),
{
    let arr: [u8; 32] = s.try_into().unwrap();
    let x = Scalar::from_bytes_mod_order(arr);
    (&x * RISTRETTO_BASEPOINT_TABLE).compress().to_bytes().to_vec()
}

/// Relies on curve25519_dalek: multiplication of a point by a scalar.
/// Beside naming the result, states the group law `s·(t·G) = (s·t)·G =
/// (t·s)·G`: if the point is `t·G` then the result is the basepoint
/// multiple of the scalar product, in either order.
#[verifier::external_body]
pub(crate) fn ristretto_point_mul(p: &[u8], s: &[u8]) -> (r: Vec<u8>)
    requires
        p@.len() == 32,
        s@.len() == 32,
        point_valid_of(p@),
    ensures
        r@ == point_mul_of(p@, s@),
        r@.len() == 32,
        point_valid_of(r@),
        forall|t: Seq<u8>|
            p@ == base_mul_of(t) ==> r@ == base_mul_of(#[trigger] scalar_mul_of(s@, t)) && r@
                == base_mul_of(scalar_mul_of(t, s@)),
{
    let arr: [u8; 32] = s.try_into().unwrap();
    let x = Scalar::from_bytes_mod_order(arr);
    let point = CompressedRistretto::from_slice(p).unwrap().decompress().unwrap();
    (x * point).compress().to_bytes().to_vec()
}

/// Relies on curve25519_dalek: addition of two points.  Beside naming the
/// result, states the group law `u·G + v·G = (u + v)·G`.
#[verifier::external_body]
pub(crate) fn ristretto_point_add(a: &[u8], b: &[u8]) -> (r: Vec<u8>)
    requires
        a@.len() == 32,
        b@.len() == 32,
        point_valid_of(a@),
        point_valid_of(b@),
    ensures
        r@ == point_add_of(a@, b@),
        r@.len() == 32,
        point_valid_of(r@),
        forall|u: Seq<u8>, v: Seq<u8>|
            a@ == base_mul_of(u) && b@ == base_mul_of(v) ==> r@ == base_mul_of(
                #[trigger] scalar_add_of(u, v),
            ),
{
    let pa = CompressedRistretto::from_slice(a).unwrap().decompress().unwrap();
    let pb = CompressedRistretto::from_slice(b).unwrap().decompress().unwrap();
    (pa + pb).compress().to_bytes().to_vec()
}

/// Relies on curve25519_dalek::ristretto::CompressedRistretto::decompress:
/// whether 32 bytes are a valid compressed point.
#[verifier::external_body]
pub(crate) fn ristretto_point_valid(b: &[u8]) -> (r: bool)
    requires
        b@.len() == 32,
    ensures
        r == point_valid_of(b@),
{
    match CompressedRistretto::from_slice(b) {
        Ok(c) => c.decompress().is_some(),
        Err(_) => false,
    }
}

/// Relies on curve25519_dalek::scalar::Scalar addition.  Beside naming the
/// result, states commutativity of the sum and distributivity of the
/// scalar product over it.
#[verifier::external_body]
pub(crate) fn scalar_add(a: &[u8], b: &[u8]) -> (r: Vec<u8>)
    requires
        a@.len() == 32,
        b@.len() == 32,
    ensures
        r@ == scalar_add_of(a@, b@),
        r@ == scalar_add_of(b@, a@),
        r@.len() == 32,
        forall|c: Seq<u8>|
            #[trigger] scalar_mul_of(r@, c) == scalar_add_of(
                scalar_mul_of(a@, c),
                scalar_mul_of(b@, c),
            ),
{
    let aa = Scalar::from_bytes_mod_order(a.try_into().unwrap());
    let bb = Scalar::from_bytes_mod_order(b.try_into().unwrap());
    (aa + bb).to_bytes().to_vec()
}

/// Relies on curve25519_dalek::scalar::Scalar multiplication.  Beside
/// naming the result, states commutativity and associativity of the
/// scalar product.
#[verifier::external_body]
pub(crate) fn scalar_mul(a: &[u8], b: &[u8]) -> (r: Vec<u8>)
    requires
        a@.len() == 32,
        b@.len() == 32,
    ensures
        r@ == scalar_mul_of(a@, b@),
        r@ == scalar_mul_of(b@, a@),
        r@.len() == 32,
        forall|c: Seq<u8>|
            #[trigger] scalar_mul_of(r@, c) == scalar_mul_of(a@, scalar_mul_of(b@, c))
                && scalar_mul_of(r@, c) == scalar_mul_of(a@, scalar_mul_of(c, b@)),
{
    let aa = Scalar::from_bytes_mod_order(a.try_into().unwrap());
    let bb = Scalar::from_bytes_mod_order(b.try_into().unwrap());
    (aa * bb).to_bytes().to_vec()
}

/// Relies on curve25519_dalek::scalar::Scalar::from_bytes_mod_order_wide:
/// the canonical reduction of 64 bytes, a function of those bytes alone.
#[verifier::external_body]
pub(crate) fn scalar_reduce_wide(b: &[u8]) -> (r: Vec<u8>)
    requires
        b@.len() == 64,
    ensures
        r@ == scalar_wide_reduce_of(b@),
        r@.len() == 32,
{
    let arr: [u8; 64] = b.try_into().unwrap();
    Scalar::from_bytes_mod_order_wide(&arr).to_bytes().to_vec()
}

/// A RistrettoDH secret key: the scalar and its cached public point.
pub struct SecretKey {
    pub sk: Vec<u8>,
    pub pk: Vec<u8>,
}

/// A RistrettoDH public key: a compressed point.
#[derive(Debug, PartialEq, Eq)]
pub struct PublicKey {
    pub bytes: Vec<u8>,
}

/// The one transport message of the exchange: an ephemeral compressed
/// point.
#[derive(Debug, PartialEq, Eq)]
pub struct Message {
    pub bytes: Vec<u8>,
}

impl View for PublicKey {
    type V = Seq<u8>;

    open spec fn view(&self) -> Seq<u8> {
        self.bytes@
    }
}

impl View for Message {
    type V = Seq<u8>;

    open spec fn view(&self) -> Seq<u8> {
        self.bytes@
    }
}

impl SecretKey {
    /// The scalar bytes.
    pub open spec fn spec_sk(&self) -> Seq<u8> {
        self.sk@
    }

    /// The cached public-point bytes.
    pub open spec fn spec_pk(&self) -> Seq<u8> {
        self.pk@
    }

    pub open spec fn wf(&self) -> bool {
        &&& self.sk@.len() == 32
        &&& self.pk@.len() == 32
        &&& self.pk@ == base_mul_of(self.sk@)
        &&& point_valid_of(self.pk@)
    }

    /// Generates a fresh key pair from the host's random source.
    pub fn generate() -> (r: Result<SecretKey, Error>)
        ensures
            match r {
                Ok(k) => k.wf(),
                Err(e) => e == Error::Rand,
            },
    {
        let wide = random_bytes(64)?;
        let sk = scalar_reduce_wide(wide.as_slice());
        let pk = ristretto_base_mul(sk.as_slice());
        Ok(SecretKey { sk, pk })
    }

    /// Rebuilds a secret key from its scalar, deriving the point anew.
    pub fn from_scalar(sk: Vec<u8>) -> (r: SecretKey)
        requires
            sk@.len() == 32,
        ensures
            r.wf(),
            r.spec_sk() == sk@,
    {
        let pk = ristretto_base_mul(sk.as_slice());
        SecretKey { sk, pk }
    }
}

/// Which byte strings are accepted as a compressed point: exactly 32
/// bytes, not all zero, and decompression succeeds.
pub open spec fn valid_point_bytes(b: Seq<u8>) -> bool {
    &&& b.len() == 32
    &&& !is_zero(b)
    &&& point_valid_of(b)
}

/// The exact outcome of decoding a compressed point's byte form.
pub open spec fn point_decode_result(b: Seq<u8>) -> Result<(), ProtoError> {
    if b.len() != 32 {
        Err(ProtoError::InvalidLength)
    } else if is_zero(b) {
        Err(ProtoError::InvalidValue(BadValue::ZeroValue))
    } else if !point_valid_of(b) {
        Err(ProtoError::InvalidValue(BadValue::NotOnCurve))
    } else {
        Ok(())
    }
}

/// Shared decoding of a compressed point byte form.
fn decode_point_bytes(b: &[u8]) -> (r: Result<Vec<u8>, ProtoError>)
    ensures
        match r {
            Ok(v) => point_decode_result(b@) == Ok::<(), ProtoError>(()) && v@ == b@,
            Err(e) => point_decode_result(b@) == Err::<(), ProtoError>(e),
        },
{
    if b.len() != 32 {
        Err(ProtoError::InvalidLength)
    } else if crate::wire::zero_run(b, 0, 32) {
        proof {
            assert(b@.subrange(0, 32) =~= b@);
        }
        Err(ProtoError::InvalidValue(BadValue::ZeroValue))
    } else if !ristretto_point_valid(b) {
        proof {
            assert(b@.subrange(0, 32) =~= b@);
        }
        Err(ProtoError::InvalidValue(BadValue::NotOnCurve))
    } else {
        proof {
            assert(b@.subrange(0, 32) =~= b@);
        }
        Ok(vstd::slice::slice_to_vec(b))
    }
}

impl PublicKey {
    pub open spec fn wf(&self) -> bool {
        &&& self.bytes@.len() == 32
        &&& point_valid_of(self.bytes@)
    }

    /// Projects the public key out of a secret key.
    pub fn from_secret(sk: &SecretKey) -> (r: PublicKey)
        requires
            sk.wf(),
        ensures
            r@ == base_mul_of(sk.spec_sk()),
            r.wf(),
    {
        PublicKey { bytes: vstd::slice::slice_to_vec(sk.pk.as_slice()) }
    }

    /// The canonical byte form.
    pub fn read_bytes(&self) -> (r: Vec<u8>)
        ensures
            r@ == self@,
    {
        vstd::slice::slice_to_vec(self.bytes.as_slice())
    }

    /// Decodes a byte form, rejecting a wrong length, an all-zero value,
    /// and bytes that do not decompress to a point.
    pub fn from_bytes(b: &[u8]) -> (r: Result<PublicKey, ProtoError>)
        ensures
            match r {
                Ok(v) => valid_point_bytes(b@) && v@ == b@ && v.wf(),
                Err(e) => point_decode_result(b@) == Err::<(), ProtoError>(e),
            },
    {
        let bytes = decode_point_bytes(b)?;
        Ok(PublicKey { bytes })
    }
}

impl Message {
    pub open spec fn wf(&self) -> bool {
        &&& self.bytes@.len() == 32
        &&& point_valid_of(self.bytes@)
    }

    /// The canonical byte form.
    pub fn read_bytes(&self) -> (r: Vec<u8>)
        ensures
            r@ == self@,
    {
        vstd::slice::slice_to_vec(self.bytes.as_slice())
    }

    /// Decodes a byte form, with the same checks as a public key.
    pub fn from_bytes(b: &[u8]) -> (r: Result<Message, ProtoError>)
        ensures
            match r {
                Ok(v) => valid_point_bytes(b@) && v@ == b@ && v.wf(),
                Err(e) => point_decode_result(b@) == Err::<(), ProtoError>(e),
            },
    {
        let bytes = decode_point_bytes(b)?;
        Ok(Message { bytes })
    }
}

/// The RistrettoDH capability: a one-pass Diffie-Hellman exchange whose
/// shared secret is the SHA3-512 digest of the shared point.
pub struct RistrettoDH;

impl RistrettoDH {
    /// The byte length of the shared secret.
    pub fn shared_length() -> (r: usize)
        ensures
            r == 64,
    {
        64
    }

    /// Sender side: samples an ephemeral scalar `x`, sends `x·G`, and
    /// derives the shared secret from `x·B`.  The agreement law is part of
    /// the contract: whenever the recipient's key is `b·G`, the secret is
    /// the digest of `(x·b)·G`, which `exchange_from` derives in turn.
    pub fn exchange_to(pk: &PublicKey) -> (r: Result<(Message, Vec<u8>, Ghost<Seq<u8>>), Error>)
        requires
            pk.wf(),
        ensures
            match r {
                Ok(p) => {
                    let x = p.2@;
                    &&& p.0.wf()
                    &&& p.1@.len() == 64
                    &&& p.0@ == base_mul_of(x)
                    &&& p.1@ == sha3_512_of(point_mul_of(pk@, x))
                    &&& forall|b: Seq<u8>|
                        pk@ == base_mul_of(b) ==> p.1@ == sha3_512_of(
                            base_mul_of(#[trigger] scalar_mul_of(x, b)),
                        )
                },
                Err(e) => e == Error::Rand,
            },
    {
        let wide = random_bytes(64)?;
        let x = scalar_reduce_wide(wide.as_slice());
        let m = ristretto_base_mul(x.as_slice());
        let kp = ristretto_point_mul(pk.bytes.as_slice(), x.as_slice());
        let shared = sha3_512(kp.as_slice());
        proof {
            assert forall|b: Seq<u8>| pk@ == base_mul_of(b) implies shared@ == sha3_512_of(
                base_mul_of(scalar_mul_of(x@, b)),
            ) by {
                assert(kp@ == base_mul_of(scalar_mul_of(x@, b)));
            }
        }
        Ok((Message { bytes: m }, shared, Ghost(x@)))
    }

    /// Receiver side: derives the shared secret from `b·X`.  Whenever the
    /// transport point is `x·G`, the secret equals the digest of
    /// `(x·b)·G`, the sender's value.
    pub fn exchange_from(sk: &SecretKey, m: &Message) -> (r: Vec<u8>)
        requires
            sk.wf(),
            m.wf(),
        ensures
            r@ == sha3_512_of(point_mul_of(m@, sk.spec_sk())),
            r@.len() == 64,
            forall|x: Seq<u8>|
                m@ == base_mul_of(x) ==> r@ == sha3_512_of(
                    base_mul_of(#[trigger] scalar_mul_of(x, sk.spec_sk())),
                ),
    {
        let kp = ristretto_point_mul(m.bytes.as_slice(), sk.sk.as_slice());
        proof {
            assert forall|x: Seq<u8>| m@ == base_mul_of(x) implies kp@ == base_mul_of(
                scalar_mul_of(x, sk.spec_sk()),
            ) by {
                assert(kp@ == base_mul_of(scalar_mul_of(sk.spec_sk(), x)));
            }
        }
        sha3_512(kp.as_slice())
    }
}


/// Key-exchange agreement: the shared secret the sender derives toward a
/// public key equals the one the holder of the matching secret key
/// derives from the transport message.
pub fn exchange_agreement(skb: &SecretKey) -> (r: Result<(Vec<u8>, Vec<u8>), Error>)
    requires
        skb.wf(),
    ensures
        match r {
            Ok(p) => p.0@ == p.1@,
            Err(e) => e == Error::Rand,
        },
{
    let pkb = PublicKey::from_secret(skb);
    let (m, ka, gx) = match RistrettoDH::exchange_to(&pkb) {
        Ok(p) => p,
        Err(e) => {
            return Err(e);
        },
    };
    let kb = RistrettoDH::exchange_from(skb, &m);
    proof {
        let x = gx@;
        let b = skb.spec_sk();
        assert(ka@ == sha3_512_of(base_mul_of(scalar_mul_of(x, b))));
        assert(kb@ == sha3_512_of(base_mul_of(scalar_mul_of(x, b))));
    }
    Ok((ka, kb))
}

/// Packing round trip: re-decoding a key's canonical byte form gives the
/// key back.  (An all-zero byte form is rejected by the decoder, so it is
/// left out here and checked by test.)
pub fn pk_read_then_from_bytes(pk: &PublicKey) -> (r: Result<PublicKey, ProtoError>)
    requires
        pk.wf(),
        !is_zero(pk@),
    ensures
        match r {
            Ok(v) => v@ == pk@ && v.wf(),
            Err(_) => false,
        },
{
    let b = pk.read_bytes();
    PublicKey::from_bytes(b.as_slice())
}

/// Packing round trip for the transport message, as for public keys.
pub fn message_read_then_from_bytes(m: &Message) -> (r: Result<Message, ProtoError>)
    requires
        m.wf(),
        !is_zero(m@),
    ensures
        match r {
            Ok(v) => v@ == m@ && v.wf(),
            Err(_) => false,
        },
{
    let b = m.read_bytes();
    Message::from_bytes(b.as_slice())
}

} // verus!
