//! The one-pass OAKE protocol: an implicitly authenticated key exchange.
//!
//! The sender holds a long-term Ristretto scalar `a` (public `A = a·G`),
//! the recipient a scalar `b` (public `B = b·G`).  One message `X = x·G`
//! travels.  Both sides derive the key point `(a·b + e·b·x)·G`, where `e`
//! hashes both identities, both public keys and `X`; an AEAD key and
//! nonce are read from SHAKE256 of that point's canonical form.

use vstd::prelude::*;
use crate::aead::aes128colm0::Aes128Colm0;
use crate::aead::aes128colm0::LEN_MAX;
use crate::aead::aes128colm0::aead_open_of;
use crate::aead::aes128colm0::aead_seal_of;
use crate::error::Alg;
use crate::error::Error;
use crate::error::ProtoError;
use crate::hashes::sha3_512;
use crate::hashes::sha3_512_of;
use crate::hashes::shake256_blocks;
use crate::hashes::shake256_of;
use crate::key::ristrettodh::Message;
use crate::key::ristrettodh::PublicKey;
use crate::key::ristrettodh::SecretKey;
use crate::key::ristrettodh::base_mul_of;
use crate::key::ristrettodh::point_add_of;
use crate::key::ristrettodh::point_mul_of;
use crate::key::ristrettodh::ristretto_base_mul;
use crate::key::ristrettodh::ristretto_point_add;
use crate::key::ristrettodh::ristretto_point_mul;
use crate::key::ristrettodh::scalar_add;
use crate::key::ristrettodh::scalar_add_of;
use crate::key::ristrettodh::scalar_mul;
use crate::key::ristrettodh::scalar_mul_of;
use crate::key::ristrettodh::scalar_reduce_wide;
use crate::key::ristrettodh::scalar_wide_reduce_of;
use crate::rng::random_bytes;

verus! {

/// The challenge scalar: the wide reduction of the digest of both
/// identities, both public keys and the transport point, in that order.
pub open spec fn ooake_e(ida: Seq<u8>, aa: Seq<u8>, idb: Seq<u8>, bb: Seq<u8>, xx: Seq<u8>) -> Seq<
    u8,
> {
    scalar_wide_reduce_of(sha3_512_of(ida + aa + idb + bb + xx))
}

/// The key point as the sender computes it: `B·(a + e·x)`.
pub open spec fn ooake_send_key(bb: Seq<u8>, a: Seq<u8>, e: Seq<u8>, x: Seq<u8>) -> Seq<u8> {
    point_mul_of(bb, scalar_add_of(a, scalar_mul_of(e, x)))
}

/// The key point as the receiver computes it: `A·b + X·(e·b)`.
pub open spec fn ooake_recv_key(aa: Seq<u8>, b: Seq<u8>, e: Seq<u8>, xx: Seq<u8>) -> Seq<u8> {
    point_add_of(point_mul_of(aa, b), point_mul_of(xx, scalar_mul_of(e, b)))
}

/// The common exponent both computations reduce to: `a·b + e·(b·x)`.
pub open spec fn ooake_exponent(a: Seq<u8>, b: Seq<u8>, e: Seq<u8>, x: Seq<u8>) -> Seq<u8> {
    scalar_add_of(scalar_mul_of(a, b), scalar_mul_of(e, scalar_mul_of(b, x)))
}

/// The AEAD key read from the key point.
pub open spec fn ooake_aekey(k: Seq<u8>) -> Seq<u8> {
    shake256_of(k, 32).subrange(0, 16)
}

/// The AEAD nonce read from the key point.
pub open spec fn ooake_nonce(k: Seq<u8>) -> Seq<u8> {
    shake256_of(k, 32).subrange(16, 32)
}

/// The exact result of the receiving side for given inputs.
pub open spec fn ooake_recv_model(
    kk: Seq<u8>,
    aad: Seq<u8>,
    ciphertext: Seq<u8>,
) -> Result<Seq<u8>, ProtoError> {
    if ciphertext.len() <= 16 {
        Err(ProtoError::InvalidLength)
    } else {
        match aead_open_of(ooake_aekey(kk), ooake_nonce(kk), aad, ciphertext) {
            Some(m) => Ok(m),
            None => Err(ProtoError::VerificationFailed(Alg::Aes128Colm0)),
        }
    }
}

/// Builds the challenge-hash input and reduces it to a scalar.
fn derive_e(ida: &[u8], aa: &[u8], idb: &[u8], bb: &[u8], xx: &[u8]) -> (r: Vec<u8>)
    ensures
        r@ == ooake_e(ida@, aa@, idb@, bb@, xx@),
        r@.len() == 32,
{
    let mut input: Vec<u8> = Vec::new();
    input.extend_from_slice(ida);
    input.extend_from_slice(aa);
    input.extend_from_slice(idb);
    input.extend_from_slice(bb);
    input.extend_from_slice(xx);
    proof {
        assert(input@ =~= ida@ + aa@ + idb@ + bb@ + xx@);
    }
    let h = sha3_512(input.as_slice());
    scalar_reduce_wide(h.as_slice())
}

/// Sender side.  On success the transport point is an ephemeral `x·G`,
/// the ciphertext seals the plaintext under the keys read from the
/// sender's key point, and whenever the recipient's public key is `b·G`
/// that point is the basepoint multiple of the common exponent.
pub fn send(
    ida: &[u8],
    ska: &SecretKey,
    idb: &[u8],
    pkb: &PublicKey,
    aad: &[u8],
    plaintext: &[u8],
) -> (r: Result<(Message, Vec<u8>, Ghost<Seq<u8>>), Error>)
    requires
        ska.wf(),
        pkb.wf(),
    ensures
        match r {
            Ok(p) => {
                let x = p.2@;
                let e = ooake_e(ida@, ska.spec_pk(), idb@, pkb@, p.0@);
                let kk = ooake_send_key(pkb@, ska.spec_sk(), e, x);
                &&& p.0.wf()
                &&& plaintext@.len() > 0
                &&& p.0@ == base_mul_of(x)
                &&& p.1@ == aead_seal_of(ooake_aekey(kk), ooake_nonce(kk), aad@, plaintext@)
                &&& p.1@.len() == plaintext@.len() + 16
                &&& aead_open_of(ooake_aekey(kk), ooake_nonce(kk), aad@, p.1@) == Some(plaintext@)
                &&& forall|b: Seq<u8>|
                    pkb@ == base_mul_of(b) ==> kk == base_mul_of(
                        #[trigger] ooake_exponent(ska.spec_sk(), b, e, x),
                    )
            },
            Err(e) => e == Error::Rand || (e == Error::Proto(ProtoError::InvalidLength) && (
            plaintext@.len() == 0 || plaintext@.len() + 16 > usize::MAX || plaintext@.len()
                > LEN_MAX || aad@.len() > LEN_MAX)),
        },
{
    let wide = random_bytes(64)?;
    let x = scalar_reduce_wide(wide.as_slice());
    let xx = ristretto_base_mul(x.as_slice());

    let e = derive_e(ida, ska.pk.as_slice(), idb, pkb.bytes.as_slice(), xx.as_slice());

    let s1 = scalar_mul(e.as_slice(), x.as_slice());
    let s = scalar_add(ska.sk.as_slice(), s1.as_slice());
    let kk = ristretto_point_mul(pkb.bytes.as_slice(), s.as_slice());

    let (aekey, nonce, _z1, _z2) = shake256_blocks(kk.as_slice(), 16, 16, 0, 0);

    let aead = Aes128Colm0;
    let c = match aead.seal(aekey.as_slice(), nonce.as_slice(), aad, plaintext) {
        Ok(c) => c,
        Err(e) => {
            return Err(Error::Proto(e));
        },
    };

    proof {
        let a = ska.spec_sk();
        let ee = ooake_e(ida@, ska.spec_pk(), idb@, pkb@, xx@);
        assert(s@ == scalar_add_of(a, scalar_mul_of(ee, x@)));
        assert(kk@ == ooake_send_key(pkb@, a, ee, x@));
        assert forall|b: Seq<u8>| pkb@ == base_mul_of(b) implies kk@ == base_mul_of(
            ooake_exponent(a, b, ee, x@),
        ) by {
            assert(kk@ == base_mul_of(scalar_mul_of(s@, b)));
            assert(scalar_mul_of(s@, b) == scalar_add_of(
                scalar_mul_of(a, b),
                scalar_mul_of(s1@, b),
            ));
            assert(scalar_mul_of(s1@, b) == scalar_mul_of(ee, scalar_mul_of(b, x@)));
        }
        assert(ooake_aekey(kk@) == aekey@);
        assert(ooake_nonce(kk@) == nonce@);
    }
    Ok((Message { bytes: xx }, c, Ghost(x@)))
}

/// Receiver side.  The result is exactly the model's: the ciphertext
/// opened under the keys read from the receiver's key point.  Whenever
/// the sender's public key is `a·G` and the transport point is `x·G`,
/// that key point is the basepoint multiple of the common exponent, the
/// sender's own.
pub fn recv(
    idb: &[u8],
    skb: &SecretKey,
    ida: &[u8],
    pka: &PublicKey,
    m: &Message,
    aad: &[u8],
    ciphertext: &[u8],
) -> (r: Result<Vec<u8>, ProtoError>)
    requires
        skb.wf(),
        pka.wf(),
        m.wf(),
    ensures
        ({
            let e = ooake_e(ida@, pka@, idb@, skb.spec_pk(), m@);
            let kk = ooake_recv_key(pka@, skb.spec_sk(), e, m@);
            &&& match r {
                Ok(v) => ooake_recv_model(kk, aad@, ciphertext@) == Ok::<Seq<u8>, ProtoError>(v@),
                Err(err) => ooake_recv_model(kk, aad@, ciphertext@) == Err::<
                    Seq<u8>,
                    ProtoError,
                >(err),
            }
            &&& forall|a: Seq<u8>, x: Seq<u8>|
                pka@ == base_mul_of(a) && m@ == base_mul_of(x) ==> kk == base_mul_of(
                    #[trigger] ooake_exponent(a, skb.spec_sk(), e, x),
                )
        }),
{
    let e = derive_e(ida, pka.bytes.as_slice(), idb, skb.pk.as_slice(), m.bytes.as_slice());

    let p1 = ristretto_point_mul(pka.bytes.as_slice(), skb.sk.as_slice());
    let n = scalar_mul(e.as_slice(), skb.sk.as_slice());
    let p2 = ristretto_point_mul(m.bytes.as_slice(), n.as_slice());
    let kk = ristretto_point_add(p1.as_slice(), p2.as_slice());

    let (aekey, nonce, _z1, _z2) = shake256_blocks(kk.as_slice(), 16, 16, 0, 0);

    proof {
        let b = skb.spec_sk();
        let ee = ooake_e(ida@, pka@, idb@, skb.spec_pk(), m@);
        assert(kk@ == ooake_recv_key(pka@, b, ee, m@));
        assert forall|a: Seq<u8>, x: Seq<u8>|
            pka@ == base_mul_of(a) && m@ == base_mul_of(x) implies kk@ == base_mul_of(
            ooake_exponent(a, b, ee, x),
        ) by {
            assert(p1@ == base_mul_of(scalar_mul_of(b, a)));
            assert(p1@ == base_mul_of(scalar_mul_of(a, b)));
            assert(scalar_mul_of(n@, x) == scalar_mul_of(ee, scalar_mul_of(b, x)));
            assert(p2@ == base_mul_of(scalar_mul_of(n@, x)));
            assert(p2@ == base_mul_of(scalar_mul_of(ee, scalar_mul_of(b, x))));
            assert(kk@ == base_mul_of(scalar_add_of(
                scalar_mul_of(a, b),
                scalar_mul_of(ee, scalar_mul_of(b, x)),
            )));
        }
        assert(ooake_aekey(kk@) == aekey@);
        assert(ooake_nonce(kk@) == nonce@);
    }

    let aead = Aes128Colm0;
    if ciphertext.len() <= 16 {
        return Err(ProtoError::InvalidLength);
    }
    aead.open(aekey.as_slice(), nonce.as_slice(), aad, ciphertext)
}


/// End-to-end round trip of the engine: what the sender seals toward a
/// key set's public half, the holder of the secret half receives back
/// unchanged, for every pair of identities, associated data and
/// non-empty plaintext.
pub fn send_then_recv(
    ida: &[u8],
    ska: &SecretKey,
    idb: &[u8],
    skb: &SecretKey,
    aad: &[u8],
    plaintext: &[u8],
) -> (r: Result<Vec<u8>, Error>)
    requires
        ska.wf(),
        skb.wf(),
    ensures
        match r {
            Ok(v) => v@ == plaintext@,
            Err(e) => e == Error::Rand || (e == Error::Proto(ProtoError::InvalidLength) && (
            plaintext@.len() == 0 || plaintext@.len() + 16 > usize::MAX || plaintext@.len()
                > LEN_MAX || aad@.len() > LEN_MAX)),
        },
{
    let pka = PublicKey::from_secret(ska);
    let pkb = PublicKey::from_secret(skb);
    let (m, c, gx) = match send(ida, ska, idb, &pkb, aad, plaintext) {
        Ok(p) => p,
        Err(e) => {
            return Err(e);
        },
    };
    let res = recv(idb, skb, ida, &pka, &m, aad, c.as_slice());
    proof {
        let x = gx@;
        let a = ska.spec_sk();
        let b = skb.spec_sk();
        let e = ooake_e(ida@, ska.spec_pk(), idb@, pkb@, m@);
        assert(ooake_send_key(pkb@, a, e, x) == base_mul_of(ooake_exponent(a, b, e, x)));
        assert(ooake_recv_key(pka@, b, e, m@) == base_mul_of(ooake_exponent(a, b, e, x)));
        assert(ooake_recv_model(ooake_recv_key(pka@, b, e, m@), aad@, c@) == Ok::<
            Seq<u8>,
            ProtoError,
        >(plaintext@));
    }
    match res {
        Ok(v) => Ok(v),
        Err(_) => {
            // dead: the agreement proof shows the receiver succeeds
            proof {
                assert(false);
            }
            Err(Error::Rand)
        },
    }
}

} // verus!
