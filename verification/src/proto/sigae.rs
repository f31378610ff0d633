//! The one-pass SIGMA-over-AEAD protocol.
//!
//! The sender performs a fresh key exchange to the recipient's
//! RistrettoDH key, reads two AEAD key/nonce pairs from SHAKE256 of a
//! labelled transcript of the shared secret, signs a hash binding both
//! identities, the recipient's key and the transport point (and, when the
//! `bind_aad` flag is set, the associated data and the plaintext), seals
//! the signature under the first pair with the identity pair as
//! associated data, and seals the payload under the second pair.  The two
//! XOF reads are order-sensitive: signature keys first.

use vstd::prelude::*;
use crate::aead::aes128colm0::Aes128Colm0;
use crate::aead::aes128colm0::LEN_MAX;
use crate::aead::aes128colm0::aead_open_of;
use crate::aead::aes128colm0::aead_seal_of;
use crate::error::Alg;
use crate::error::BadValue;
use crate::error::Error;
use crate::error::ProtoError;
use crate::hashes::sha3_512;
use crate::hashes::sha3_512_of;
use crate::hashes::shake256_blocks;
use crate::hashes::shake256_of;
use crate::key::ed25519::Ed25519;
use crate::key::ed25519::ed25519_public_of;
use crate::key::ed25519::ed25519_sign_of;
use crate::key::ed25519::ed25519_verify_of;
use crate::key::ristrettodh::RistrettoDH;
use crate::key::ristrettodh::base_mul_of;
use crate::key::ristrettodh::point_mul_of;
use crate::key::ristrettodh::scalar_mul_of;
use crate::wire::is_zero;

verus! {

/// The SIGAE transport: the key-exchange message and the sealed
/// signature.
pub struct Message {
    pub m: crate::key::ristrettodh::Message,
    pub c: Vec<u8>,
}

/// The label `SIGAE` as bytes.
pub open spec fn sigae_label() -> Seq<u8> {
    seq![83u8, 73u8, 71u8, 65u8, 69u8]
}

/// Builds the label `SIGAE`.
fn sigae_label_vec() -> (r: Vec<u8>)
    ensures
        r@ == sigae_label(),
{
    let mut v: Vec<u8> = Vec::new();
    v.push(83u8);
    v.push(73u8);
    v.push(71u8);
    v.push(65u8);
    v.push(69u8);
    proof {
        assert(v@ =~= sigae_label());
    }
    v
}

/// The label `Ed25519` as bytes.
pub open spec fn name_ed25519() -> Seq<u8> {
    seq![69u8, 100u8, 50u8, 53u8, 53u8, 49u8, 57u8]
}

/// Builds the label `Ed25519`.
fn name_ed25519_vec() -> (r: Vec<u8>)
    ensures
        r@ == name_ed25519(),
{
    let mut v: Vec<u8> = Vec::new();
    v.push(69u8);
    v.push(100u8);
    v.push(50u8);
    v.push(53u8);
    v.push(53u8);
    v.push(49u8);
    v.push(57u8);
    proof {
        assert(v@ =~= name_ed25519());
    }
    v
}

/// The label `RistrettoDH` as bytes.
pub open spec fn name_ristrettodh() -> Seq<u8> {
    seq![82u8, 105u8, 115u8, 116u8, 114u8, 101u8, 116u8, 116u8, 111u8, 68u8, 72u8]
}

/// Builds the label `RistrettoDH`.
fn name_ristrettodh_vec() -> (r: Vec<u8>)
    ensures
        r@ == name_ristrettodh(),
{
    let mut v: Vec<u8> = Vec::new();
    v.push(82u8);
    v.push(105u8);
    v.push(115u8);
    v.push(116u8);
    v.push(114u8);
    v.push(101u8);
    v.push(116u8);
    v.push(116u8);
    v.push(111u8);
    v.push(68u8);
    v.push(72u8);
    proof {
        assert(v@ =~= name_ristrettodh());
    }
    v
}

/// The SHAKE256 transcript seed: label, algorithm names, shared secret.
pub open spec fn sigae_xof_input(shared: Seq<u8>) -> Seq<u8> {
    sigae_label() + name_ed25519() + name_ristrettodh() + shared
}

/// The four XOF reads, in order: signature key, signature nonce, payload
/// key, payload nonce.
pub open spec fn sigae_k1(shared: Seq<u8>) -> Seq<u8> {
    shake256_of(sigae_xof_input(shared), 64).subrange(0, 16)
}

pub open spec fn sigae_n1(shared: Seq<u8>) -> Seq<u8> {
    shake256_of(sigae_xof_input(shared), 64).subrange(16, 32)
}

pub open spec fn sigae_k2(shared: Seq<u8>) -> Seq<u8> {
    shake256_of(sigae_xof_input(shared), 64).subrange(32, 48)
}

pub open spec fn sigae_n2(shared: Seq<u8>) -> Seq<u8> {
    shake256_of(sigae_xof_input(shared), 64).subrange(48, 64)
}

/// The identity pair, separator-joined; the associated data of the sealed
/// signature.
pub open spec fn id_pair(ida: Seq<u8>, idb: Seq<u8>) -> Seq<u8> {
    ida + seq![255u8] + idb
}

/// The signed hash: identity pair, the recipient's key-exchange public
/// key, the transport point, and, when `flag` is set, the digests of the
/// associated data and the plaintext.
pub open spec fn sigae_hash(
    ida: Seq<u8>,
    idb: Seq<u8>,
    bb: Seq<u8>,
    xx: Seq<u8>,
    flag: bool,
    aad: Seq<u8>,
    m: Seq<u8>,
) -> Seq<u8> {
    sha3_512_of(
        ida + seq![255u8] + idb + bb + xx + (if flag {
            sha3_512_of(aad) + sha3_512_of(m)
        } else {
            Seq::<u8>::empty()
        }),
    )
}

/// The exact result of the receiving side, given the receiver's shared
/// secret.
pub open spec fn sigae_recv_model(
    shared: Seq<u8>,
    pka: Seq<u8>,
    ida: Seq<u8>,
    idb: Seq<u8>,
    own_pk: Seq<u8>,
    xx: Seq<u8>,
    flag: bool,
    aad: Seq<u8>,
    csig: Seq<u8>,
    cmsg: Seq<u8>,
) -> Result<Seq<u8>, ProtoError> {
    if csig.len() <= 16 {
        Err(ProtoError::InvalidLength)
    } else {
        match aead_open_of(sigae_k1(shared), sigae_n1(shared), id_pair(ida, idb), csig) {
            None => Err(ProtoError::VerificationFailed(Alg::Aes128Colm0)),
            Some(sigb) => {
                if sigb.len() != 64 {
                    Err(ProtoError::InvalidLength)
                } else if is_zero(sigb.subrange(0, 32)) || is_zero(sigb.subrange(32, 64)) {
                    Err(ProtoError::InvalidValue(BadValue::ZeroValue))
                } else if cmsg.len() <= 16 {
                    Err(ProtoError::InvalidLength)
                } else {
                    match aead_open_of(sigae_k2(shared), sigae_n2(shared), aad, cmsg) {
                        None => Err(ProtoError::VerificationFailed(Alg::Aes128Colm0)),
                        Some(m) => {
                            if ed25519_verify_of(
                                pka,
                                sigb,
                                sigae_hash(ida, idb, own_pk, xx, flag, aad, m),
                            ) {
                                Ok(m)
                            } else {
                                Err(ProtoError::VerificationFailed(Alg::Ed25519))
                            }
                        },
                    }
                }
            },
        }
    }
}

/// Builds the XOF seed for a shared secret.
fn xof_input_vec(shared: &[u8]) -> (r: Vec<u8>)
    ensures
        r@ == sigae_xof_input(shared@),
{
    let mut v = sigae_label_vec();
    let mut t = name_ed25519_vec();
    v.append(&mut t);
    let mut t = name_ristrettodh_vec();
    v.append(&mut t);
    v.extend_from_slice(shared);
    proof {
        assert(v@ =~= sigae_xof_input(shared@));
    }
    v
}

/// Builds the identity pair.
fn id_pair_vec(ida: &[u8], idb: &[u8]) -> (r: Vec<u8>)
    ensures
        r@ == id_pair(ida@, idb@),
{
    let mut v: Vec<u8> = Vec::new();
    v.extend_from_slice(ida);
    v.push(255u8);
    v.extend_from_slice(idb);
    proof {
        assert(v@ =~= id_pair(ida@, idb@));
    }
    v
}

/// Builds and digests the signed hash.
fn hash_vec(ida: &[u8], idb: &[u8], bb: &[u8], xx: &[u8], flag: bool, aad: &[u8], m: &[u8]) -> (r:
    Vec<u8>)
    ensures
        r@ == sigae_hash(ida@, idb@, bb@, xx@, flag, aad@, m@),
{
    let mut v: Vec<u8> = Vec::new();
    v.extend_from_slice(ida);
    v.push(255u8);
    v.extend_from_slice(idb);
    v.extend_from_slice(bb);
    v.extend_from_slice(xx);
    if flag {
        let mut d = sha3_512(aad);
        v.append(&mut d);
        let mut d = sha3_512(m);
        v.append(&mut d);
    }
    proof {
        assert(v@ =~= ida@ + seq![255u8] + idb@ + bb@ + xx@ + (if flag {
            sha3_512_of(aad@) + sha3_512_of(m@)
        } else {
            Seq::<u8>::empty()
        }));
    }
    sha3_512(v.as_slice())
}

/// Sender side.
pub fn send(
    ida: &[u8],
    sigsk: &crate::key::ed25519::SecretKey,
    idb: &[u8],
    dhpk: &crate::key::ristrettodh::PublicKey,
    aad: &[u8],
    plaintext: &[u8],
    flag: bool,
) -> (r: Result<(Message, Vec<u8>, Ghost<Seq<u8>>), Error>)
    requires
        sigsk.wf(),
        dhpk.wf(),
    ensures
        match r {
            Ok(p) => {
                let x = p.2@;
                let shared = sha3_512_of(point_mul_of(dhpk@, x));
                let hh = sigae_hash(ida@, idb@, dhpk@, p.0.m@, flag, aad@, plaintext@);
                let sigb = ed25519_sign_of(sigsk.spec_sk(), hh);
                &&& p.0.m.wf()
                &&& plaintext@.len() > 0
                &&& p.0.m@ == base_mul_of(x)
                &&& p.0.c@ == aead_seal_of(
                    sigae_k1(shared),
                    sigae_n1(shared),
                    id_pair(ida@, idb@),
                    sigb,
                )
                &&& aead_open_of(sigae_k1(shared), sigae_n1(shared), id_pair(ida@, idb@), p.0.c@)
                    == Some(sigb)
                &&& p.0.c@.len() == 80
                &&& p.1@ == aead_seal_of(sigae_k2(shared), sigae_n2(shared), aad@, plaintext@)
                &&& aead_open_of(sigae_k2(shared), sigae_n2(shared), aad@, p.1@) == Some(
                    plaintext@,
                )
                &&& p.1@.len() == plaintext@.len() + 16
                &&& ed25519_verify_of(ed25519_public_of(sigsk.spec_sk()), sigb, hh)
                &&& sigb.len() == 64
                &&& forall|b: Seq<u8>|
                    dhpk@ == base_mul_of(b) ==> shared == sha3_512_of(
                        base_mul_of(#[trigger] scalar_mul_of(x, b)),
                    )
            },
            Err(e) => e == Error::Rand || (e == Error::Proto(ProtoError::InvalidLength) && (
            plaintext@.len() == 0 || plaintext@.len() + 16 > usize::MAX || plaintext@.len()
                > LEN_MAX || aad@.len() > LEN_MAX || ida@.len() + idb@.len() + 1 > LEN_MAX)),
        },
{
    let (m, shared, gx) = match RistrettoDH::exchange_to(dhpk) {
        Ok(p) => p,
        Err(e) => {
            return Err(e);
        },
    };
    let xi = xof_input_vec(shared.as_slice());
    let (k1, n1, k2, n2) = shake256_blocks(xi.as_slice(), 16, 16, 16, 16);

    let h = hash_vec(
        ida,
        idb,
        dhpk.bytes.as_slice(),
        m.bytes.as_slice(),
        flag,
        aad,
        plaintext,
    );
    let sig = Ed25519::sign(sigsk, h.as_slice());

    let idp = id_pair_vec(ida, idb);
    let aead = Aes128Colm0;
    let c_sig = match aead.seal(k1.as_slice(), n1.as_slice(), idp.as_slice(), sig.bytes.as_slice())
    {
        Ok(c) => c,
        Err(e) => {
            // only the identity pair can be at fault: the signature is 64
            // non-empty bytes and the keys are 16
            proof {
                assert(idp@.len() > LEN_MAX);
            }
            return Err(Error::Proto(e));
        },
    };
    let c_msg = match aead.seal(k2.as_slice(), n2.as_slice(), aad, plaintext) {
        Ok(c) => c,
        Err(e) => {
            return Err(Error::Proto(e));
        },
    };
    Ok((Message { m, c: c_sig }, c_msg, gx))
}

/// Receiver side.  The result is exactly the model's, computed from the
/// receiver's shared secret; whenever the transport point is `x·G`, that
/// secret equals the sender's.
pub fn recv(
    idb: &[u8],
    dhsk: &crate::key::ristrettodh::SecretKey,
    ida: &[u8],
    sigpk: &crate::key::ed25519::PublicKey,
    t: &Message,
    aad: &[u8],
    ciphertext: &[u8],
    flag: bool,
) -> (r: Result<Vec<u8>, ProtoError>)
    requires
        dhsk.wf(),
        t.m.wf(),
        sigpk.wf(),
    ensures
        ({
            let shared = sha3_512_of(point_mul_of(t.m@, dhsk.spec_sk()));
            &&& match r {
                Ok(v) => sigae_recv_model(
                    shared,
                    sigpk@,
                    ida@,
                    idb@,
                    dhsk.spec_pk(),
                    t.m@,
                    flag,
                    aad@,
                    t.c@,
                    ciphertext@,
                ) == Ok::<Seq<u8>, ProtoError>(v@),
                Err(err) => sigae_recv_model(
                    shared,
                    sigpk@,
                    ida@,
                    idb@,
                    dhsk.spec_pk(),
                    t.m@,
                    flag,
                    aad@,
                    t.c@,
                    ciphertext@,
                ) == Err::<Seq<u8>, ProtoError>(err),
            }
            &&& forall|x: Seq<u8>|
                t.m@ == base_mul_of(x) ==> shared == sha3_512_of(
                    base_mul_of(#[trigger] scalar_mul_of(x, dhsk.spec_sk())),
                )
        }),
{
    let shared = RistrettoDH::exchange_from(dhsk, &t.m);
    let xi = xof_input_vec(shared.as_slice());
    let (k1, n1, k2, n2) = shake256_blocks(xi.as_slice(), 16, 16, 16, 16);

    let idp = id_pair_vec(ida, idb);
    let aead = Aes128Colm0;
    if t.c.len() <= 16 {
        return Err(ProtoError::InvalidLength);
    }
    let sigb = match aead.open(k1.as_slice(), n1.as_slice(), idp.as_slice(), t.c.as_slice()) {
        Ok(v) => v,
        Err(e) => {
            return Err(e);
        },
    };
    let sig = match crate::key::ed25519::Signature::from_bytes(sigb.as_slice()) {
        Ok(s) => s,
        Err(e) => {
            return Err(e);
        },
    };
    if ciphertext.len() <= 16 {
        return Err(ProtoError::InvalidLength);
    }
    let m = match aead.open(k2.as_slice(), n2.as_slice(), aad, ciphertext) {
        Ok(v) => v,
        Err(e) => {
            return Err(e);
        },
    };
    let h = hash_vec(
        ida,
        idb,
        dhsk.pk.as_slice(),
        t.m.bytes.as_slice(),
        flag,
        aad,
        m.as_slice(),
    );
    if Ed25519::verify(sigpk, &sig, h.as_slice()) {
        Ok(m)
    } else {
        Err(ProtoError::VerificationFailed(Alg::Ed25519))
    }
}


/// End-to-end round trip of the engine: the receiver recovers exactly
/// the sent plaintext, for every pair of identities, associated data,
/// non-empty plaintext and either `bind_aad` setting.  The one input
/// class left out is a signature with an all-zero half, which the
/// transport decoder rejects by design; that outcome is reported as the
/// zero-value error.
pub fn send_then_recv(
    ida: &[u8],
    sigsk: &crate::key::ed25519::SecretKey,
    idb: &[u8],
    dhsk: &crate::key::ristrettodh::SecretKey,
    aad: &[u8],
    plaintext: &[u8],
    flag: bool,
) -> (r: Result<Vec<u8>, Error>)
    requires
        sigsk.wf(),
        dhsk.wf(),
    ensures
        match r {
            Ok(v) => v@ == plaintext@,
            Err(e) => {
                ||| e == Error::Rand
                ||| (e == Error::Proto(ProtoError::InvalidLength) && (plaintext@.len() == 0
                    || plaintext@.len() + 16 > usize::MAX || plaintext@.len() > LEN_MAX
                    || aad@.len() > LEN_MAX || ida@.len() + idb@.len() + 1 > LEN_MAX))
                ||| (e == Error::Proto(ProtoError::InvalidValue(BadValue::ZeroValue)) && (
                exists|x: Seq<u8>|
                    {
                        let sigb = crate::key::ed25519::ed25519_sign_of(
                            sigsk.spec_sk(),
                            sigae_hash(
                                ida@,
                                idb@,
                                dhsk.spec_pk(),
                                #[trigger] base_mul_of(x),
                                flag,
                                aad@,
                                plaintext@,
                            ),
                        );
                        is_zero(sigb.subrange(0, 32)) || is_zero(sigb.subrange(32, 64))
                    }))
            },
        },
{
    let sigpk = crate::key::ed25519::PublicKey::from_secret(sigsk);
    let dhpk = crate::key::ristrettodh::PublicKey::from_secret(dhsk);
    let (t, cmsg, gx) = match send(ida, sigsk, idb, &dhpk, aad, plaintext, flag) {
        Ok(p) => p,
        Err(e) => {
            return Err(e);
        },
    };
    let res = recv(idb, dhsk, ida, &sigpk, &t, aad, cmsg.as_slice(), flag);
    proof {
        let x = gx@;
        let b = dhsk.spec_sk();
        let shared_s = sha3_512_of(point_mul_of(dhpk@, x));
        let shared_r = sha3_512_of(point_mul_of(t.m@, b));
        assert(shared_s == sha3_512_of(base_mul_of(scalar_mul_of(x, b))));
        assert(shared_r == sha3_512_of(base_mul_of(scalar_mul_of(x, b))));
        let hh = sigae_hash(ida@, idb@, dhpk@, t.m@, flag, aad@, plaintext@);
        let sigb = crate::key::ed25519::ed25519_sign_of(sigsk.spec_sk(), hh);
        let model = sigae_recv_model(
            shared_r,
            sigpk@,
            ida@,
            idb@,
            dhsk.spec_pk(),
            t.m@,
            flag,
            aad@,
            t.c@,
            cmsg@,
        );
        if !is_zero(sigb.subrange(0, 32)) && !is_zero(sigb.subrange(32, 64)) {
            assert(model == Ok::<Seq<u8>, ProtoError>(plaintext@));
        } else {
            assert(model == Err::<Seq<u8>, ProtoError>(
                ProtoError::InvalidValue(BadValue::ZeroValue),
            ));
        }
    }
    match res {
        Ok(v) => Ok(v),
        Err(e) => {
            proof {
                assert(e == ProtoError::InvalidValue(BadValue::ZeroValue));
            }
            Err(Error::Proto(e))
        },
    }
}

} // verus!
