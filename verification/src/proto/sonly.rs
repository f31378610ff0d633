//! The signature-only protocol: no confidentiality, only a signature that
//! binds the sender's identity and the associated data to the message.

use vstd::prelude::*;
use crate::error::Alg;
use crate::error::ProtoError;
use crate::hashes::sha3_512;
use crate::hashes::sha3_512_of;
use crate::key::ed25519::Ed25519;
use crate::key::ed25519::PublicKey;
use crate::key::ed25519::SecretKey;
use crate::key::ed25519::Signature;
use crate::key::ed25519::ed25519_sign_of;
use crate::key::ed25519::ed25519_verify_of;
use crate::key::ed25519::ed25519_public_of;

verus! {

/// The hash both sides sign and check: the sender's identity, a
/// separator, the digest of the associated data, and the message.
pub open spec fn sonly_hash(id: Seq<u8>, aad: Seq<u8>, message: Seq<u8>) -> Seq<u8> {
    sha3_512_of(id + seq![255u8] + sha3_512_of(aad) + message)
}

/// Builds the hash input and digests it.
fn hash_parts(id: &[u8], aad: &[u8], message: &[u8]) -> (r: Vec<u8>)
    ensures
        r@ == sonly_hash(id@, aad@, message@),
{
    let mut input: Vec<u8> = Vec::new();
    input.extend_from_slice(id);
    input.push(255u8);
    let mut ad = sha3_512(aad);
    input.append(&mut ad);
    input.extend_from_slice(message);
    proof {
        assert(input@ =~= id@ + seq![255u8] + sha3_512_of(aad@) + message@);
    }
    sha3_512(input.as_slice())
}

/// Signs the bound hash of identity, associated data and message.
pub fn send(id: &[u8], sk: &SecretKey, aad: &[u8], message: &[u8]) -> (r: Signature)
    requires
        sk.wf(),
    ensures
        r@ == ed25519_sign_of(sk.spec_sk(), sonly_hash(id@, aad@, message@)),
        ed25519_verify_of(
            ed25519_public_of(sk.spec_sk()),
            r@,
            sonly_hash(id@, aad@, message@),
        ),
        r.wf(),
{
    let h = hash_parts(id, aad, message);
    Ed25519::sign(sk, h.as_slice())
}

/// Checks the signature over the bound hash; succeeds exactly when it
/// verifies under the sender's public key.
pub fn recv(id: &[u8], pk: &PublicKey, sig: &Signature, aad: &[u8], message: &[u8]) -> (r: Result<
    (),
    ProtoError,
>)
    requires
        pk.wf(),
        sig.wf(),
    ensures
        r is Ok <==> ed25519_verify_of(pk@, sig@, sonly_hash(id@, aad@, message@)),
        r is Err ==> r->Err_0 == ProtoError::VerificationFailed(Alg::Ed25519),
{
    let h = hash_parts(id, aad, message);
    if Ed25519::verify(pk, sig, h.as_slice()) {
        Ok(())
    } else {
        Err(ProtoError::VerificationFailed(Alg::Ed25519))
    }
}


/// Signature round trip: what one identity signs, its public key
/// verifies, for every identifier, associated data and message.
pub fn send_then_recv(id: &[u8], sk: &SecretKey, aad: &[u8], message: &[u8]) -> (r: Result<
    (),
    ProtoError,
>)
    requires
        sk.wf(),
    ensures
        r is Ok,
{
    let pk = PublicKey::from_secret(sk);
    let sig = send(id, sk, aad, message);
    recv(id, &pk, &sig, aad, message)
}

} // verus!
