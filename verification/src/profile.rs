//! Password-based profile sealing: a secret key set is serialised and
//! sealed under keys derived from the password with Argon2d, and opened
//! with the same derivation.  A wrong password or a tampered profile is
//! reported as a verification failure, without saying which.

use vstd::prelude::*;
use argon2rs::Argon2;
use argon2rs::Variant;
use crate::aead::aes128colm0::Aes128Colm0;
use crate::aead::aes128colm0::aead_open_of;
use crate::aead::aes128colm0::aead_seal_of;
use crate::alg::Encrypt;
use crate::error::Alg;
use crate::error::Error;
use crate::error::ProtoError;
use crate::format::ENE;
use crate::format::Envelope;
use crate::format::PrivateKey;
use crate::format::VERSION;
use crate::format::Version;
use crate::format::dec_sk_set;
use crate::format::enc_sk_set;
use crate::format::spec_dec_sk_set;
use crate::format::spec_enc_sk_set;
use crate::rng::random_bytes;

verus! {

broadcast use crate::wire::lemma_be64_len;

/// The Argon2d digest of a password and salt, of the requested length.
pub uninterp spec fn argon2d_of(pass: Seq<u8>, salt: Seq<u8>, n: int) -> Seq<u8>;

/// Relies on argon2rs::Argon2::hash with the Argon2d variant and default
/// parameters: the digest depends on the password, the salt and the
/// length alone.
#[verifier::external_body]
fn argon2d(pass: &[u8], salt: &[u8], n: usize) -> (r: Vec<u8>)
    requires
        8 <= salt@.len() <= 0xFFFFFFFF,
        4 <= n <= 0xFFFFFFFF,
        pass@.len() <= 0xFFFFFFFF,
    ensures
        r@ == argon2d_of(pass@, salt@, n as int),
        r@.len() == n,
{
    let mut out = vec![0u8; n];
    Argon2::default(Variant::Argon2d).hash(&mut out, pass, salt, &[], &[]);
    out
}

/// The AEAD key derived from a password and salt.
pub open spec fn profile_key(pass: Seq<u8>, salt: Seq<u8>) -> Seq<u8> {
    argon2d_of(pass, salt, 32).subrange(0, 16)
}

/// The AEAD nonce derived from a password and salt.
pub open spec fn profile_nonce(pass: Seq<u8>, salt: Seq<u8>) -> Seq<u8> {
    argon2d_of(pass, salt, 32).subrange(16, 32)
}

/// What opening a sealed profile body returns for given password, salt
/// and ciphertext: the slots of the secret key set, or the exact error.
pub open spec fn profile_open_model(pass: Seq<u8>, salt: Seq<u8>, ct: Seq<u8>) -> Result<
    (Option<Seq<u8>>, Option<Seq<u8>>),
    Error,
> {
    if salt.len() < 8 || salt.len() > 0xFFFFFFFF || pass.len() > 0xFFFFFFFF {
        Err(Error::Format)
    } else if ct.len() <= 16 {
        Err(Error::Proto(ProtoError::InvalidLength))
    } else {
        match aead_open_of(profile_key(pass, salt), profile_nonce(pass, salt), salt, ct) {
            None => Err(Error::Proto(ProtoError::VerificationFailed(Alg::Aes128Colm0))),
            Some(body) => match spec_dec_sk_set(body, 0) {
                Some((slots, p)) => {
                    if p == body.len() {
                        Ok(slots)
                    } else {
                        Err(Error::Format)
                    }
                },
                None => Err(Error::Format),
            },
        }
    }
}

/// Derives the AEAD key and nonce for a password and salt.
fn derive_keys(pass: &[u8], salt: &[u8]) -> (r: (Vec<u8>, Vec<u8>))
    requires
        8 <= salt@.len() <= 0xFFFFFFFF,
        pass@.len() <= 0xFFFFFFFF,
    ensures
        r.0@ == profile_key(pass@, salt@),
        r.1@ == profile_nonce(pass@, salt@),
        r.0@.len() == 16 && r.1@.len() == 16,
{
    let tmp = argon2d(pass, salt, 32);
    let key = crate::wire::read_run(tmp.as_slice(), 0, 16);
    let nonce = crate::wire::read_run(tmp.as_slice(), 16, 16);
    (key, nonce)
}

/// Seals a secret key set under a password into a sealed-profile
/// envelope.  The ciphertext opens back to the set's canonical encoding
/// under the keys derived from the same password and the fresh salt.
pub fn seal(enc: Encrypt, id: &[u8], password: &[u8], sk: &crate::key::SecretKey) -> (r: Result<
    PrivateKey,
    Error,
>)
    requires
        sk.wf(),
        password@.len() <= 0xFFFFFFFF,
    ensures
        match r {
            Ok(env) => {
                &&& env.1 == Version(VERSION)
                &&& env.2.0@ == id@
                &&& env.2.1 == Encrypt::Aes128Colm0
                &&& env.2.2@.len() == 16
                &&& env.2.3@.len() == spec_enc_sk_set(
                    sk.spec_ed25519(),
                    sk.spec_ristrettodh(),
                ).len() + 16
                &&& env.2.3@ == aead_seal_of(
                    profile_key(password@, env.2.2@),
                    profile_nonce(password@, env.2.2@),
                    env.2.2@,
                    spec_enc_sk_set(sk.spec_ed25519(), sk.spec_ristrettodh()),
                )
                &&& aead_open_of(
                    profile_key(password@, env.2.2@),
                    profile_nonce(password@, env.2.2@),
                    env.2.2@,
                    env.2.3@,
                ) == Some(spec_enc_sk_set(sk.spec_ed25519(), sk.spec_ristrettodh()))
                &&& profile_open_model(password@, env.2.2@, env.2.3@) == Ok::<
                    (Option<Seq<u8>>, Option<Seq<u8>>),
                    Error,
                >((sk.spec_ed25519(), sk.spec_ristrettodh()))
            },
            Err(e) => e == Error::Rand,
        },
{
    let salt = random_bytes(16)?;
    let (key, nonce) = derive_keys(password, salt.as_slice());

    let mut body: Vec<u8> = Vec::new();
    enc_sk_set(&mut body, sk);
    proof {
        assert(crate::format::spec_enc_opt_bytes(sk.spec_ed25519()).len() <= 41);
        assert(crate::format::spec_enc_opt_bytes(sk.spec_ristrettodh()).len() <= 41);
        assert(body@.len() <= 82);
    }

    let aead = Aes128Colm0;
    let ct = match aead.seal(key.as_slice(), nonce.as_slice(), salt.as_slice(), body.as_slice()) {
        Ok(c) => c,
        Err(_) => {
            proof {
                assert(false);
            }
            return Err(Error::Rand);
        },
    };
    proof {
        assert(body@.subrange(0, body@.len() as int) =~= body@);
        crate::format::lemma_dec_sk_set_roundtrip(
            body@,
            0,
            sk.spec_ed25519(),
            sk.spec_ristrettodh(),
        );
    }
    Ok(
        Envelope(
            ENE(core::marker::PhantomData),
            Version(VERSION),
            (vstd::slice::slice_to_vec(id), enc, salt, ct),
        ),
    )
}

/// Opens a sealed-profile envelope with a password, returning the
/// identity it carries and the secret key set it sealed.  The result is
/// exactly the open model's.
pub fn open(password: &[u8], sk_packed: &PrivateKey) -> (r: Result<crate::Ene, Error>)
    ensures
        match r {
            Ok(ene) => {
                &&& profile_open_model(password@, sk_packed.2.2@, sk_packed.2.3@) == Ok::<
                    (Option<Seq<u8>>, Option<Seq<u8>>),
                    Error,
                >((ene.key.spec_ed25519(), ene.key.spec_ristrettodh()))
                &&& ene.key.wf()
                &&& ene.id@ == sk_packed.2.0@
            },
            Err(e) => profile_open_model(password@, sk_packed.2.2@, sk_packed.2.3@) == Err::<
                (Option<Seq<u8>>, Option<Seq<u8>>),
                Error,
            >(e),
        },
{
    let salt = &sk_packed.2.2;
    if salt.len() < 8 || salt.len() > 0xFFFFFFFF || password.len() > 0xFFFFFFFF {
        return Err(Error::Format);
    }
    let (key, nonce) = derive_keys(password, salt.as_slice());

    let aead = Aes128Colm0;
    if sk_packed.2.3.len() <= 16 {
        return Err(Error::Proto(ProtoError::InvalidLength));
    }
    let body = match aead.open(
        key.as_slice(),
        nonce.as_slice(),
        salt.as_slice(),
        sk_packed.2.3.as_slice(),
    ) {
        Ok(b) => b,
        Err(e) => {
            return Err(Error::Proto(e));
        },
    };
    let (sk, p) = match dec_sk_set(body.as_slice(), 0) {
        Some(v) => v,
        None => {
            return Err(Error::Format);
        },
    };
    if p != body.len() {
        return Err(Error::Format);
    }
    Ok(crate::Ene { id: vstd::slice::slice_to_vec(sk_packed.2.0.as_slice()), key: sk })
}

/// Profile round trip: opening a sealed profile with the password it was
/// sealed under gives back the same identity and the same secret key
/// slots.  (A wrong password fails cryptographically, which is checked by
/// test, not proof.)
pub fn seal_then_open(id: &[u8], password: &[u8], sk: &crate::key::SecretKey) -> (r: Result<
    crate::Ene,
    Error,
>)
    requires
        sk.wf(),
        password@.len() <= 0xFFFFFFFF,
    ensures
        match r {
            Ok(ene) => {
                &&& ene.id@ == id@
                &&& ene.key.spec_ed25519() == sk.spec_ed25519()
                &&& ene.key.spec_ristrettodh() == sk.spec_ristrettodh()
            },
            Err(e) => e == Error::Rand,
        },
{
    let env = seal(Encrypt::Aes128Colm0, id, password, sk)?;
    match open(password, &env) {
        Ok(ene) => Ok(ene),
        Err(_) => {
            // dead: the round-trip proof shows opening succeeds
            proof {
                assert(false);
            }
            Err(Error::Rand)
        },
    }
}

} // verus!
