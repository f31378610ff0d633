use ene::alg::Encrypt;
use ene::error::{Alg, Error, ProtoError};
use ene::format::{decode_private_key, encode_private_key};
use ene::profile;
use ene::Builder;

#[test]
fn test_profile_roundtrip() {
    // generate a key set with the default slots, seal with a password,
    // serialise, open again: identifier and public derivation match
    let ene_id = Builder::default().generate(b"alice@core.ene").unwrap();
    let pk_before = ene_id.as_secret().to_public();

    let sealed = profile::seal(
        Encrypt::Aes128Colm0,
        b"alice@core.ene",
        b"password",
        ene_id.as_secret(),
    )
    .unwrap();
    let bytes = encode_private_key(&sealed);
    let sealed2 = decode_private_key(&bytes).unwrap();

    let opened = profile::open(b"password", &sealed2).unwrap();
    assert_eq!(opened.get_id(), b"alice@core.ene");
    let pk_after = opened.as_secret().to_public();
    let (same, mismatches) = pk_before.contains(&pk_after);
    assert!(same);
    assert!(mismatches.is_empty());
    assert_eq!(
        pk_before.ed25519.as_ref().unwrap().read_bytes(),
        pk_after.ed25519.as_ref().unwrap().read_bytes()
    );
    assert_eq!(
        pk_before.ristrettodh.as_ref().unwrap().read_bytes(),
        pk_after.ristrettodh.as_ref().unwrap().read_bytes()
    );

    // a wrong password is a verification failure, not a format error
    let r = profile::open(b"wrong", &sealed2);
    assert!(matches!(
        r,
        Err(Error::Proto(ProtoError::VerificationFailed(Alg::Aes128Colm0)))
    ));
}

#[test]
fn test_profile_tamper() {
    let ene_id = Builder::default().generate(b"bob@core.ene").unwrap();
    let sealed = profile::seal(
        Encrypt::Aes128Colm0,
        b"bob@core.ene",
        b"password",
        ene_id.as_secret(),
    )
    .unwrap();
    let mut bytes = encode_private_key(&sealed);
    // flip a byte of the sealed body: opening must fail
    let n = bytes.len();
    bytes[n - 1] ^= 1;
    match decode_private_key(&bytes) {
        None => {}
        Some(env) => {
            assert!(matches!(
                profile::open(b"password", &env),
                Err(Error::Proto(ProtoError::VerificationFailed(Alg::Aes128Colm0)))
            ));
        }
    }
}

#[test]
fn test_seal_open_law() {
    // the verified seal-then-open round trip on concrete values
    let ene_id = Builder::default().generate(b"carol@core.ene").unwrap();
    let opened =
        profile::seal_then_open(b"carol@core.ene", b"password", ene_id.as_secret()).unwrap();
    assert_eq!(opened.get_id(), b"carol@core.ene");
}
