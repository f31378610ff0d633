use ene::aead::aes128colm0::Aes128Colm0;
use ene::error::{Alg, ProtoError};
use rand::{thread_rng, Rng, RngCore};

#[test]
fn test_aead_aes128colm0() {
    let mut key = [0u8; 16];
    let mut nonce = [0u8; 16];
    let mut aad = vec![0u8; thread_rng().gen_range(1..128)];
    let mut m = vec![0u8; thread_rng().gen_range(1..256)];

    thread_rng().fill_bytes(&mut key);
    thread_rng().fill_bytes(&mut nonce);
    thread_rng().fill_bytes(&mut aad);
    thread_rng().fill_bytes(&mut m);

    let c = Aes128Colm0.seal(&key, &nonce, &aad, &m).unwrap();
    let p = Aes128Colm0.open(&key, &nonce, &aad, &c).unwrap();

    assert_ne!(c, vec![0u8; m.len()]);
    assert_eq!(p, m);
}

#[test]
fn test_aead_tamper() {
    let mut key = [0u8; 16];
    let mut nonce = [0u8; 16];
    let mut aad = vec![0u8; 32];
    let mut m = vec![0u8; 64];
    thread_rng().fill_bytes(&mut key);
    thread_rng().fill_bytes(&mut nonce);
    thread_rng().fill_bytes(&mut aad);
    thread_rng().fill_bytes(&mut m);

    let c = Aes128Colm0.seal(&key, &nonce, &aad, &m).unwrap();

    // flip a bit of the ciphertext at several positions, of the tag, of
    // the associated data, of the nonce and of the key: every opening
    // must fail with a verification failure
    for pos in [0usize, 17, c.len() - 1] {
        let mut c2 = c.clone();
        c2[pos] ^= 1;
        let r = Aes128Colm0.open(&key, &nonce, &aad, &c2);
        assert_eq!(r, Err(ProtoError::VerificationFailed(Alg::Aes128Colm0)));
    }
    let mut aad2 = aad.clone();
    aad2[0] ^= 0x80;
    assert_eq!(
        Aes128Colm0.open(&key, &nonce, &aad2, &c),
        Err(ProtoError::VerificationFailed(Alg::Aes128Colm0))
    );
    let mut nonce2 = nonce;
    nonce2[5] ^= 4;
    assert_eq!(
        Aes128Colm0.open(&key, &nonce2, &aad, &c),
        Err(ProtoError::VerificationFailed(Alg::Aes128Colm0))
    );
    let mut key2 = key;
    key2[15] ^= 2;
    assert_eq!(
        Aes128Colm0.open(&key2, &nonce, &aad, &c),
        Err(ProtoError::VerificationFailed(Alg::Aes128Colm0))
    );
}

#[test]
fn test_aead_lengths() {
    let key = [1u8; 16];
    let nonce = [2u8; 16];
    // empty input is refused, as is a bad key or nonce length
    assert_eq!(
        Aes128Colm0.seal(&key, &nonce, b"", b""),
        Err(ProtoError::InvalidLength)
    );
    assert_eq!(
        Aes128Colm0.seal(&key[..15], &nonce, b"", b"x"),
        Err(ProtoError::InvalidLength)
    );
    // a ciphertext shorter than the tag cannot open
    assert_eq!(
        Aes128Colm0.open(&key, &nonce, b"", &[0u8; 16]),
        Err(ProtoError::InvalidLength)
    );
}
