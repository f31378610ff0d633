use ene::alg::{Encrypt, KeyExchange, Protocol, Signature};
use ene::error::{BadValue, ParseError, ProtoError};
use ene::format::{
    decode_message, decode_public_key, encode_message, encode_public_key, Envelope, Meta, Short,
    Version,
};
use ene::key::{ed25519, ristrettodh};

fn empty_meta() -> Meta {
    Meta {
        s: (
            b"alice@core.ene".to_vec(),
            ene::key::PublicKey {
                ed25519: None,
                ristrettodh: None,
            },
        ),
        r: None,
    }
}

#[test]
fn test_envelope() {
    let message = "message";
    let m: ene::format::Message =
        Envelope::from((empty_meta(), Protocol::Sonly(Signature::Ed25519), message.as_bytes().to_vec()));
    let data = encode_message(&m);
    let Envelope(_, v, (_, _, message2)) = decode_message(&data).unwrap();
    assert_eq!(v, Version::default());
    assert_eq!(message2, message.as_bytes());
}

#[test]
fn test_envelope_mismatch() {
    // a public-key envelope is rejected by the message decoder, and a
    // message envelope by the public-key decoder
    let pk_env: ene::format::PublicKey = Envelope::from((
        b"alice@core.ene".to_vec(),
        ene::key::PublicKey {
            ed25519: None,
            ristrettodh: None,
        },
    ));
    let pk_bytes = encode_public_key(&pk_env);
    assert!(decode_message(&pk_bytes).is_none());

    let msg_env: ene::format::Message = Envelope::from((
        empty_meta(),
        Protocol::Sonly(Signature::Ed25519),
        b"message".to_vec(),
    ));
    let msg_bytes = encode_message(&msg_env);
    assert!(decode_public_key(&msg_bytes).is_none());
    assert!(ene::format::decode_private_key(&msg_bytes).is_none());
}

#[test]
fn test_version_mismatch() {
    let msg_env: ene::format::Message = Envelope::from((
        empty_meta(),
        Protocol::Sonly(Signature::Ed25519),
        b"message".to_vec(),
    ));
    let mut bytes = encode_message(&msg_env);
    assert!(decode_message(&bytes).is_some());
    // the version field sits right after the six magic bytes
    bytes[7] ^= 0x01;
    assert!(decode_message(&bytes).is_none());
}

#[test]
fn test_protocol_parse() {
    assert_eq!(
        Protocol::Ooake(KeyExchange::RistrettoDH, Encrypt::Aes128Colm0),
        Protocol::parse(b"ooake-ristrettodh-aes128colm0").unwrap()
    );

    assert!(Protocol::parse(b"ooake-ristrettodh").is_err());
    assert!(Protocol::parse(b"ooake-kyber-aes128colm0").is_err());
}

#[test]
fn test_protocol_names() {
    // every registry name round-trips through its canonical spelling
    let all = [
        Protocol::Sonly(Signature::Ed25519),
        Protocol::Ooake(KeyExchange::RistrettoDH, Encrypt::Aes128Colm0),
        Protocol::Sigae(false, Signature::Ed25519, KeyExchange::RistrettoDH, Encrypt::Aes128Colm0),
        Protocol::Sigae(true, Signature::Ed25519, KeyExchange::RistrettoDH, Encrypt::Aes128Colm0),
    ];
    for p in all {
        let name = p.name();
        assert_eq!(Protocol::parse(&name).unwrap(), p);
    }
    assert_eq!(
        Protocol::parse(&Protocol::default_name()).unwrap(),
        Protocol::Ooake(KeyExchange::RistrettoDH, Encrypt::Aes128Colm0)
    );
    assert_eq!(
        Protocol::parse(b"sigae+-ed25519-ristrettodh-aes128colm0").unwrap(),
        Protocol::Sigae(true, Signature::Ed25519, KeyExchange::RistrettoDH, Encrypt::Aes128Colm0)
    );
    // an unknown leading token, a known-but-unusable combination, and a
    // truncated name give the three parse errors
    assert_eq!(Protocol::parse(b"xxx-ed25519"), Err(ParseError::Unknown));
    assert_eq!(
        Protocol::parse(b"ooake-kyber-norxmrs"),
        Err(ParseError::NotAvailable)
    );
    assert_eq!(Protocol::parse(b"sonly"), Err(ParseError::UnexpectedEnd));
}

#[test]
fn test_packing() {
    // a key's canonical byte form decodes back to the key
    let sk = ristrettodh::SecretKey::generate().unwrap();
    let pk = ristrettodh::PublicKey::from_secret(&sk);
    let bytes = pk.read_bytes();
    let pk2 = ristrettodh::PublicKey::from_bytes(&bytes).unwrap();
    assert_eq!(pk2.read_bytes(), bytes);

    let esk = ed25519::SecretKey::generate().unwrap();
    let epk = ed25519::PublicKey::from_secret(&esk);
    let ebytes = epk.read_bytes();
    let epk2 = ed25519::PublicKey::from_bytes(&ebytes).unwrap();
    assert_eq!(epk2.read_bytes(), ebytes);

    // an all-zero value is a structural error, a wrong length a length
    // error, and a non-point a value error
    assert_eq!(
        ristrettodh::PublicKey::from_bytes(&[0u8; 32]),
        Err(ProtoError::InvalidValue(BadValue::ZeroValue))
    );
    assert_eq!(
        ristrettodh::PublicKey::from_bytes(&[1u8; 31]),
        Err(ProtoError::InvalidLength)
    );
    assert_eq!(
        ristrettodh::PublicKey::from_bytes(&[0xFFu8; 32]),
        Err(ProtoError::InvalidValue(BadValue::NotOnCurve))
    );
    assert_eq!(
        ed25519::PublicKey::from_bytes(&[0u8; 32]),
        Err(ProtoError::InvalidValue(BadValue::ZeroValue))
    );
    assert_eq!(
        ed25519::PublicKey::from_bytes(&[1u8; 33]),
        Err(ProtoError::InvalidLength)
    );
    let mut sig_bytes = vec![7u8; 64];
    let sig = ed25519::Signature::from_bytes(&sig_bytes).unwrap();
    assert_eq!(sig.read_bytes(), sig_bytes);
    for h in &mut sig_bytes[0..32] {
        *h = 0;
    }
    assert_eq!(
        ed25519::Signature::from_bytes(&sig_bytes),
        Err(ProtoError::InvalidValue(BadValue::ZeroValue))
    );
    assert_eq!(
        ed25519::Signature::from_bytes(&[7u8; 63]),
        Err(ProtoError::InvalidLength)
    );
}

#[test]
fn test_short_fingerprint() {
    // the same byte form always gives the same fingerprint; distinct
    // keys give distinct fingerprints
    let sk = ristrettodh::SecretKey::generate().unwrap();
    let pk = ristrettodh::PublicKey::from_secret(&sk);
    let f1 = Short::of_bytes(&pk.read_bytes());
    let f2 = Short::of_bytes(&pk.read_bytes());
    assert_eq!(f1, f2);

    let sk2 = ristrettodh::SecretKey::generate().unwrap();
    let pk2 = ristrettodh::PublicKey::from_secret(&sk2);
    assert_ne!(pk.read_bytes(), pk2.read_bytes());
    assert_ne!(f1, Short::of_bytes(&pk2.read_bytes()));
}

#[test]
fn test_sha3_512_known_answer() {
    // the SHA3-512 digest of the empty string
    let expected: [u8; 64] = [
        0xa6, 0x9f, 0x73, 0xcc, 0xa2, 0x3a, 0x9a, 0xc5, 0xc8, 0xb5, 0x67, 0xdc, 0x18, 0x5a,
        0x75, 0x6e, 0x97, 0xc9, 0x82, 0x16, 0x4f, 0xe2, 0x58, 0x59, 0xe0, 0xd1, 0xdc, 0xc1,
        0x47, 0x5c, 0x80, 0xa6, 0x15, 0xb2, 0x12, 0x3a, 0xf1, 0xf5, 0xf9, 0x4c, 0x11, 0xe3,
        0xe9, 0x40, 0x2c, 0x3a, 0xc5, 0x58, 0xf5, 0x00, 0x19, 0x9d, 0x95, 0xb6, 0xd3, 0xe3,
        0x01, 0x75, 0x85, 0x86, 0x28, 0x1d, 0xcd, 0x26,
    ];
    assert_eq!(ene::hashes::sha3_512(b""), expected.to_vec());
}
