use ene::alg::{Encrypt, KeyExchange, Protocol, Signature};
use ene::error::{Alg, Error, ProtoError};
use ene::format::{Envelope, Version};
use ene::Builder;
use rand::distributions::Alphanumeric;
use rand::{thread_rng, Rng};

fn alnum(n: usize) -> String {
    thread_rng()
        .sample_iter(&Alphanumeric)
        .take(n)
        .map(char::from)
        .collect()
}

#[test]
fn test_ooake_dhaes128colm0() {
    let alice = "alice@core.ene";
    let alice_sk = Builder::default().generate(alice.as_bytes()).unwrap();
    let alice_pk = alice_sk.as_secret().to_public();

    let bob = "bob@core.ene";
    let bob_sk = Builder::default().generate(bob.as_bytes()).unwrap();
    let bob_pk = bob_sk.as_secret().to_public();

    let title = "Alice Send to Bob";
    let msg = alnum(2014);
    let proto = Protocol::Ooake(KeyExchange::RistrettoDH, Encrypt::Aes128Colm0);

    let enemsg = alice_sk
        .and(bob.as_bytes(), &bob_pk)
        .sendto(&proto, title.as_bytes(), msg.as_bytes())
        .unwrap();

    let Envelope(_, v, (_, proto, enemsg)) = enemsg;
    assert_eq!(v, Version::default());
    let msg2 = bob_sk
        .and(alice.as_bytes(), &alice_pk)
        .recvfrom(&proto, title.as_bytes(), &enemsg, None)
        .unwrap();

    assert_eq!(msg2, msg.as_bytes());
}

#[test]
fn test_sigae_ed25519dhaes128colm0() {
    let alice = "alice@core.ene";
    let alice_sk = Builder::default().generate(alice.as_bytes()).unwrap();
    let alice_pk = alice_sk.as_secret().to_public();

    let bob = "bob@core.ene";
    let bob_sk = Builder::default().generate(bob.as_bytes()).unwrap();
    let bob_pk = bob_sk.as_secret().to_public();

    let title = "Alice Send to Bob";
    let msg = alnum(2014);
    let proto = Protocol::Sigae(
        false,
        Signature::Ed25519,
        KeyExchange::RistrettoDH,
        Encrypt::Aes128Colm0,
    );

    let enemsg = alice_sk
        .and(bob.as_bytes(), &bob_pk)
        .sendto(&proto, title.as_bytes(), msg.as_bytes())
        .unwrap();

    let Envelope(_, v, (_, proto, enemsg)) = enemsg;
    assert_eq!(v, Version::default());
    let msg2 = bob_sk
        .and(alice.as_bytes(), &alice_pk)
        .recvfrom(&proto, title.as_bytes(), &enemsg, None)
        .unwrap();

    assert_eq!(msg2, msg.as_bytes());
}

#[test]
fn test_sigae_tamper() {
    // flipping any ciphertext byte of a SIGAE message makes receiving fail
    let alice_sk = Builder::default().generate(b"alice@core.ene").unwrap();
    let alice_pk = alice_sk.as_secret().to_public();
    let bob_sk = Builder::default().generate(b"bob@core.ene").unwrap();
    let bob_pk = bob_sk.as_secret().to_public();

    let proto = Protocol::Sigae(
        false,
        Signature::Ed25519,
        KeyExchange::RistrettoDH,
        Encrypt::Aes128Colm0,
    );
    let env = alice_sk
        .and(b"bob@core.ene", &bob_pk)
        .sendto(&proto, b"aad", b"secret message")
        .unwrap();
    let Envelope(_, _, (_, _, payload)) = env;

    let bob_and = bob_sk.and(b"alice@core.ene", &alice_pk);
    assert!(bob_and.recvfrom(&proto, b"aad", &payload, None).is_ok());
    for pos in [payload.len() - 1, payload.len() / 2] {
        let mut bad = payload.clone();
        bad[pos] ^= 1;
        assert!(bob_and.recvfrom(&proto, b"aad", &bad, None).is_err());
    }
}

#[test]
fn test_sigae_plus_binds_aad() {
    // with or without the binding flag, changing the associated data at
    // the receiver always fails
    let alice_sk = Builder::default().generate(b"alice@core.ene").unwrap();
    let alice_pk = alice_sk.as_secret().to_public();
    let bob_sk = Builder::default().generate(b"bob@core.ene").unwrap();
    let bob_pk = bob_sk.as_secret().to_public();
    let bob_and = bob_sk.and(b"alice@core.ene", &alice_pk);

    for flag in [true, false] {
        let proto = Protocol::Sigae(
            flag,
            Signature::Ed25519,
            KeyExchange::RistrettoDH,
            Encrypt::Aes128Colm0,
        );
        let env = alice_sk
            .and(b"bob@core.ene", &bob_pk)
            .sendto(&proto, b"the aad", b"plaintext")
            .unwrap();
        let Envelope(_, _, (_, _, payload)) = env;
        assert!(bob_and.recvfrom(&proto, b"the aad", &payload, None).is_ok());
        assert!(bob_and
            .recvfrom(&proto, b"another aad", &payload, None)
            .is_err());
    }
}

#[test]
fn test_sonly_empty_plaintext() {
    // signature-only permits an empty plaintext; receiving yields empty
    // bytes on a valid signature and fails otherwise
    let alice_sk = Builder::default().generate(b"alice@core.ene").unwrap();
    let alice_pk = alice_sk.as_secret().to_public();
    let bob_sk = Builder::default().generate(b"bob@core.ene").unwrap();
    let bob_pk = bob_sk.as_secret().to_public();

    let proto = Protocol::Sonly(Signature::Ed25519);
    let env = alice_sk
        .and(b"bob@core.ene", &bob_pk)
        .sendto(&proto, b"aad", b"")
        .unwrap();
    let Envelope(_, _, (_, _, payload)) = env;

    let bob_and = bob_sk.and(b"alice@core.ene", &alice_pk);
    let out = bob_and.recvfrom(&proto, b"aad", &payload, None).unwrap();
    assert_eq!(out, Vec::<u8>::new());
    assert!(bob_and
        .recvfrom(&proto, b"wrong aad", &payload, None)
        .is_err());
    assert!(bob_and
        .recvfrom(&proto, b"aad", &payload, Some(b"unexpected"))
        .is_err());
}

#[test]
fn test_unsupported_slot() {
    // a protocol that demands a slot the key set lacks is refused
    let mut only_sig = Builder::empty();
    only_sig.ed25519 = true;
    let alice_sk = only_sig.generate(b"alice@core.ene").unwrap();
    let bob_sk = Builder::default().generate(b"bob@core.ene").unwrap();
    let bob_pk = bob_sk.as_secret().to_public();

    let proto = Protocol::Ooake(KeyExchange::RistrettoDH, Encrypt::Aes128Colm0);
    let r = alice_sk
        .and(b"bob@core.ene", &bob_pk)
        .sendto(&proto, b"", b"hello");
    assert!(matches!(r, Err(Error::Unsupported(Alg::RistrettoDH))));

    let kyber_proto = Protocol::Sigae(
        false,
        Signature::Ed25519,
        KeyExchange::Kyber,
        Encrypt::Aes128Colm0,
    );
    let r = alice_sk
        .and(b"bob@core.ene", &bob_pk)
        .sendto(&kyber_proto, b"", b"hello");
    assert!(matches!(r, Err(Error::Unsupported(Alg::Kyber))));

    // an empty plaintext is refused by the encrypting protocols
    let alice_full = Builder::default().generate(b"alice@core.ene").unwrap();
    let r = alice_full
        .and(b"bob@core.ene", &bob_pk)
        .sendto(&proto, b"", b"");
    assert!(matches!(r, Err(Error::Proto(ProtoError::InvalidLength))));
}

#[test]
fn test_contains() {
    let a = Builder::default().generate(b"a").unwrap();
    let b = Builder::default().generate(b"b").unwrap();
    let a_pk = a.as_secret().to_public();
    let b_pk = b.as_secret().to_public();

    let (same, mismatches) = a_pk.contains(&a_pk);
    assert!(same);
    assert!(mismatches.is_empty());

    let (same, mismatches) = a_pk.contains(&b_pk);
    assert!(!same);
    assert_eq!(mismatches.len(), 2);

    // absent slots never count as mismatches
    let partial = ene::key::PublicKey {
        ed25519: None,
        ristrettodh: None,
    };
    let (same, _) = a_pk.contains(&partial);
    assert!(same);

    let a_short = a_pk.to_short();
    let b_short = b_pk.to_short();
    let (same, _) = a_short.contains(&a_short);
    assert!(same);
    let (same, mismatches) = a_short.contains(&b_short);
    assert!(!same);
    assert_eq!(mismatches.len(), 2);
}

#[test]
fn test_builder_parse() {
    let b = Builder::parse(b"ed25519,ristrettodh").unwrap();
    assert!(b.ed25519 && b.ristrettodh);
    let b = Builder::parse(b"ed25519").unwrap();
    assert!(b.ed25519 && !b.ristrettodh);
    // surrounding whitespace and letter case are forgiven
    let b = Builder::parse(b"ed25519, ristrettodh").unwrap();
    assert!(b.ed25519 && b.ristrettodh);
    let b = Builder::parse(b" ED25519 ").unwrap();
    assert!(b.ed25519 && !b.ristrettodh);
    assert!(Builder::parse(b"kyber").is_err());
    assert!(Builder::parse(b"").is_err());
}

#[test]
fn test_sendto_recvfrom_law() {
    // the verified facade round trip, exercised on every protocol
    let alice = Builder::default().generate(b"alice@core.ene").unwrap();
    let bob = Builder::default().generate(b"bob@core.ene").unwrap();

    let protos = [
        Protocol::Sonly(Signature::Ed25519),
        Protocol::Ooake(KeyExchange::RistrettoDH, Encrypt::Aes128Colm0),
        Protocol::Sigae(false, Signature::Ed25519, KeyExchange::RistrettoDH, Encrypt::Aes128Colm0),
        Protocol::Sigae(true, Signature::Ed25519, KeyExchange::RistrettoDH, Encrypt::Aes128Colm0),
    ];
    for proto in protos {
        let out = ene::sendto_then_recvfrom(&alice, &bob, &proto, b"aad", b"a round trip")
            .unwrap();
        if matches!(proto, Protocol::Sonly(_)) {
            assert_eq!(out, b"");
        } else {
            assert_eq!(out, b"a round trip");
        }
    }
}

#[test]
fn test_wrong_recipient_fails() {
    // a third party without the recipient's secret key cannot open the
    // envelope under either encrypting protocol
    let alice_sk = Builder::default().generate(b"alice@core.ene").unwrap();
    let alice_pk = alice_sk.as_secret().to_public();
    let bob_sk = Builder::default().generate(b"bob@core.ene").unwrap();
    let bob_pk = bob_sk.as_secret().to_public();
    let eve_sk = Builder::default().generate(b"eve@core.ene").unwrap();

    for proto in [
        Protocol::Ooake(KeyExchange::RistrettoDH, Encrypt::Aes128Colm0),
        Protocol::Sigae(false, Signature::Ed25519, KeyExchange::RistrettoDH, Encrypt::Aes128Colm0),
    ] {
        let env = alice_sk
            .and(b"bob@core.ene", &bob_pk)
            .sendto(&proto, b"aad", b"for bob only")
            .unwrap();
        let Envelope(_, _, (_, _, payload)) = env;
        assert!(eve_sk
            .and(b"alice@core.ene", &alice_pk)
            .recvfrom(&proto, b"aad", &payload, None)
            .is_err());
        assert!(bob_sk
            .and(b"alice@core.ene", &alice_pk)
            .recvfrom(&proto, b"aad", &payload, None)
            .is_ok());
    }
}
