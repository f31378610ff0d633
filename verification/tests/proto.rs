use ene::key::{ed25519, ristrettodh};
use ene::proto::{ooake, sigae, sonly};
use rand::distributions::Alphanumeric;
use rand::{thread_rng, Rng};

fn alnum(n: usize) -> String {
    thread_rng()
        .sample_iter(&Alphanumeric)
        .take(n)
        .map(char::from)
        .collect()
}

#[test]
fn test_proto_ooake() {
    let m = alnum(1024);
    let aad = alnum(42);

    let a_name = "alice@oake.ene";
    let a_sk = ristrettodh::SecretKey::generate().unwrap();
    let a_pk = ristrettodh::PublicKey::from_secret(&a_sk);

    let b_name = "bob@oake.ene";
    let b_sk = ristrettodh::SecretKey::generate().unwrap();
    let b_pk = ristrettodh::PublicKey::from_secret(&b_sk);

    let (msg, c, _) = ooake::send(
        a_name.as_bytes(),
        &a_sk,
        b_name.as_bytes(),
        &b_pk,
        aad.as_bytes(),
        m.as_bytes(),
    )
    .unwrap();

    let p = ooake::recv(
        b_name.as_bytes(),
        &b_sk,
        a_name.as_bytes(),
        &a_pk,
        &msg,
        aad.as_bytes(),
        &c,
    )
    .unwrap();

    assert_eq!(p, m.as_bytes());
}

#[test]
fn test_proto_sigae() {
    let aad = alnum(42);
    let m = alnum(1024);

    let a_name = "alice@oake.ene";
    let a_sk = ed25519::SecretKey::generate().unwrap();
    let a_pk = ed25519::PublicKey::from_secret(&a_sk);

    let b_name = "bob@oake.ene";
    let b_dhsk = ristrettodh::SecretKey::generate().unwrap();
    let b_dhpk = ristrettodh::PublicKey::from_secret(&b_dhsk);

    let (msg, c, _) = sigae::send(
        a_name.as_bytes(),
        &a_sk,
        b_name.as_bytes(),
        &b_dhpk,
        aad.as_bytes(),
        m.as_bytes(),
        false,
    )
    .unwrap();

    let p = sigae::recv(
        b_name.as_bytes(),
        &b_dhsk,
        a_name.as_bytes(),
        &a_pk,
        &msg,
        aad.as_bytes(),
        &c,
        false,
    )
    .unwrap();

    assert_eq!(p, m.as_bytes());
}

#[test]
fn test_proto_sonly() {
    let m = alnum(1024);
    let aad = alnum(42);

    let a_name = "alice@oake.ene";
    let a_sk = ed25519::SecretKey::generate().unwrap();
    let a_pk = ed25519::PublicKey::from_secret(&a_sk);

    let msg = sonly::send(a_name.as_bytes(), &a_sk, aad.as_bytes(), m.as_bytes());

    sonly::recv(
        a_name.as_bytes(),
        &a_pk,
        &msg,
        aad.as_bytes(),
        m.as_bytes(),
    )
    .unwrap();
}

#[test]
fn test_sonly_rejects_changed_message() {
    let a_sk = ed25519::SecretKey::generate().unwrap();
    let a_pk = ed25519::PublicKey::from_secret(&a_sk);
    let sig = sonly::send(b"alice", &a_sk, b"aad", b"hello");
    assert!(sonly::recv(b"alice", &a_pk, &sig, b"aad", b"hello").is_ok());
    assert!(sonly::recv(b"alice", &a_pk, &sig, b"aad", b"hello!").is_err());
    assert!(sonly::recv(b"alice", &a_pk, &sig, b"other aad", b"hello").is_err());
    assert!(sonly::recv(b"bob", &a_pk, &sig, b"aad", b"hello").is_err());
}

#[test]
fn test_key_exchange() {
    // both sides of a fresh exchange derive the same shared buffer
    let b_sk = ristrettodh::SecretKey::generate().unwrap();
    let (ka, kb) = ristrettodh::exchange_agreement(&b_sk).unwrap();
    assert_eq!(ka, kb);

    let b_pk = ristrettodh::PublicKey::from_secret(&b_sk);
    let (m, k1, _) = ristrettodh::RistrettoDH::exchange_to(&b_pk).unwrap();
    let k2 = ristrettodh::RistrettoDH::exchange_from(&b_sk, &m);
    assert_eq!(k1, k2);
    assert_eq!(k1.len(), 64);
}

#[test]
fn test_engine_roundtrip_laws() {
    // the verified end-to-end round trips, exercised on concrete values
    let a_dh = ristrettodh::SecretKey::generate().unwrap();
    let b_dh = ristrettodh::SecretKey::generate().unwrap();
    let p = ooake::send_then_recv(b"alice", &a_dh, b"bob", &b_dh, b"aad", b"payload").unwrap();
    assert_eq!(p, b"payload");

    let a_sig = ed25519::SecretKey::generate().unwrap();
    let p = sigae::send_then_recv(b"alice", &a_sig, b"bob", &b_dh, b"aad", b"payload", true)
        .unwrap();
    assert_eq!(p, b"payload");

    sonly::send_then_recv(b"alice", &a_sig, b"aad", b"payload").unwrap();
}
