//! The envelope format: type tags, version, fingerprints, metadata, and
//! the deterministic binary codec for the three envelope kinds.
//!
//! The encoding is this library's own compact scheme; envelopes are
//! interchangeable only among implementations of this same encoding.

use vstd::prelude::*;
use crate::hashes::sip128;
use crate::hashes::sip128_of;
use crate::wire::spec_enc_bytes;
use crate::wire::spec_dec_bytes;
use crate::wire::spec_dec_u8;
use crate::wire::spec_be128;
use crate::wire::spec_u128_of;
use crate::wire::spec_be16;
use crate::wire::spec_u16_of;
use crate::wire::enc_bytes;
use crate::wire::dec_bytes;
use crate::wire::dec_u8;
use crate::wire::enc_be128;
use crate::wire::dec_be128;
use crate::wire::enc_be16;
use crate::wire::dec_be16;
use crate::wire::lemma_dec_bytes_roundtrip;
use crate::wire::lemma_be128_roundtrip;
use crate::wire::lemma_be16_roundtrip;

verus! {

broadcast use crate::wire::lemma_be16_len, crate::wire::lemma_be64_len, crate::wire::lemma_be128_len;

/// The current major version; envelopes carrying another value are
/// rejected.
pub const VERSION: u16 = 1;

/// A marker type naming an envelope kind; the magic string is `ENE`
/// followed by the kind's tag.
pub trait Type {
    /// The full magic bytes of this kind.
    spec fn spec_magic() -> Seq<u8>;
}

/// The public-key envelope tag (`ENEPK`).
pub struct PK;

/// The sealed-private-key envelope tag (`ENESK`).
pub struct SK;

/// The message envelope tag (`ENEMSG`).
pub struct MSG;

/// The magic bytes `ENEPK`.
pub open spec fn magic_pk() -> Seq<u8> {
    seq![69u8, 78u8, 69u8, 80u8, 75u8]
}

/// The magic bytes `ENESK`.
pub open spec fn magic_sk() -> Seq<u8> {
    seq![69u8, 78u8, 69u8, 83u8, 75u8]
}

/// The magic bytes `ENEMSG`.
pub open spec fn magic_msg() -> Seq<u8> {
    seq![69u8, 78u8, 69u8, 77u8, 83u8, 71u8]
}

impl Type for PK {
    open spec fn spec_magic() -> Seq<u8> {
        magic_pk()
    }
}

impl Type for SK {
    open spec fn spec_magic() -> Seq<u8> {
        magic_sk()
    }
}

impl Type for MSG {
    open spec fn spec_magic() -> Seq<u8> {
        magic_msg()
    }
}

/// The magic marker of an envelope of kind `T`.
pub struct ENE<T: Type>(pub core::marker::PhantomData<T>);

/// The envelope version field.
#[derive(Clone, Copy, Debug, PartialEq, Eq, Structural)]
pub struct Version(pub u16);

impl Default for Version {
    /// The current major version.
    fn default() -> (r: Version)
        ensures
            r == Version(VERSION),
    {
        Version(VERSION)
    }
}

/// An envelope: magic marker, version, payload.
pub struct Envelope<T: Type, V>(pub ENE<T>, pub Version, pub V);

impl<T: Type, V> Envelope<T, V> {
    /// Wraps a payload under the current version.
    pub fn from(value: V) -> (r: Envelope<T, V>)
        ensures
            r.1 == Version(VERSION),
            r.2 == value,
    {
        Envelope(ENE(core::marker::PhantomData), Version(VERSION), value)
    }
}

/// A 128-bit public-key fingerprint: the SipHash-128 hash of a key's
/// canonical byte form under a fixed key.
#[derive(Clone, Copy, Debug, PartialEq, Eq, Structural)]
pub struct Short(pub u128);

/// The fingerprint of a byte form.
pub open spec fn spec_short(b: Seq<u8>) -> Short {
    Short(sip128_of(b))
}

impl Short {
    /// Fingerprints a canonical byte form.
    pub fn of_bytes(b: &[u8]) -> (r: Short)
        ensures
            r == spec_short(b@),
    {
        Short(sip128(b))
    }
}

/// Envelope metadata: the sender's identifier and public-key subset, and,
/// for protocols that address a recipient, the recipient's identifier and
/// fingerprint subset.
pub struct Meta {
    /// Sender identifier and public keys.
    pub s: (Vec<u8>, crate::key::PublicKey),
    /// Receiver identifier and short public keys.
    pub r: Option<(Vec<u8>, crate::key::ShortPublicKey)>,
}


// ---------------------------------------------------------------------
// Optional fields
// ---------------------------------------------------------------------

/// An optional byte string: absent is one zero byte, present is a one
/// byte followed by the length-prefixed bytes.
pub open spec fn spec_enc_opt_bytes(o: Option<Seq<u8>>) -> Seq<u8> {
    match o {
        None => seq![0u8],
        Some(b) => seq![1u8] + spec_enc_bytes(b),
    }
}

/// Spec mirror of `dec_opt_bytes`.
pub open spec fn spec_dec_opt_bytes(s: Seq<u8>, pos: int) -> Option<(Option<Seq<u8>>, int)> {
    match spec_dec_u8(s, pos) {
        None => None,
        Some((d, p)) => {
            if d == 0 {
                Some((None, p))
            } else if d == 1 {
                match spec_dec_bytes(s, p) {
                    None => None,
                    Some((b, p2)) => Some((Some(b), p2)),
                }
            } else {
                None
            }
        },
    }
}

pub fn enc_opt_bytes(out: &mut Vec<u8>, o: Option<&Vec<u8>>)
    ensures
        final(out)@ == old(out)@ + spec_enc_opt_bytes(
            match o {
                Some(v) => Some(v@),
                None => None,
            },
        ),
{
    match o {
        None => {
            out.push(0u8);
            proof {
                assert(out@ =~= old(out)@ + spec_enc_opt_bytes(None));
            }
        },
        Some(v) => {
            out.push(1u8);
            enc_bytes(out, v.as_slice());
            proof {
                assert(out@ =~= old(out)@ + spec_enc_opt_bytes(Some(v@)));
            }
        },
    }
}

pub fn dec_opt_bytes(s: &[u8], pos: usize) -> (r: Option<(Option<Vec<u8>>, usize)>)
    requires
        pos <= s@.len(),
    ensures
        match r {
            Some(v) => {
                &&& spec_dec_opt_bytes(s@, pos as int) == Some(
                    (
                        match v.0 {
                            Some(ref b) => Some(b@),
                            None => None,
                        },
                        v.1 as int,
                    ),
                )
                &&& pos < v.1 <= s@.len()
            },
            None => spec_dec_opt_bytes(s@, pos as int) is None,
        },
{
    let (d, p) = match dec_u8(s, pos) {
        Some(v) => v,
        None => {
            return None;
        },
    };
    if d == 0 {
        Some((None, p))
    } else if d == 1 {
        match dec_bytes(s, p) {
            Some((b, p2)) => Some((Some(b), p2)),
            None => None,
        }
    } else {
        None
    }
}

/// Decoding an encoded optional byte string gives it back.
pub proof fn lemma_dec_opt_bytes_roundtrip(s: Seq<u8>, pos: int, o: Option<Seq<u8>>)
    requires
        0 <= pos,
        o is Some ==> o->0.len() <= u64::MAX,
        pos + spec_enc_opt_bytes(o).len() <= s.len(),
        s.subrange(pos, pos + spec_enc_opt_bytes(o).len()) == spec_enc_opt_bytes(o),
    ensures
        spec_dec_opt_bytes(s, pos) == Some((o, pos + spec_enc_opt_bytes(o).len())),
{
    let w = spec_enc_opt_bytes(o);
    assert(s[pos] == w[0]);
    match o {
        None => {
            assert(w[0] == 0u8);
        },
        Some(b) => {
            assert(w[0] == 1u8);
            assert(s.subrange(pos + 1, pos + 1 + spec_enc_bytes(b).len()) =~= w.subrange(
                1,
                1 + spec_enc_bytes(b).len() as int,
            ));
            assert(w.subrange(1, 1 + spec_enc_bytes(b).len() as int) =~= spec_enc_bytes(b));
            lemma_dec_bytes_roundtrip(s, pos + 1, b);
        },
    }
}

/// An optional fingerprint: absent is one zero byte, present is a one
/// byte followed by sixteen big-endian value bytes.
pub open spec fn spec_enc_opt_short(o: Option<Short>) -> Seq<u8> {
    match o {
        None => seq![0u8],
        Some(v) => seq![1u8] + spec_be128(v.0),
    }
}

/// Spec mirror of `dec_opt_short`.
pub open spec fn spec_dec_opt_short(s: Seq<u8>, pos: int) -> Option<(Option<Short>, int)> {
    match spec_dec_u8(s, pos) {
        None => None,
        Some((d, p)) => {
            if d == 0 {
                Some((None, p))
            } else if d == 1 {
                if p + 16 <= s.len() {
                    Some((Some(Short(spec_u128_of(s.subrange(p, p + 16)))), p + 16))
                } else {
                    None
                }
            } else {
                None
            }
        },
    }
}

pub fn enc_opt_short(out: &mut Vec<u8>, o: Option<&Short>)
    ensures
        final(out)@ == old(out)@ + spec_enc_opt_short(
            match o {
                Some(v) => Some(*v),
                None => None,
            },
        ),
{
    match o {
        None => {
            out.push(0u8);
            proof {
                assert(out@ =~= old(out)@ + spec_enc_opt_short(None));
            }
        },
        Some(v) => {
            out.push(1u8);
            enc_be128(out, v.0);
            proof {
                assert(out@ =~= old(out)@ + spec_enc_opt_short(Some(*v)));
            }
        },
    }
}

pub fn dec_opt_short(s: &[u8], pos: usize) -> (r: Option<(Option<Short>, usize)>)
    requires
        pos <= s@.len(),
    ensures
        match r {
            Some(v) => {
                &&& spec_dec_opt_short(s@, pos as int) == Some((v.0, v.1 as int))
                &&& pos < v.1 <= s@.len()
            },
            None => spec_dec_opt_short(s@, pos as int) is None,
        },
{
    let (d, p) = match dec_u8(s, pos) {
        Some(v) => v,
        None => {
            return None;
        },
    };
    if d == 0 {
        Some((None, p))
    } else if d == 1 {
        if s.len() - p >= 16 {
            let v = dec_be128(s, p);
            Some((Some(Short(v)), p + 16))
        } else {
            None
        }
    } else {
        None
    }
}

/// Decoding an encoded optional fingerprint gives it back.
pub proof fn lemma_dec_opt_short_roundtrip(s: Seq<u8>, pos: int, o: Option<Short>)
    requires
        0 <= pos,
        pos + spec_enc_opt_short(o).len() <= s.len(),
        s.subrange(pos, pos + spec_enc_opt_short(o).len()) == spec_enc_opt_short(o),
    ensures
        spec_dec_opt_short(s, pos) == Some((o, pos + spec_enc_opt_short(o).len())),
{
    let w = spec_enc_opt_short(o);
    assert(s[pos] == w[0]);
    match o {
        None => {
            assert(w[0] == 0u8);
        },
        Some(v) => {
            assert(w[0] == 1u8);
            assert(s.subrange(pos + 1, pos + 17) =~= w.subrange(1, 17));
            assert(w.subrange(1, 17) =~= spec_be128(v.0));
            lemma_be128_roundtrip(v.0);
        },
    }
}


// ---------------------------------------------------------------------
// Key sets
// ---------------------------------------------------------------------

/// A public key set: one optional byte string per slot.
pub open spec fn spec_enc_pk_set(ed: Option<Seq<u8>>, dh: Option<Seq<u8>>) -> Seq<u8> {
    spec_enc_opt_bytes(ed) + spec_enc_opt_bytes(dh)
}

/// Spec mirror of `dec_pk_set`: decoding also validates each present
/// slot's byte form.
pub open spec fn spec_dec_pk_set(s: Seq<u8>, pos: int) -> Option<
    ((Option<Seq<u8>>, Option<Seq<u8>>), int),
> {
    match spec_dec_opt_bytes(s, pos) {
        None => None,
        Some((ed, p1)) => {
            if ed is Some && !crate::key::ed25519::valid_pk_bytes(ed->0) {
                None
            } else {
                match spec_dec_opt_bytes(s, p1) {
                    None => None,
                    Some((dh, p2)) => {
                        if dh is Some && !crate::key::ristrettodh::valid_point_bytes(dh->0) {
                            None
                        } else {
                            Some(((ed, dh), p2))
                        }
                    },
                }
            }
        },
    }
}

pub fn enc_pk_set(out: &mut Vec<u8>, pk: &crate::key::PublicKey)
    ensures
        final(out)@ == old(out)@ + spec_enc_pk_set(pk.spec_ed25519(), pk.spec_ristrettodh()),
{
    let ed = match &pk.ed25519 {
        Some(k) => Some(&k.bytes),
        None => None,
    };
    enc_opt_bytes(out, ed);
    let dh = match &pk.ristrettodh {
        Some(k) => Some(&k.bytes),
        None => None,
    };
    enc_opt_bytes(out, dh);
    proof {
        assert(out@ =~= old(out)@ + spec_enc_pk_set(pk.spec_ed25519(), pk.spec_ristrettodh()));
    }
}

pub fn dec_pk_set(s: &[u8], pos: usize) -> (r: Option<(crate::key::PublicKey, usize)>)
    requires
        pos <= s@.len(),
    ensures
        match r {
            Some(v) => {
                &&& spec_dec_pk_set(s@, pos as int) == Some(
                    ((v.0.spec_ed25519(), v.0.spec_ristrettodh()), v.1 as int),
                )
                &&& v.0.wf()
                &&& pos < v.1 <= s@.len()
            },
            None => spec_dec_pk_set(s@, pos as int) is None,
        },
{
    let (ed_raw, p1) = match dec_opt_bytes(s, pos) {
        Some(v) => v,
        None => {
            return None;
        },
    };
    let ed = match ed_raw {
        None => None,
        Some(b) => {
            match crate::key::ed25519::PublicKey::from_bytes(b.as_slice()) {
                Ok(k) => Some(k),
                Err(_) => {
                    return None;
                },
            }
        },
    };
    let (dh_raw, p2) = match dec_opt_bytes(s, p1) {
        Some(v) => v,
        None => {
            return None;
        },
    };
    let dh = match dh_raw {
        None => None,
        Some(b) => {
            match crate::key::ristrettodh::PublicKey::from_bytes(b.as_slice()) {
                Ok(k) => Some(k),
                Err(_) => {
                    return None;
                },
            }
        },
    };
    Some((crate::key::PublicKey { ed25519: ed, ristrettodh: dh }, p2))
}

/// Decoding an encoded public key set with valid slots gives it back.
pub proof fn lemma_dec_pk_set_roundtrip(s: Seq<u8>, pos: int, ed: Option<Seq<u8>>, dh: Option<
    Seq<u8>,
>)
    requires
        0 <= pos,
        ed is Some ==> crate::key::ed25519::valid_pk_bytes(ed->0),
        dh is Some ==> crate::key::ristrettodh::valid_point_bytes(dh->0),
        pos + spec_enc_pk_set(ed, dh).len() <= s.len(),
        s.subrange(pos, pos + spec_enc_pk_set(ed, dh).len()) == spec_enc_pk_set(ed, dh),
    ensures
        spec_dec_pk_set(s, pos) == Some(((ed, dh), pos + spec_enc_pk_set(ed, dh).len())),
{
    let w = spec_enc_pk_set(ed, dh);
    let l1 = spec_enc_opt_bytes(ed).len() as int;
    let l2 = spec_enc_opt_bytes(dh).len() as int;
    assert(s.subrange(pos, pos + l1) =~= w.subrange(0, l1));
    assert(w.subrange(0, l1) =~= spec_enc_opt_bytes(ed));
    lemma_dec_opt_bytes_roundtrip(s, pos, ed);
    assert(s.subrange(pos + l1, pos + l1 + l2) =~= w.subrange(l1, l1 + l2));
    assert(w.subrange(l1, l1 + l2) =~= spec_enc_opt_bytes(dh));
    lemma_dec_opt_bytes_roundtrip(s, pos + l1, dh);
}

/// A fingerprint set: one optional fingerprint per slot.
pub open spec fn spec_enc_short_set(ed: Option<Short>, dh: Option<Short>) -> Seq<u8> {
    spec_enc_opt_short(ed) + spec_enc_opt_short(dh)
}

/// Spec mirror of `dec_short_set`.
pub open spec fn spec_dec_short_set(s: Seq<u8>, pos: int) -> Option<
    ((Option<Short>, Option<Short>), int),
> {
    match spec_dec_opt_short(s, pos) {
        None => None,
        Some((ed, p1)) => match spec_dec_opt_short(s, p1) {
            None => None,
            Some((dh, p2)) => Some(((ed, dh), p2)),
        },
    }
}

pub fn enc_short_set(out: &mut Vec<u8>, sp: &crate::key::ShortPublicKey)
    ensures
        final(out)@ == old(out)@ + spec_enc_short_set(sp.ed25519, sp.ristrettodh),
{
    let ed = match &sp.ed25519 {
        Some(v) => Some(v),
        None => None,
    };
    enc_opt_short(out, ed);
    let dh = match &sp.ristrettodh {
        Some(v) => Some(v),
        None => None,
    };
    enc_opt_short(out, dh);
    proof {
        assert(out@ =~= old(out)@ + spec_enc_short_set(sp.ed25519, sp.ristrettodh));
    }
}

pub fn dec_short_set(s: &[u8], pos: usize) -> (r: Option<(crate::key::ShortPublicKey, usize)>)
    requires
        pos <= s@.len(),
    ensures
        match r {
            Some(v) => {
                &&& spec_dec_short_set(s@, pos as int) == Some(
                    ((v.0.ed25519, v.0.ristrettodh), v.1 as int),
                )
                &&& pos < v.1 <= s@.len()
            },
            None => spec_dec_short_set(s@, pos as int) is None,
        },
{
    let (ed, p1) = match dec_opt_short(s, pos) {
        Some(v) => v,
        None => {
            return None;
        },
    };
    let (dh, p2) = match dec_opt_short(s, p1) {
        Some(v) => v,
        None => {
            return None;
        },
    };
    Some((crate::key::ShortPublicKey { ed25519: ed, ristrettodh: dh }, p2))
}

/// Decoding an encoded fingerprint set gives it back.
pub proof fn lemma_dec_short_set_roundtrip(s: Seq<u8>, pos: int, ed: Option<Short>, dh: Option<
    Short,
>)
    requires
        0 <= pos,
        pos + spec_enc_short_set(ed, dh).len() <= s.len(),
        s.subrange(pos, pos + spec_enc_short_set(ed, dh).len()) == spec_enc_short_set(ed, dh),
    ensures
        spec_dec_short_set(s, pos) == Some(((ed, dh), pos + spec_enc_short_set(ed, dh).len())),
{
    let w = spec_enc_short_set(ed, dh);
    let l1 = spec_enc_opt_short(ed).len() as int;
    let l2 = spec_enc_opt_short(dh).len() as int;
    assert(s.subrange(pos, pos + l1) =~= w.subrange(0, l1));
    assert(w.subrange(0, l1) =~= spec_enc_opt_short(ed));
    lemma_dec_opt_short_roundtrip(s, pos, ed);
    assert(s.subrange(pos + l1, pos + l1 + l2) =~= w.subrange(l1, l1 + l2));
    assert(w.subrange(l1, l1 + l2) =~= spec_enc_opt_short(dh));
    lemma_dec_opt_short_roundtrip(s, pos + l1, dh);
}

/// A secret key set: one optional secret byte string per slot.  Only the
/// secret halves travel; the public halves are re-derived on decode.
pub open spec fn spec_enc_sk_set(ed: Option<Seq<u8>>, dh: Option<Seq<u8>>) -> Seq<u8> {
    spec_enc_opt_bytes(ed) + spec_enc_opt_bytes(dh)
}

/// Spec mirror of `dec_sk_set`: each present slot must be 32 bytes.
pub open spec fn spec_dec_sk_set(s: Seq<u8>, pos: int) -> Option<
    ((Option<Seq<u8>>, Option<Seq<u8>>), int),
> {
    match spec_dec_opt_bytes(s, pos) {
        None => None,
        Some((ed, p1)) => {
            if ed is Some && ed->0.len() != 32 {
                None
            } else {
                match spec_dec_opt_bytes(s, p1) {
                    None => None,
                    Some((dh, p2)) => {
                        if dh is Some && dh->0.len() != 32 {
                            None
                        } else {
                            Some(((ed, dh), p2))
                        }
                    },
                }
            }
        },
    }
}

pub fn enc_sk_set(out: &mut Vec<u8>, sk: &crate::key::SecretKey)
    ensures
        final(out)@ == old(out)@ + spec_enc_sk_set(sk.spec_ed25519(), sk.spec_ristrettodh()),
{
    let ed = match &sk.ed25519 {
        Some(k) => Some(&k.sk),
        None => None,
    };
    enc_opt_bytes(out, ed);
    let dh = match &sk.ristrettodh {
        Some(k) => Some(&k.sk),
        None => None,
    };
    enc_opt_bytes(out, dh);
    proof {
        assert(out@ =~= old(out)@ + spec_enc_sk_set(sk.spec_ed25519(), sk.spec_ristrettodh()));
    }
}

pub fn dec_sk_set(s: &[u8], pos: usize) -> (r: Option<(crate::key::SecretKey, usize)>)
    requires
        pos <= s@.len(),
    ensures
        match r {
            Some(v) => {
                &&& spec_dec_sk_set(s@, pos as int) == Some(
                    ((v.0.spec_ed25519(), v.0.spec_ristrettodh()), v.1 as int),
                )
                &&& v.0.wf()
                &&& pos < v.1 <= s@.len()
            },
            None => spec_dec_sk_set(s@, pos as int) is None,
        },
{
    let (ed_raw, p1) = match dec_opt_bytes(s, pos) {
        Some(v) => v,
        None => {
            return None;
        },
    };
    let ed = match ed_raw {
        None => None,
        Some(b) => {
            if b.len() != 32 {
                return None;
            }
            Some(crate::key::ed25519::SecretKey::from_seed(b))
        },
    };
    let (dh_raw, p2) = match dec_opt_bytes(s, p1) {
        Some(v) => v,
        None => {
            return None;
        },
    };
    let dh = match dh_raw {
        None => None,
        Some(b) => {
            if b.len() != 32 {
                return None;
            }
            Some(crate::key::ristrettodh::SecretKey::from_scalar(b))
        },
    };
    Some((crate::key::SecretKey { ed25519: ed, ristrettodh: dh }, p2))
}

/// Decoding an encoded secret key set gives the same secrets back.
pub proof fn lemma_dec_sk_set_roundtrip(s: Seq<u8>, pos: int, ed: Option<Seq<u8>>, dh: Option<
    Seq<u8>,
>)
    requires
        0 <= pos,
        ed is Some ==> ed->0.len() == 32,
        dh is Some ==> dh->0.len() == 32,
        pos + spec_enc_sk_set(ed, dh).len() <= s.len(),
        s.subrange(pos, pos + spec_enc_sk_set(ed, dh).len()) == spec_enc_sk_set(ed, dh),
    ensures
        spec_dec_sk_set(s, pos) == Some(((ed, dh), pos + spec_enc_sk_set(ed, dh).len())),
{
    let w = spec_enc_sk_set(ed, dh);
    let l1 = spec_enc_opt_bytes(ed).len() as int;
    let l2 = spec_enc_opt_bytes(dh).len() as int;
    assert(s.subrange(pos, pos + l1) =~= w.subrange(0, l1));
    assert(w.subrange(0, l1) =~= spec_enc_opt_bytes(ed));
    lemma_dec_opt_bytes_roundtrip(s, pos, ed);
    assert(s.subrange(pos + l1, pos + l1 + l2) =~= w.subrange(l1, l1 + l2));
    assert(w.subrange(l1, l1 + l2) =~= spec_enc_opt_bytes(dh));
    lemma_dec_opt_bytes_roundtrip(s, pos + l1, dh);
}


// ---------------------------------------------------------------------
// Protocol
// ---------------------------------------------------------------------

pub open spec fn spec_kex_disc(k: crate::alg::KeyExchange) -> u8 {
    match k {
        crate::alg::KeyExchange::RistrettoDH => 0u8,
        crate::alg::KeyExchange::Kyber => 1u8,
    }
}

/// A protocol: a one-byte mode discriminator followed by one byte per
/// slot (and the `bind_aad` flag for SIGAE).
pub open spec fn spec_enc_protocol(p: crate::alg::Protocol) -> Seq<u8> {
    match p {
        crate::alg::Protocol::Sonly(_) => seq![0u8, 0u8],
        crate::alg::Protocol::Ooake(k, _) => seq![1u8, spec_kex_disc(k), 0u8],
        crate::alg::Protocol::Sigae(flag, _, k, _) => seq![
            2u8,
            (if flag {
                1u8
            } else {
                0u8
            }),
            0u8,
            spec_kex_disc(k),
            0u8,
        ],
    }
}

/// Spec mirror of `dec_protocol`.
pub open spec fn spec_dec_protocol(s: Seq<u8>, pos: int) -> Option<(crate::alg::Protocol, int)> {
    if pos + 2 > s.len() {
        None
    } else if s[pos] == 0 {
        if s[pos + 1] == 0 {
            Some((crate::alg::Protocol::Sonly(crate::alg::Signature::Ed25519), pos + 2))
        } else {
            None
        }
    } else if s[pos] == 1 {
        if pos + 3 > s.len() {
            None
        } else if s[pos + 2] != 0 {
            None
        } else if s[pos + 1] == 0 {
            Some(
                (
                    crate::alg::Protocol::Ooake(
                        crate::alg::KeyExchange::RistrettoDH,
                        crate::alg::Encrypt::Aes128Colm0,
                    ),
                    pos + 3,
                ),
            )
        } else if s[pos + 1] == 1 {
            Some(
                (
                    crate::alg::Protocol::Ooake(
                        crate::alg::KeyExchange::Kyber,
                        crate::alg::Encrypt::Aes128Colm0,
                    ),
                    pos + 3,
                ),
            )
        } else {
            None
        }
    } else if s[pos] == 2 {
        if pos + 5 > s.len() {
            None
        } else if s[pos + 1] != 0 && s[pos + 1] != 1 {
            None
        } else if s[pos + 2] != 0 || s[pos + 4] != 0 {
            None
        } else {
            let flag = s[pos + 1] == 1;
            if s[pos + 3] == 0 {
                Some(
                    (
                        crate::alg::Protocol::Sigae(
                            flag,
                            crate::alg::Signature::Ed25519,
                            crate::alg::KeyExchange::RistrettoDH,
                            crate::alg::Encrypt::Aes128Colm0,
                        ),
                        pos + 5,
                    ),
                )
            } else if s[pos + 3] == 1 {
                Some(
                    (
                        crate::alg::Protocol::Sigae(
                            flag,
                            crate::alg::Signature::Ed25519,
                            crate::alg::KeyExchange::Kyber,
                            crate::alg::Encrypt::Aes128Colm0,
                        ),
                        pos + 5,
                    ),
                )
            } else {
                None
            }
        }
    } else {
        None
    }
}

pub fn enc_protocol(out: &mut Vec<u8>, p: &crate::alg::Protocol)
    ensures
        final(out)@ == old(out)@ + spec_enc_protocol(*p),
{
    match p {
        crate::alg::Protocol::Sonly(_) => {
            out.push(0u8);
            out.push(0u8);
        },
        crate::alg::Protocol::Ooake(k, _) => {
            out.push(1u8);
            match k {
                crate::alg::KeyExchange::RistrettoDH => out.push(0u8),
                crate::alg::KeyExchange::Kyber => out.push(1u8),
            }
            out.push(0u8);
        },
        crate::alg::Protocol::Sigae(flag, _, k, _) => {
            out.push(2u8);
            if *flag {
                out.push(1u8);
            } else {
                out.push(0u8);
            }
            out.push(0u8);
            match k {
                crate::alg::KeyExchange::RistrettoDH => out.push(0u8),
                crate::alg::KeyExchange::Kyber => out.push(1u8),
            }
            out.push(0u8);
        },
    }
    proof {
        assert(out@ =~= old(out)@ + spec_enc_protocol(*p));
    }
}

pub fn dec_protocol(s: &[u8], pos: usize) -> (r: Option<(crate::alg::Protocol, usize)>)
    requires
        pos <= s@.len(),
    ensures
        match r {
            Some(v) => {
                &&& spec_dec_protocol(s@, pos as int) == Some((v.0, v.1 as int))
                &&& pos < v.1 <= s@.len()
            },
            None => spec_dec_protocol(s@, pos as int) is None,
        },
{
    if s.len() - pos < 2 {
        return None;
    }
    let d = s[pos];
    if d == 0 {
        if s[pos + 1] == 0 {
            Some((crate::alg::Protocol::Sonly(crate::alg::Signature::Ed25519), pos + 2))
        } else {
            None
        }
    } else if d == 1 {
        if s.len() - pos < 3 {
            return None;
        }
        if s[pos + 2] != 0 {
            return None;
        }
        let k = s[pos + 1];
        if k == 0 {
            Some(
                (
                    crate::alg::Protocol::Ooake(
                        crate::alg::KeyExchange::RistrettoDH,
                        crate::alg::Encrypt::Aes128Colm0,
                    ),
                    pos + 3,
                ),
            )
        } else if k == 1 {
            Some(
                (
                    crate::alg::Protocol::Ooake(
                        crate::alg::KeyExchange::Kyber,
                        crate::alg::Encrypt::Aes128Colm0,
                    ),
                    pos + 3,
                ),
            )
        } else {
            None
        }
    } else if d == 2 {
        if s.len() - pos < 5 {
            return None;
        }
        let f = s[pos + 1];
        if f != 0 && f != 1 {
            return None;
        }
        if s[pos + 2] != 0 || s[pos + 4] != 0 {
            return None;
        }
        let flag = f == 1;
        let k = s[pos + 3];
        if k == 0 {
            Some(
                (
                    crate::alg::Protocol::Sigae(
                        flag,
                        crate::alg::Signature::Ed25519,
                        crate::alg::KeyExchange::RistrettoDH,
                        crate::alg::Encrypt::Aes128Colm0,
                    ),
                    pos + 5,
                ),
            )
        } else if k == 1 {
            Some(
                (
                    crate::alg::Protocol::Sigae(
                        flag,
                        crate::alg::Signature::Ed25519,
                        crate::alg::KeyExchange::Kyber,
                        crate::alg::Encrypt::Aes128Colm0,
                    ),
                    pos + 5,
                ),
            )
        } else {
            None
        }
    } else {
        None
    }
}

/// Decoding an encoded protocol gives it back.
pub proof fn lemma_dec_protocol_roundtrip(s: Seq<u8>, pos: int, p: crate::alg::Protocol)
    requires
        0 <= pos,
        pos + spec_enc_protocol(p).len() <= s.len(),
        s.subrange(pos, pos + spec_enc_protocol(p).len()) == spec_enc_protocol(p),
    ensures
        spec_dec_protocol(s, pos) == Some((p, pos + spec_enc_protocol(p).len())),
{
    let w = spec_enc_protocol(p);
    match p {
        crate::alg::Protocol::Sonly(_) => {
            assert(s[pos] == w[0] && s[pos + 1] == w[1]);
        },
        crate::alg::Protocol::Ooake(k, _) => {
            assert(s[pos] == w[0] && s[pos + 1] == w[1] && s[pos + 2] == w[2]);
        },
        crate::alg::Protocol::Sigae(flag, _, k, _) => {
            assert(s[pos] == w[0] && s[pos + 1] == w[1] && s[pos + 2] == w[2] && s[pos + 3] == w[3]
                && s[pos + 4] == w[4]);
        },
    }
}


// ---------------------------------------------------------------------
// Metadata
// ---------------------------------------------------------------------

/// The recipient half of the metadata, in spec form.
pub struct RecView {
    pub id: Seq<u8>,
    pub ed: Option<Short>,
    pub dh: Option<Short>,
}

/// The metadata in spec form: plain sequences and options.
pub struct MetaView {
    pub id: Seq<u8>,
    pub ed: Option<Seq<u8>>,
    pub dh: Option<Seq<u8>>,
    pub rec: Option<RecView>,
}

/// The spec form of a metadata value.
pub open spec fn meta_view(m: &Meta) -> MetaView {
    MetaView {
        id: m.s.0@,
        ed: m.s.1.spec_ed25519(),
        dh: m.s.1.spec_ristrettodh(),
        rec: match m.r {
            None => None,
            Some(ref rec) => Some(
                RecView { id: rec.0@, ed: rec.1.ed25519, dh: rec.1.ristrettodh },
            ),
        },
    }
}

/// Well-formed metadata: the sender's key slots carry valid byte forms.
pub open spec fn meta_view_wf(v: MetaView) -> bool {
    &&& (v.ed is Some ==> crate::key::ed25519::valid_pk_bytes(v.ed->0))
    &&& (v.dh is Some ==> crate::key::ristrettodh::valid_point_bytes(v.dh->0))
    &&& v.id.len() <= u64::MAX
    &&& (v.rec is Some ==> v.rec->0.id.len() <= u64::MAX)
}

pub open spec fn spec_enc_meta(v: MetaView) -> Seq<u8> {
    spec_enc_bytes(v.id) + spec_enc_pk_set(v.ed, v.dh) + (match v.rec {
        None => seq![0u8],
        Some(rec) => seq![1u8] + spec_enc_bytes(rec.id) + spec_enc_short_set(rec.ed, rec.dh),
    })
}

/// Spec mirror of `dec_meta`.
pub open spec fn spec_dec_meta(s: Seq<u8>, pos: int) -> Option<(MetaView, int)> {
    match spec_dec_bytes(s, pos) {
        None => None,
        Some((id, p1)) => match spec_dec_pk_set(s, p1) {
            None => None,
            Some(((ed, dh), p2)) => match spec_dec_u8(s, p2) {
                None => None,
                Some((d, p3)) => {
                    if d == 0 {
                        Some((MetaView { id, ed, dh, rec: None }, p3))
                    } else if d == 1 {
                        match spec_dec_bytes(s, p3) {
                            None => None,
                            Some((rid, p4)) => match spec_dec_short_set(s, p4) {
                                None => None,
                                Some(((red, rdh), p5)) => Some(
                                    (
                                        MetaView {
                                            id,
                                            ed,
                                            dh,
                                            rec: Some(RecView { id: rid, ed: red, dh: rdh }),
                                        },
                                        p5,
                                    ),
                                ),
                            },
                        }
                    } else {
                        None
                    }
                },
            },
        },
    }
}

pub fn enc_meta(out: &mut Vec<u8>, m: &Meta)
    ensures
        final(out)@ == old(out)@ + spec_enc_meta(meta_view(m)),
{
    enc_bytes(out, m.s.0.as_slice());
    enc_pk_set(out, &m.s.1);
    match &m.r {
        None => {
            out.push(0u8);
        },
        Some(rec) => {
            out.push(1u8);
            enc_bytes(out, rec.0.as_slice());
            enc_short_set(out, &rec.1);
        },
    }
    proof {
        assert(out@ =~= old(out)@ + spec_enc_meta(meta_view(m)));
    }
}

pub fn dec_meta(s: &[u8], pos: usize) -> (r: Option<(Meta, usize)>)
    requires
        pos <= s@.len(),
    ensures
        match r {
            Some(v) => {
                &&& spec_dec_meta(s@, pos as int) == Some((meta_view(&v.0), v.1 as int))
                &&& v.0.s.1.wf()
                &&& pos < v.1 <= s@.len()
            },
            None => spec_dec_meta(s@, pos as int) is None,
        },
{
    let (id, p1) = match dec_bytes(s, pos) {
        Some(v) => v,
        None => {
            return None;
        },
    };
    let (pks, p2) = match dec_pk_set(s, p1) {
        Some(v) => v,
        None => {
            return None;
        },
    };
    let (d, p3) = match dec_u8(s, p2) {
        Some(v) => v,
        None => {
            return None;
        },
    };
    if d == 0 {
        Some((Meta { s: (id, pks), r: None }, p3))
    } else if d == 1 {
        let (rid, p4) = match dec_bytes(s, p3) {
            Some(v) => v,
            None => {
                return None;
            },
        };
        let (ss, p5) = match dec_short_set(s, p4) {
            Some(v) => v,
            None => {
                return None;
            },
        };
        Some((Meta { s: (id, pks), r: Some((rid, ss)) }, p5))
    } else {
        None
    }
}

/// Decoding encoded metadata gives it back.
#[verifier::rlimit(100)]
#[verifier::spinoff_prover]
pub proof fn lemma_dec_meta_roundtrip(s: Seq<u8>, pos: int, v: MetaView)
    requires
        0 <= pos,
        meta_view_wf(v),
        ({
            let ol = match v.ed {
                Some(b) => b.len() <= u64::MAX,
                None => true,
            };
            ol
        }),
        ({
            let ol = match v.dh {
                Some(b) => b.len() <= u64::MAX,
                None => true,
            };
            ol
        }),
        pos + spec_enc_meta(v).len() <= s.len(),
        s.subrange(pos, pos + spec_enc_meta(v).len()) == spec_enc_meta(v),
    ensures
        spec_dec_meta(s, pos) == Some((v, pos + spec_enc_meta(v).len())),
{
    let w = spec_enc_meta(v);
    let l1 = spec_enc_bytes(v.id).len() as int;
    let l2 = spec_enc_pk_set(v.ed, v.dh).len() as int;
    assert(s.subrange(pos, pos + l1) =~= w.subrange(0, l1));
    assert(w.subrange(0, l1) =~= spec_enc_bytes(v.id));
    lemma_dec_bytes_roundtrip(s, pos, v.id);
    assert(s.subrange(pos + l1, pos + l1 + l2) =~= w.subrange(l1, l1 + l2));
    assert(w.subrange(l1, l1 + l2) =~= spec_enc_pk_set(v.ed, v.dh));
    lemma_dec_pk_set_roundtrip(s, pos + l1, v.ed, v.dh);
    let p2 = pos + l1 + l2;
    match v.rec {
        None => {
            assert(s[p2] == w[l1 + l2]);
            assert(w[l1 + l2] == 0u8);
        },
        Some(rec) => {
            assert(s[p2] == w[l1 + l2]);
            assert(w[l1 + l2] == 1u8);
            let l3 = spec_enc_bytes(rec.id).len() as int;
            let l4 = spec_enc_short_set(rec.ed, rec.dh).len() as int;
            assert(s.subrange(p2 + 1, p2 + 1 + l3) =~= w.subrange(l1 + l2 + 1, l1 + l2 + 1 + l3));
            assert(w.subrange(l1 + l2 + 1, l1 + l2 + 1 + l3) =~= spec_enc_bytes(rec.id));
            lemma_dec_bytes_roundtrip(s, p2 + 1, rec.id);
            assert(s.subrange(p2 + 1 + l3, p2 + 1 + l3 + l4) =~= w.subrange(
                l1 + l2 + 1 + l3,
                l1 + l2 + 1 + l3 + l4,
            ));
            assert(w.subrange(l1 + l2 + 1 + l3, l1 + l2 + 1 + l3 + l4) =~= spec_enc_short_set(
                rec.ed,
                rec.dh,
            ));
            lemma_dec_short_set_roundtrip(s, p2 + 1 + l3, rec.ed, rec.dh);
            assert(spec_dec_meta(s, pos) == Some((v, pos + spec_enc_meta(v).len())));
        },
    }
}


// ---------------------------------------------------------------------
// Envelopes
// ---------------------------------------------------------------------

/// Builds the magic bytes `ENEPK`.
fn magic_pk_vec() -> (r: Vec<u8>)
    ensures
        r@ == magic_pk(),
{
    let mut v: Vec<u8> = Vec::new();
    v.push(69u8);
    v.push(78u8);
    v.push(69u8);
    v.push(80u8);
    v.push(75u8);
    proof {
        assert(v@ =~= magic_pk());
    }
    v
}

/// Builds the magic bytes `ENESK`.
fn magic_sk_vec() -> (r: Vec<u8>)
    ensures
        r@ == magic_sk(),
{
    let mut v: Vec<u8> = Vec::new();
    v.push(69u8);
    v.push(78u8);
    v.push(69u8);
    v.push(83u8);
    v.push(75u8);
    proof {
        assert(v@ =~= magic_sk());
    }
    v
}

/// Builds the magic bytes `ENEMSG`.
fn magic_msg_vec() -> (r: Vec<u8>)
    ensures
        r@ == magic_msg(),
{
    let mut v: Vec<u8> = Vec::new();
    v.push(69u8);
    v.push(78u8);
    v.push(69u8);
    v.push(77u8);
    v.push(83u8);
    v.push(71u8);
    proof {
        assert(v@ =~= magic_msg());
    }
    v
}

/// The three envelope payload shapes.
pub type PrivateKey = Envelope<SK, (Vec<u8>, crate::alg::Encrypt, Vec<u8>, Vec<u8>)>;

pub type PublicKey = Envelope<PK, (Vec<u8>, crate::key::PublicKey)>;

pub type Message = Envelope<MSG, (Meta, crate::alg::Protocol, Vec<u8>)>;

// --- message envelope ---

pub open spec fn spec_enc_msg_envelope(
    ver: u16,
    mv: MetaView,
    p: crate::alg::Protocol,
    payload: Seq<u8>,
) -> Seq<u8> {
    magic_msg() + spec_be16(ver) + spec_enc_meta(mv) + spec_enc_protocol(p) + spec_enc_bytes(
        payload,
    )
}

/// Spec mirror of `decode_message`: the magic must read `ENEMSG`, the
/// version must be the current one, and the whole input must be
/// consumed.
pub open spec fn spec_dec_msg_envelope(s: Seq<u8>) -> Option<
    (MetaView, crate::alg::Protocol, Seq<u8>),
> {
    if s.len() < 8 {
        None
    } else if s.subrange(0, 6) != magic_msg() {
        None
    } else if spec_u16_of(s.subrange(6, 8)) != VERSION {
        None
    } else {
        match spec_dec_meta(s, 8) {
            None => None,
            Some((mv, p1)) => match spec_dec_protocol(s, p1) {
                None => None,
                Some((proto, p2)) => match spec_dec_bytes(s, p2) {
                    None => None,
                    Some((payload, p3)) => {
                        if p3 == s.len() {
                            Some((mv, proto, payload))
                        } else {
                            None
                        }
                    },
                },
            },
        }
    }
}

/// Serialises a message envelope.
pub fn encode_message(m: &Message) -> (r: Vec<u8>)
    ensures
        r@ == spec_enc_msg_envelope(m.1.0, meta_view(&m.2.0), m.2.1, m.2.2@),
{
    let mut out = magic_msg_vec();
    enc_be16(&mut out, m.1.0);
    enc_meta(&mut out, &m.2.0);
    enc_protocol(&mut out, &m.2.1);
    enc_bytes(&mut out, m.2.2.as_slice());
    proof {
        assert(out@ =~= spec_enc_msg_envelope(m.1.0, meta_view(&m.2.0), m.2.1, m.2.2@));
    }
    out
}

/// Parses a message envelope, rejecting a wrong magic, a wrong version,
/// and trailing bytes.
pub fn decode_message(s: &[u8]) -> (r: Option<Message>)
    ensures
        match r {
            Some(v) => {
                &&& spec_dec_msg_envelope(s@) == Some((meta_view(&v.2.0), v.2.1, v.2.2@))
                &&& v.1 == Version(VERSION)
                &&& v.2.0.s.1.wf()
            },
            None => spec_dec_msg_envelope(s@) is None,
        },
{
    if s.len() < 8 {
        return None;
    }
    let magic = magic_msg_vec();
    let head = crate::wire::read_run(s, 0, 6);
    if !crate::wire::bytes_eq(head.as_slice(), magic.as_slice()) {
        return None;
    }
    let ver = dec_be16(s, 6);
    if ver != VERSION {
        return None;
    }
    let (meta, p1) = match dec_meta(s, 8) {
        Some(v) => v,
        None => {
            return None;
        },
    };
    let (proto, p2) = match dec_protocol(s, p1) {
        Some(v) => v,
        None => {
            return None;
        },
    };
    let (payload, p3) = match dec_bytes(s, p2) {
        Some(v) => v,
        None => {
            return None;
        },
    };
    if p3 != s.len() {
        return None;
    }
    Some(Envelope(ENE(core::marker::PhantomData), Version(ver), (meta, proto, payload)))
}

/// Decoding an encoded current-version message envelope gives its parts
/// back.
#[verifier::rlimit(100)]
#[verifier::spinoff_prover]
pub proof fn lemma_message_envelope_roundtrip(mv: MetaView, p: crate::alg::Protocol, payload: Seq<
    u8,
>)
    requires
        meta_view_wf(mv),
        payload.len() <= u64::MAX,
    ensures
        spec_dec_msg_envelope(spec_enc_msg_envelope(VERSION, mv, p, payload)) == Some(
            (mv, p, payload),
        ),
{
    let s = spec_enc_msg_envelope(VERSION, mv, p, payload);
    assert(s.subrange(0, 6) =~= magic_msg());
    assert(s.subrange(6, 8) =~= spec_be16(VERSION));
    lemma_be16_roundtrip(VERSION);
    let l1 = spec_enc_meta(mv).len() as int;
    let l2 = spec_enc_protocol(p).len() as int;
    let l3 = spec_enc_bytes(payload).len() as int;
    assert(s.subrange(8, 8 + l1) =~= spec_enc_meta(mv));
    lemma_dec_meta_roundtrip(s, 8, mv);
    assert(s.subrange(8 + l1, 8 + l1 + l2) =~= spec_enc_protocol(p));
    lemma_dec_protocol_roundtrip(s, 8 + l1, p);
    assert(s.subrange(8 + l1 + l2, 8 + l1 + l2 + l3) =~= spec_enc_bytes(payload));
    lemma_dec_bytes_roundtrip(s, 8 + l1 + l2, payload);
}

// --- public-key envelope ---

pub open spec fn spec_enc_pk_envelope(
    ver: u16,
    id: Seq<u8>,
    ed: Option<Seq<u8>>,
    dh: Option<Seq<u8>>,
) -> Seq<u8> {
    magic_pk() + spec_be16(ver) + spec_enc_bytes(id) + spec_enc_pk_set(ed, dh)
}

/// Spec mirror of `decode_public_key`.
pub open spec fn spec_dec_pk_envelope(s: Seq<u8>) -> Option<
    (Seq<u8>, (Option<Seq<u8>>, Option<Seq<u8>>)),
> {
    if s.len() < 7 {
        None
    } else if s.subrange(0, 5) != magic_pk() {
        None
    } else if spec_u16_of(s.subrange(5, 7)) != VERSION {
        None
    } else {
        match spec_dec_bytes(s, 7) {
            None => None,
            Some((id, p1)) => match spec_dec_pk_set(s, p1) {
                None => None,
                Some((slots, p2)) => {
                    if p2 == s.len() {
                        Some((id, slots))
                    } else {
                        None
                    }
                },
            },
        }
    }
}

/// Serialises a public-key envelope.
pub fn encode_public_key(m: &PublicKey) -> (r: Vec<u8>)
    ensures
        r@ == spec_enc_pk_envelope(
            m.1.0,
            m.2.0@,
            m.2.1.spec_ed25519(),
            m.2.1.spec_ristrettodh(),
        ),
{
    let mut out = magic_pk_vec();
    enc_be16(&mut out, m.1.0);
    enc_bytes(&mut out, m.2.0.as_slice());
    enc_pk_set(&mut out, &m.2.1);
    proof {
        assert(out@ =~= spec_enc_pk_envelope(
            m.1.0,
            m.2.0@,
            m.2.1.spec_ed25519(),
            m.2.1.spec_ristrettodh(),
        ));
    }
    out
}

/// Parses a public-key envelope.
pub fn decode_public_key(s: &[u8]) -> (r: Option<PublicKey>)
    ensures
        match r {
            Some(v) => {
                &&& spec_dec_pk_envelope(s@) == Some(
                    (v.2.0@, (v.2.1.spec_ed25519(), v.2.1.spec_ristrettodh())),
                )
                &&& v.1 == Version(VERSION)
                &&& v.2.1.wf()
            },
            None => spec_dec_pk_envelope(s@) is None,
        },
{
    if s.len() < 7 {
        return None;
    }
    let magic = magic_pk_vec();
    let head = crate::wire::read_run(s, 0, 5);
    if !crate::wire::bytes_eq(head.as_slice(), magic.as_slice()) {
        return None;
    }
    let ver = dec_be16(s, 5);
    if ver != VERSION {
        return None;
    }
    let (id, p1) = match dec_bytes(s, 7) {
        Some(v) => v,
        None => {
            return None;
        },
    };
    let (pks, p2) = match dec_pk_set(s, p1) {
        Some(v) => v,
        None => {
            return None;
        },
    };
    if p2 != s.len() {
        return None;
    }
    Some(Envelope(ENE(core::marker::PhantomData), Version(ver), (id, pks)))
}

/// Decoding an encoded current-version public-key envelope gives its
/// parts back.
#[verifier::rlimit(100)]
#[verifier::spinoff_prover]
pub proof fn lemma_pk_envelope_roundtrip(id: Seq<u8>, ed: Option<Seq<u8>>, dh: Option<Seq<u8>>)
    requires
        id.len() <= u64::MAX,
        ed is Some ==> crate::key::ed25519::valid_pk_bytes(ed->0),
        dh is Some ==> crate::key::ristrettodh::valid_point_bytes(dh->0),
    ensures
        spec_dec_pk_envelope(spec_enc_pk_envelope(VERSION, id, ed, dh)) == Some((id, (ed, dh))),
{
    let s = spec_enc_pk_envelope(VERSION, id, ed, dh);
    assert(s.subrange(0, 5) =~= magic_pk());
    assert(s.subrange(5, 7) =~= spec_be16(VERSION));
    lemma_be16_roundtrip(VERSION);
    let l1 = spec_enc_bytes(id).len() as int;
    let l2 = spec_enc_pk_set(ed, dh).len() as int;
    assert(s.subrange(7, 7 + l1) =~= spec_enc_bytes(id));
    lemma_dec_bytes_roundtrip(s, 7, id);
    assert(s.subrange(7 + l1, 7 + l1 + l2) =~= spec_enc_pk_set(ed, dh));
    lemma_dec_pk_set_roundtrip(s, 7 + l1, ed, dh);
}

// --- private-key (sealed profile) envelope ---

pub open spec fn spec_enc_sk_envelope(
    ver: u16,
    id: Seq<u8>,
    salt: Seq<u8>,
    ct: Seq<u8>,
) -> Seq<u8> {
    magic_sk() + spec_be16(ver) + spec_enc_bytes(id) + seq![0u8] + spec_enc_bytes(salt)
        + spec_enc_bytes(ct)
}

/// Spec mirror of `decode_private_key`.  The single byte after the
/// identifier is the AEAD choice the profile was sealed with.
pub open spec fn spec_dec_sk_envelope(s: Seq<u8>) -> Option<(Seq<u8>, Seq<u8>, Seq<u8>)> {
    if s.len() < 7 {
        None
    } else if s.subrange(0, 5) != magic_sk() {
        None
    } else if spec_u16_of(s.subrange(5, 7)) != VERSION {
        None
    } else {
        match spec_dec_bytes(s, 7) {
            None => None,
            Some((id, p1)) => match spec_dec_u8(s, p1) {
                None => None,
                Some((d, p2)) => {
                    if d != 0 {
                        None
                    } else {
                        match spec_dec_bytes(s, p2) {
                            None => None,
                            Some((salt, p3)) => match spec_dec_bytes(s, p3) {
                                None => None,
                                Some((ct, p4)) => {
                                    if p4 == s.len() {
                                        Some((id, salt, ct))
                                    } else {
                                        None
                                    }
                                },
                            },
                        }
                    }
                },
            },
        }
    }
}

/// Serialises a sealed-profile envelope.
pub fn encode_private_key(m: &PrivateKey) -> (r: Vec<u8>)
    ensures
        r@ == spec_enc_sk_envelope(m.1.0, m.2.0@, m.2.2@, m.2.3@),
{
    let mut out = magic_sk_vec();
    enc_be16(&mut out, m.1.0);
    enc_bytes(&mut out, m.2.0.as_slice());
    out.push(0u8);
    enc_bytes(&mut out, m.2.2.as_slice());
    enc_bytes(&mut out, m.2.3.as_slice());
    proof {
        assert(out@ =~= spec_enc_sk_envelope(m.1.0, m.2.0@, m.2.2@, m.2.3@));
    }
    out
}

/// Parses a sealed-profile envelope.
pub fn decode_private_key(s: &[u8]) -> (r: Option<PrivateKey>)
    ensures
        match r {
            Some(v) => {
                &&& spec_dec_sk_envelope(s@) == Some((v.2.0@, v.2.2@, v.2.3@))
                &&& v.1 == Version(VERSION)
                &&& v.2.1 == crate::alg::Encrypt::Aes128Colm0
            },
            None => spec_dec_sk_envelope(s@) is None,
        },
{
    if s.len() < 7 {
        return None;
    }
    let magic = magic_sk_vec();
    let head = crate::wire::read_run(s, 0, 5);
    if !crate::wire::bytes_eq(head.as_slice(), magic.as_slice()) {
        return None;
    }
    let ver = dec_be16(s, 5);
    if ver != VERSION {
        return None;
    }
    let (id, p1) = match dec_bytes(s, 7) {
        Some(v) => v,
        None => {
            return None;
        },
    };
    let (d, p2) = match dec_u8(s, p1) {
        Some(v) => v,
        None => {
            return None;
        },
    };
    if d != 0 {
        return None;
    }
    let (salt, p3) = match dec_bytes(s, p2) {
        Some(v) => v,
        None => {
            return None;
        },
    };
    let (ct, p4) = match dec_bytes(s, p3) {
        Some(v) => v,
        None => {
            return None;
        },
    };
    if p4 != s.len() {
        return None;
    }
    Some(
        Envelope(
            ENE(core::marker::PhantomData),
            Version(ver),
            (id, crate::alg::Encrypt::Aes128Colm0, salt, ct),
        ),
    )
}

/// Decoding an encoded current-version sealed-profile envelope gives its
/// parts back.
#[verifier::rlimit(100)]
#[verifier::spinoff_prover]
pub proof fn lemma_sk_envelope_roundtrip(id: Seq<u8>, salt: Seq<u8>, ct: Seq<u8>)
    requires
        id.len() <= u64::MAX,
        salt.len() <= u64::MAX,
        ct.len() <= u64::MAX,
    ensures
        spec_dec_sk_envelope(spec_enc_sk_envelope(VERSION, id, salt, ct)) == Some((id, salt, ct)),
{
    let s = spec_enc_sk_envelope(VERSION, id, salt, ct);
    assert(s.subrange(0, 5) =~= magic_sk());
    assert(s.subrange(5, 7) =~= spec_be16(VERSION));
    lemma_be16_roundtrip(VERSION);
    let l1 = spec_enc_bytes(id).len() as int;
    let l2 = spec_enc_bytes(salt).len() as int;
    let l3 = spec_enc_bytes(ct).len() as int;
    assert(s.subrange(7, 7 + l1) =~= spec_enc_bytes(id));
    lemma_dec_bytes_roundtrip(s, 7, id);
    assert(s[7 + l1] == 0u8);
    assert(s.subrange(7 + l1 + 1, 7 + l1 + 1 + l2) =~= spec_enc_bytes(salt));
    lemma_dec_bytes_roundtrip(s, 7 + l1 + 1, salt);
    assert(s.subrange(7 + l1 + 1 + l2, 7 + l1 + 1 + l2 + l3) =~= spec_enc_bytes(ct));
    lemma_dec_bytes_roundtrip(s, 7 + l1 + 1 + l2, ct);
}

/// The envelope discriminator: bytes produced under one kind's magic are
/// rejected by the other kinds' decoders, because the magic strings
/// differ.
#[verifier::rlimit(100)]
#[verifier::spinoff_prover]
pub proof fn lemma_envelope_kind_mismatch(
    ver: u16,
    mv: MetaView,
    p: crate::alg::Protocol,
    payload: Seq<u8>,
    id: Seq<u8>,
    ed: Option<Seq<u8>>,
    dh: Option<Seq<u8>>,
    salt: Seq<u8>,
    ct: Seq<u8>,
)
    ensures
        spec_dec_msg_envelope(spec_enc_pk_envelope(ver, id, ed, dh)) is None,
        spec_dec_msg_envelope(spec_enc_sk_envelope(ver, id, salt, ct)) is None,
        spec_dec_pk_envelope(spec_enc_msg_envelope(ver, mv, p, payload)) is None,
        spec_dec_pk_envelope(spec_enc_sk_envelope(ver, id, salt, ct)) is None,
        spec_dec_sk_envelope(spec_enc_msg_envelope(ver, mv, p, payload)) is None,
        spec_dec_sk_envelope(spec_enc_pk_envelope(ver, id, ed, dh)) is None,
{
    let pk_env = spec_enc_pk_envelope(ver, id, ed, dh);
    let sk_env = spec_enc_sk_envelope(ver, id, salt, ct);
    let msg_env = spec_enc_msg_envelope(ver, mv, p, payload);
    assert(pk_env[3] == 80u8);
    assert(sk_env[3] == 83u8);
    assert(msg_env[3] == 77u8);
    if msg_env.len() >= 7 {
        assert(spec_dec_pk_envelope(msg_env) is None) by {
            assert(msg_env.subrange(0, 5)[3] == 77u8);
            assert(magic_pk()[3] == 80u8);
        }
        assert(spec_dec_sk_envelope(msg_env) is None) by {
            assert(msg_env.subrange(0, 5)[3] == 77u8);
            assert(magic_sk()[3] == 83u8);
        }
    }
    if pk_env.len() >= 8 {
        assert(spec_dec_msg_envelope(pk_env) is None) by {
            assert(pk_env.subrange(0, 6)[3] == 80u8);
            assert(magic_msg()[3] == 77u8);
        }
    }
    assert(spec_dec_sk_envelope(pk_env) is None) by {
        assert(pk_env.subrange(0, 5)[3] == 80u8);
        assert(magic_sk()[3] == 83u8);
    }
    if sk_env.len() >= 8 {
        assert(spec_dec_msg_envelope(sk_env) is None) by {
            assert(sk_env.subrange(0, 6)[3] == 83u8);
            assert(magic_msg()[3] == 77u8);
        }
    }
    assert(spec_dec_pk_envelope(sk_env) is None) by {
        assert(sk_env.subrange(0, 5)[3] == 83u8);
        assert(magic_pk()[3] == 80u8);
    }
}


// ---------------------------------------------------------------------
// Protocol payloads
// ---------------------------------------------------------------------

/// The OAKE payload: the transport point and the ciphertext.
pub open spec fn spec_enc_ooake_payload(x: Seq<u8>, c: Seq<u8>) -> Seq<u8> {
    spec_enc_bytes(x) + spec_enc_bytes(c)
}

/// Spec mirror of `decode_ooake_payload`: the point must be valid.
pub open spec fn spec_dec_ooake_payload(s: Seq<u8>) -> Option<(Seq<u8>, Seq<u8>)> {
    match spec_dec_bytes(s, 0) {
        None => None,
        Some((x, p1)) => {
            if !crate::key::ristrettodh::valid_point_bytes(x) {
                None
            } else {
                match spec_dec_bytes(s, p1) {
                    None => None,
                    Some((c, p2)) => {
                        if p2 == s.len() {
                            Some((x, c))
                        } else {
                            None
                        }
                    },
                }
            }
        },
    }
}

pub fn encode_ooake_payload(x: &crate::key::ristrettodh::Message, c: &[u8]) -> (r: Vec<u8>)
    ensures
        r@ == spec_enc_ooake_payload(x@, c@),
{
    let mut out: Vec<u8> = Vec::new();
    enc_bytes(&mut out, x.bytes.as_slice());
    enc_bytes(&mut out, c);
    proof {
        assert(out@ =~= spec_enc_ooake_payload(x@, c@));
    }
    out
}

pub fn decode_ooake_payload(s: &[u8]) -> (r: Option<(crate::key::ristrettodh::Message, Vec<u8>)>)
    ensures
        match r {
            Some(v) => {
                &&& spec_dec_ooake_payload(s@) == Some((v.0@, v.1@))
                &&& v.0.wf()
            },
            None => spec_dec_ooake_payload(s@) is None,
        },
{
    let (xb, p1) = match dec_bytes(s, 0) {
        Some(v) => v,
        None => {
            return None;
        },
    };
    let x = match crate::key::ristrettodh::Message::from_bytes(xb.as_slice()) {
        Ok(v) => v,
        Err(_) => {
            return None;
        },
    };
    let (c, p2) = match dec_bytes(s, p1) {
        Some(v) => v,
        None => {
            return None;
        },
    };
    if p2 != s.len() {
        return None;
    }
    Some((x, c))
}

/// Decoding an encoded OAKE payload gives its parts back.
pub proof fn lemma_ooake_payload_roundtrip(x: Seq<u8>, c: Seq<u8>)
    requires
        crate::key::ristrettodh::valid_point_bytes(x),
        c.len() <= u64::MAX,
    ensures
        spec_dec_ooake_payload(spec_enc_ooake_payload(x, c)) == Some((x, c)),
{
    let s = spec_enc_ooake_payload(x, c);
    let l1 = spec_enc_bytes(x).len() as int;
    let l2 = spec_enc_bytes(c).len() as int;
    assert(s.subrange(0, l1) =~= spec_enc_bytes(x));
    lemma_dec_bytes_roundtrip(s, 0, x);
    assert(s.subrange(l1, l1 + l2) =~= spec_enc_bytes(c));
    lemma_dec_bytes_roundtrip(s, l1, c);
}

/// The SIGAE payload: the transport point, the sealed signature, and the
/// sealed message.
pub open spec fn spec_enc_sigae_payload(x: Seq<u8>, csig: Seq<u8>, cmsg: Seq<u8>) -> Seq<u8> {
    spec_enc_bytes(x) + spec_enc_bytes(csig) + spec_enc_bytes(cmsg)
}

/// Spec mirror of `decode_sigae_payload`: the point must be valid.
pub open spec fn spec_dec_sigae_payload(s: Seq<u8>) -> Option<(Seq<u8>, Seq<u8>, Seq<u8>)> {
    match spec_dec_bytes(s, 0) {
        None => None,
        Some((x, p1)) => {
            if !crate::key::ristrettodh::valid_point_bytes(x) {
                None
            } else {
                match spec_dec_bytes(s, p1) {
                    None => None,
                    Some((csig, p2)) => match spec_dec_bytes(s, p2) {
                        None => None,
                        Some((cmsg, p3)) => {
                            if p3 == s.len() {
                                Some((x, csig, cmsg))
                            } else {
                                None
                            }
                        },
                    },
                }
            }
        },
    }
}

pub fn encode_sigae_payload(t: &crate::proto::sigae::Message, cmsg: &[u8]) -> (r: Vec<u8>)
    ensures
        r@ == spec_enc_sigae_payload(t.m@, t.c@, cmsg@),
{
    let mut out: Vec<u8> = Vec::new();
    enc_bytes(&mut out, t.m.bytes.as_slice());
    enc_bytes(&mut out, t.c.as_slice());
    enc_bytes(&mut out, cmsg);
    proof {
        assert(out@ =~= spec_enc_sigae_payload(t.m@, t.c@, cmsg@));
    }
    out
}

pub fn decode_sigae_payload(s: &[u8]) -> (r: Option<(crate::proto::sigae::Message, Vec<u8>)>)
    ensures
        match r {
            Some(v) => {
                &&& spec_dec_sigae_payload(s@) == Some((v.0.m@, v.0.c@, v.1@))
                &&& v.0.m.wf()
            },
            None => spec_dec_sigae_payload(s@) is None,
        },
{
    let (xb, p1) = match dec_bytes(s, 0) {
        Some(v) => v,
        None => {
            return None;
        },
    };
    let x = match crate::key::ristrettodh::Message::from_bytes(xb.as_slice()) {
        Ok(v) => v,
        Err(_) => {
            return None;
        },
    };
    let (csig, p2) = match dec_bytes(s, p1) {
        Some(v) => v,
        None => {
            return None;
        },
    };
    let (cmsg, p3) = match dec_bytes(s, p2) {
        Some(v) => v,
        None => {
            return None;
        },
    };
    if p3 != s.len() {
        return None;
    }
    Some((crate::proto::sigae::Message { m: x, c: csig }, cmsg))
}

/// Decoding an encoded SIGAE payload gives its parts back.
pub proof fn lemma_sigae_payload_roundtrip(x: Seq<u8>, csig: Seq<u8>, cmsg: Seq<u8>)
    requires
        crate::key::ristrettodh::valid_point_bytes(x),
        csig.len() <= u64::MAX,
        cmsg.len() <= u64::MAX,
    ensures
        spec_dec_sigae_payload(spec_enc_sigae_payload(x, csig, cmsg)) == Some((x, csig, cmsg)),
{
    let s = spec_enc_sigae_payload(x, csig, cmsg);
    let l1 = spec_enc_bytes(x).len() as int;
    let l2 = spec_enc_bytes(csig).len() as int;
    let l3 = spec_enc_bytes(cmsg).len() as int;
    assert(s.subrange(0, l1) =~= spec_enc_bytes(x));
    lemma_dec_bytes_roundtrip(s, 0, x);
    assert(s.subrange(l1, l1 + l2) =~= spec_enc_bytes(csig));
    lemma_dec_bytes_roundtrip(s, l1, csig);
    assert(s.subrange(l1 + l2, l1 + l2 + l3) =~= spec_enc_bytes(cmsg));
    lemma_dec_bytes_roundtrip(s, l1 + l2, cmsg);
}

/// The signature-only payload: the signature bytes.
pub open spec fn spec_enc_sonly_payload(sig: Seq<u8>) -> Seq<u8> {
    spec_enc_bytes(sig)
}

/// Spec mirror of `decode_sonly_payload`: the byte form must be a valid
/// signature.
pub open spec fn spec_dec_sonly_payload(s: Seq<u8>) -> Option<Seq<u8>> {
    match spec_dec_bytes(s, 0) {
        None => None,
        Some((sig, p1)) => {
            if !crate::key::ed25519::valid_sig_bytes(sig) {
                None
            } else if p1 == s.len() {
                Some(sig)
            } else {
                None
            }
        },
    }
}

pub fn encode_sonly_payload(sig: &crate::key::ed25519::Signature) -> (r: Vec<u8>)
    ensures
        r@ == spec_enc_sonly_payload(sig@),
{
    let mut out: Vec<u8> = Vec::new();
    enc_bytes(&mut out, sig.bytes.as_slice());
    out
}

pub fn decode_sonly_payload(s: &[u8]) -> (r: Option<crate::key::ed25519::Signature>)
    ensures
        match r {
            Some(v) => {
                &&& spec_dec_sonly_payload(s@) == Some(v@)
                &&& v.wf()
            },
            None => spec_dec_sonly_payload(s@) is None,
        },
{
    let (sb, p1) = match dec_bytes(s, 0) {
        Some(v) => v,
        None => {
            return None;
        },
    };
    let sig = match crate::key::ed25519::Signature::from_bytes(sb.as_slice()) {
        Ok(v) => v,
        Err(_) => {
            return None;
        },
    };
    if p1 != s.len() {
        return None;
    }
    Some(sig)
}

/// Decoding an encoded signature-only payload gives the signature back.
pub proof fn lemma_sonly_payload_roundtrip(sig: Seq<u8>)
    requires
        crate::key::ed25519::valid_sig_bytes(sig),
    ensures
        spec_dec_sonly_payload(spec_enc_sonly_payload(sig)) == Some(sig),
{
    let s = spec_enc_sonly_payload(sig);
    assert(s.subrange(0, s.len() as int) =~= s);
    lemma_dec_bytes_roundtrip(s, 0, sig);
}


/// Fingerprint stability: two keys with the same canonical byte form have
/// the same short fingerprint.  (The converse, that equal fingerprints
/// imply equal byte forms, is the collision resistance of the keyed hash:
/// a cryptographic assumption, checked by test, not provable.)
pub proof fn lemma_short_stability(b1: Seq<u8>, b2: Seq<u8>)
    requires
        b1 == b2,
    ensures
        spec_short(b1) == spec_short(b2),
{
}


/// Version check: an envelope carrying any version other than the
/// current one is rejected by every decoder.
pub proof fn lemma_version_mismatch(
    ver: u16,
    mv: MetaView,
    p: crate::alg::Protocol,
    payload: Seq<u8>,
    id: Seq<u8>,
    ed: Option<Seq<u8>>,
    dh: Option<Seq<u8>>,
    salt: Seq<u8>,
    ct: Seq<u8>,
)
    requires
        ver != VERSION,
    ensures
        spec_dec_msg_envelope(spec_enc_msg_envelope(ver, mv, p, payload)) is None,
        spec_dec_pk_envelope(spec_enc_pk_envelope(ver, id, ed, dh)) is None,
        spec_dec_sk_envelope(spec_enc_sk_envelope(ver, id, salt, ct)) is None,
{
    lemma_be16_roundtrip(ver);
    let m = spec_enc_msg_envelope(ver, mv, p, payload);
    assert(m.subrange(6, 8) =~= spec_be16(ver));
    let pk = spec_enc_pk_envelope(ver, id, ed, dh);
    assert(pk.subrange(5, 7) =~= spec_be16(ver));
    assert(pk.subrange(0, 5) =~= magic_pk());
    let sk = spec_enc_sk_envelope(ver, id, salt, ct);
    assert(sk.subrange(5, 7) =~= spec_be16(ver));
    assert(sk.subrange(0, 5) =~= magic_sk());
    if m.len() >= 8 {
        assert(m.subrange(0, 6) =~= magic_msg());
    }
}

} // verus!
