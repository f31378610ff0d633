//! Deterministic binary wire primitives.
//!
//! The envelope format is a compact self-describing encoding: fixed-size
//! integers are big-endian, byte strings are length-prefixed and carried
//! verbatim, options and tagged unions start with a one-byte discriminator.
//! Every encoder has an exact spec-level image (`spec_enc_*`), every decoder
//! an exact spec-level mirror (`spec_dec_*`), and decoding an encoding is
//! proved to give the encoded value back.

use vstd::prelude::*;

verus! {

// ---------------------------------------------------------------------
// Big-endian integers
// ---------------------------------------------------------------------

#[verifier::opaque]
pub open spec fn spec_be16(v: u16) -> Seq<u8> {
    seq![(v >> 8) as u8, v as u8]
}

#[verifier::opaque]
pub open spec fn spec_u16_of(b: Seq<u8>) -> u16 {
    (((b[0] as u16) << 8) | (b[1] as u16)) as u16
}

#[verifier::opaque]
pub open spec fn spec_be64(v: u64) -> Seq<u8> {
    seq![
        (v >> 56) as u8,
        (v >> 48) as u8,
        (v >> 40) as u8,
        (v >> 32) as u8,
        (v >> 24) as u8,
        (v >> 16) as u8,
        (v >> 8) as u8,
        v as u8,
    ]
}

#[verifier::opaque]
pub open spec fn spec_u64_of(b: Seq<u8>) -> u64 {
    (((b[0] as u64) << 56) | ((b[1] as u64) << 48) | ((b[2] as u64) << 40)
        | ((b[3] as u64) << 32) | ((b[4] as u64) << 24) | ((b[5] as u64) << 16)
        | ((b[6] as u64) << 8) | (b[7] as u64)) as u64
}

#[verifier::opaque]
pub open spec fn spec_be128(v: u128) -> Seq<u8> {
    seq![
        (v >> 120) as u8,
        (v >> 112) as u8,
        (v >> 104) as u8,
        (v >> 96) as u8,
        (v >> 88) as u8,
        (v >> 80) as u8,
        (v >> 72) as u8,
        (v >> 64) as u8,
        (v >> 56) as u8,
        (v >> 48) as u8,
        (v >> 40) as u8,
        (v >> 32) as u8,
        (v >> 24) as u8,
        (v >> 16) as u8,
        (v >> 8) as u8,
        v as u8,
    ]
}

#[verifier::opaque]
pub open spec fn spec_u128_of(b: Seq<u8>) -> u128 {
    (((b[0] as u128) << 120) | ((b[1] as u128) << 112) | ((b[2] as u128) << 104)
        | ((b[3] as u128) << 96) | ((b[4] as u128) << 88) | ((b[5] as u128) << 80)
        | ((b[6] as u128) << 72) | ((b[7] as u128) << 64) | ((b[8] as u128) << 56)
        | ((b[9] as u128) << 48) | ((b[10] as u128) << 40) | ((b[11] as u128) << 32)
        | ((b[12] as u128) << 24) | ((b[13] as u128) << 16) | ((b[14] as u128) << 8)
        | (b[15] as u128)) as u128
}

/// The byte lengths of the big-endian encodings, available ambiently.
pub broadcast proof fn lemma_be16_len(v: u16)
    ensures
        (#[trigger] spec_be16(v)).len() == 2,
{
    reveal(spec_be16);
}

pub broadcast proof fn lemma_be64_len(v: u64)
    ensures
        (#[trigger] spec_be64(v)).len() == 8,
{
    reveal(spec_be64);
}

pub broadcast proof fn lemma_be128_len(v: u128)
    ensures
        (#[trigger] spec_be128(v)).len() == 16,
{
    reveal(spec_be128);
}

/// Reading back the two bytes of a big-endian `u16` gives the value.
pub proof fn lemma_be16_roundtrip(v: u16)
    ensures
        spec_u16_of(spec_be16(v)) == v,
{
    reveal(spec_be16);
    reveal(spec_u16_of);
    let b0 = (v >> 8) as u8;
    let b1 = v as u8;
    assert((((b0 as u16) << 8) | (b1 as u16)) as u16 == v) by (bit_vector)
        requires
            b0 == (v >> 8) as u8,
            b1 == v as u8,
    ;
}

/// Reading back the eight bytes of a big-endian `u64` gives the value.
pub proof fn lemma_be64_roundtrip(v: u64)
    ensures
        spec_u64_of(spec_be64(v)) == v,
{
    reveal(spec_be64);
    reveal(spec_u64_of);
    let b0 = (v >> 56) as u8;
    let b1 = (v >> 48) as u8;
    let b2 = (v >> 40) as u8;
    let b3 = (v >> 32) as u8;
    let b4 = (v >> 24) as u8;
    let b5 = (v >> 16) as u8;
    let b6 = (v >> 8) as u8;
    let b7 = v as u8;
    assert((((b0 as u64) << 56) | ((b1 as u64) << 48) | ((b2 as u64) << 40)
        | ((b3 as u64) << 32) | ((b4 as u64) << 24) | ((b5 as u64) << 16)
        | ((b6 as u64) << 8) | (b7 as u64)) as u64 == v) by (bit_vector)
        requires
            b0 == (v >> 56) as u8,
            b1 == (v >> 48) as u8,
            b2 == (v >> 40) as u8,
            b3 == (v >> 32) as u8,
            b4 == (v >> 24) as u8,
            b5 == (v >> 16) as u8,
            b6 == (v >> 8) as u8,
            b7 == v as u8,
    ;
}

/// Reading back the sixteen bytes of a big-endian `u128` gives the value.
pub proof fn lemma_be128_roundtrip(v: u128)
    ensures
        spec_u128_of(spec_be128(v)) == v,
{
    reveal(spec_be128);
    reveal(spec_u128_of);
    let b0 = (v >> 120) as u8;
    let b1 = (v >> 112) as u8;
    let b2 = (v >> 104) as u8;
    let b3 = (v >> 96) as u8;
    let b4 = (v >> 88) as u8;
    let b5 = (v >> 80) as u8;
    let b6 = (v >> 72) as u8;
    let b7 = (v >> 64) as u8;
    let b8 = (v >> 56) as u8;
    let b9 = (v >> 48) as u8;
    let b10 = (v >> 40) as u8;
    let b11 = (v >> 32) as u8;
    let b12 = (v >> 24) as u8;
    let b13 = (v >> 16) as u8;
    let b14 = (v >> 8) as u8;
    let b15 = v as u8;
    assert((((b0 as u128) << 120) | ((b1 as u128) << 112) | ((b2 as u128) << 104)
        | ((b3 as u128) << 96) | ((b4 as u128) << 88) | ((b5 as u128) << 80)
        | ((b6 as u128) << 72) | ((b7 as u128) << 64) | ((b8 as u128) << 56)
        | ((b9 as u128) << 48) | ((b10 as u128) << 40) | ((b11 as u128) << 32)
        | ((b12 as u128) << 24) | ((b13 as u128) << 16) | ((b14 as u128) << 8)
        | (b15 as u128)) as u128 == v) by (bit_vector)
        requires
            b0 == (v >> 120) as u8,
            b1 == (v >> 112) as u8,
            b2 == (v >> 104) as u8,
            b3 == (v >> 96) as u8,
            b4 == (v >> 88) as u8,
            b5 == (v >> 80) as u8,
            b6 == (v >> 72) as u8,
            b7 == (v >> 64) as u8,
            b8 == (v >> 56) as u8,
            b9 == (v >> 48) as u8,
            b10 == (v >> 40) as u8,
            b11 == (v >> 32) as u8,
            b12 == (v >> 24) as u8,
            b13 == (v >> 16) as u8,
            b14 == (v >> 8) as u8,
            b15 == v as u8,
    ;
}

pub fn enc_be16(out: &mut Vec<u8>, v: u16)
    ensures
        final(out)@ == old(out)@ + spec_be16(v),
{
    out.push((v >> 8) as u8);
    out.push(#[verifier::truncate] (v as u8));
    proof {
        reveal(spec_be16);
        assert(out@ =~= old(out)@ + spec_be16(v));
    }
}

pub fn enc_be64(out: &mut Vec<u8>, v: u64)
    ensures
        final(out)@ == old(out)@ + spec_be64(v),
{
    out.push((v >> 56) as u8);
    out.push(#[verifier::truncate] ((v >> 48) as u8));
    out.push(#[verifier::truncate] ((v >> 40) as u8));
    out.push(#[verifier::truncate] ((v >> 32) as u8));
    out.push(#[verifier::truncate] ((v >> 24) as u8));
    out.push(#[verifier::truncate] ((v >> 16) as u8));
    out.push(#[verifier::truncate] ((v >> 8) as u8));
    out.push(#[verifier::truncate] (v as u8));
    proof {
        reveal(spec_be64);
        assert(out@ =~= old(out)@ + spec_be64(v));
    }
}

pub fn enc_be128(out: &mut Vec<u8>, v: u128)
    ensures
        final(out)@ == old(out)@ + spec_be128(v),
{
    out.push((v >> 120) as u8);
    out.push(#[verifier::truncate] ((v >> 112) as u8));
    out.push(#[verifier::truncate] ((v >> 104) as u8));
    out.push(#[verifier::truncate] ((v >> 96) as u8));
    out.push(#[verifier::truncate] ((v >> 88) as u8));
    out.push(#[verifier::truncate] ((v >> 80) as u8));
    out.push(#[verifier::truncate] ((v >> 72) as u8));
    out.push(#[verifier::truncate] ((v >> 64) as u8));
    out.push(#[verifier::truncate] ((v >> 56) as u8));
    out.push(#[verifier::truncate] ((v >> 48) as u8));
    out.push(#[verifier::truncate] ((v >> 40) as u8));
    out.push(#[verifier::truncate] ((v >> 32) as u8));
    out.push(#[verifier::truncate] ((v >> 24) as u8));
    out.push(#[verifier::truncate] ((v >> 16) as u8));
    out.push(#[verifier::truncate] ((v >> 8) as u8));
    out.push(#[verifier::truncate] (v as u8));
    proof {
        reveal(spec_be128);
        assert(out@ =~= old(out)@ + spec_be128(v));
    }
}

pub fn dec_be16(s: &[u8], pos: usize) -> (r: u16)
    requires
        pos + 2 <= s@.len(),
    ensures
        r == spec_u16_of(s@.subrange(pos as int, pos as int + 2)),
{
    let b0 = s[pos];
    let b1 = s[pos + 1];
    let r = ((b0 as u16) << 8) | (b1 as u16);
    proof {
        reveal(spec_u16_of);
        let w = s@.subrange(pos as int, pos as int + 2);
        assert(w[0] == b0 && w[1] == b1);
    }
    r
}

pub fn dec_be64(s: &[u8], pos: usize) -> (r: u64)
    requires
        pos + 8 <= s@.len(),
    ensures
        r == spec_u64_of(s@.subrange(pos as int, pos as int + 8)),
{
    let b0 = s[pos];
    let b1 = s[pos + 1];
    let b2 = s[pos + 2];
    let b3 = s[pos + 3];
    let b4 = s[pos + 4];
    let b5 = s[pos + 5];
    let b6 = s[pos + 6];
    let b7 = s[pos + 7];
    let r = ((b0 as u64) << 56) | ((b1 as u64) << 48) | ((b2 as u64) << 40)
        | ((b3 as u64) << 32) | ((b4 as u64) << 24) | ((b5 as u64) << 16)
        | ((b6 as u64) << 8) | (b7 as u64);
    proof {
        reveal(spec_u64_of);
        let w = s@.subrange(pos as int, pos as int + 8);
        assert(w[0] == b0 && w[1] == b1 && w[2] == b2 && w[3] == b3 && w[4] == b4 && w[5] == b5
            && w[6] == b6 && w[7] == b7);
    }
    r
}

pub fn dec_be128(s: &[u8], pos: usize) -> (r: u128)
    requires
        pos + 16 <= s@.len(),
    ensures
        r == spec_u128_of(s@.subrange(pos as int, pos as int + 16)),
{
    let b0 = s[pos];
    let b1 = s[pos + 1];
    let b2 = s[pos + 2];
    let b3 = s[pos + 3];
    let b4 = s[pos + 4];
    let b5 = s[pos + 5];
    let b6 = s[pos + 6];
    let b7 = s[pos + 7];
    let b8 = s[pos + 8];
    let b9 = s[pos + 9];
    let b10 = s[pos + 10];
    let b11 = s[pos + 11];
    let b12 = s[pos + 12];
    let b13 = s[pos + 13];
    let b14 = s[pos + 14];
    let b15 = s[pos + 15];
    let r = ((b0 as u128) << 120) | ((b1 as u128) << 112) | ((b2 as u128) << 104)
        | ((b3 as u128) << 96) | ((b4 as u128) << 88) | ((b5 as u128) << 80)
        | ((b6 as u128) << 72) | ((b7 as u128) << 64) | ((b8 as u128) << 56)
        | ((b9 as u128) << 48) | ((b10 as u128) << 40) | ((b11 as u128) << 32)
        | ((b12 as u128) << 24) | ((b13 as u128) << 16) | ((b14 as u128) << 8)
        | (b15 as u128);
    proof {
        reveal(spec_u128_of);
        let w = s@.subrange(pos as int, pos as int + 16);
        assert(w[0] == b0 && w[1] == b1 && w[2] == b2 && w[3] == b3 && w[4] == b4 && w[5] == b5
            && w[6] == b6 && w[7] == b7 && w[8] == b8 && w[9] == b9 && w[10] == b10
            && w[11] == b11 && w[12] == b12 && w[13] == b13 && w[14] == b14 && w[15] == b15);
    }
    r
}

// ---------------------------------------------------------------------
// Raw byte runs and length-prefixed byte strings
// ---------------------------------------------------------------------

/// Appends a byte run verbatim.
pub fn enc_raw(out: &mut Vec<u8>, b: &[u8])
    ensures
        final(out)@ == old(out)@ + b@,
{
    out.extend_from_slice(b);
}

/// Copies `n` bytes starting at `pos` out of `s`.
pub fn read_run(s: &[u8], pos: usize, n: usize) -> (r: Vec<u8>)
    requires
        pos + n <= s@.len(),
    ensures
        r@ == s@.subrange(pos as int, pos as int + n as int),
{
    let slen = s.len();
    let mut out: Vec<u8> = Vec::new();
    let mut i: usize = 0;
    while i < n
        invariant
            i <= n,
            slen == s@.len(),
            pos + n <= slen,
            out@ == s@.subrange(pos as int, pos as int + i as int),
        decreases n - i,
    {
        out.push(s[pos + i]);
        proof {
            assert(out@ =~= s@.subrange(pos as int, pos as int + (i + 1) as int));
        }
        i += 1;
    }
    out
}

/// Compares two byte runs.
pub fn bytes_eq(a: &[u8], b: &[u8]) -> (r: bool)
    ensures
        r == (a@ == b@),
{
    if a.len() != b.len() {
        proof {
            assert(a@.len() != b@.len());
        }
        return false;
    }
    let n = a.len();
    let mut i: usize = 0;
    while i < n
        invariant
            i <= n,
            n == a@.len() && n == b@.len(),
            forall|j: int| 0 <= j < i ==> a@[j] == b@[j],
        decreases n - i,
    {
        if a[i] != b[i] {
            return false;
        }
        i += 1;
    }
    proof {
        assert(a@ =~= b@);
    }
    true
}

/// Whether every byte of a byte string is zero.
pub open spec fn is_zero(s: Seq<u8>) -> bool {
    forall|i: int| 0 <= i < s.len() ==> s[i] == 0
}

/// Tests whether the bytes of `s` in `[start, end)` are all zero.
pub fn zero_run(s: &[u8], start: usize, end: usize) -> (r: bool)
    requires
        start <= end <= s@.len(),
    ensures
        r == is_zero(s@.subrange(start as int, end as int)),
{
    let mut i: usize = start;
    while i < end
        invariant
            start <= i <= end <= s@.len(),
            forall|j: int| start <= j < i ==> s@[j] == 0,
        decreases end - i,
    {
        if s[i] != 0 {
            proof {
                assert(s@.subrange(start as int, end as int)[i - start] != 0);
            }
            return false;
        }
        i += 1;
    }
    true
}

/// A length-prefixed byte string: eight length bytes, then the bytes.
pub open spec fn spec_enc_bytes(b: Seq<u8>) -> Seq<u8> {
    spec_be64(b.len() as u64) + b
}

/// Spec mirror of `dec_bytes`.
pub open spec fn spec_dec_bytes(s: Seq<u8>, pos: int) -> Option<(Seq<u8>, int)> {
    if 0 <= pos && pos + 8 <= s.len() {
        let n = spec_u64_of(s.subrange(pos, pos + 8)) as int;
        if pos + 8 + n <= s.len() {
            Some((s.subrange(pos + 8, pos + 8 + n), pos + 8 + n))
        } else {
            None
        }
    } else {
        None
    }
}

pub fn enc_bytes(out: &mut Vec<u8>, b: &[u8])
    ensures
        final(out)@ == old(out)@ + spec_enc_bytes(b@),
{
    enc_be64(out, b.len() as u64);
    out.extend_from_slice(b);
    proof {
        assert(out@ =~= old(out)@ + spec_enc_bytes(b@));
    }
}

pub fn dec_bytes(s: &[u8], pos: usize) -> (r: Option<(Vec<u8>, usize)>)
    requires
        pos <= s@.len(),
    ensures
        match r {
            Some(v) => {
                &&& spec_dec_bytes(s@, pos as int) == Some((v.0@, v.1 as int))
                &&& pos < v.1 <= s@.len()
            },
            None => spec_dec_bytes(s@, pos as int) is None,
        },
{
    if s.len() - pos < 8 {
        return None;
    }
    let n64 = dec_be64(s, pos);
    let avail = s.len() - pos - 8;
    if n64 > avail as u64 {
        return None;
    }
    let n = n64 as usize;
    let body = read_run(s, pos + 8, n);
    Some((body, pos + 8 + n))
}

/// Decoding an encoded byte string embedded at `pos` gives the bytes back.
pub proof fn lemma_dec_bytes_roundtrip(s: Seq<u8>, pos: int, b: Seq<u8>)
    requires
        0 <= pos,
        b.len() <= u64::MAX,
        pos + spec_enc_bytes(b).len() <= s.len(),
        s.subrange(pos, pos + spec_enc_bytes(b).len()) == spec_enc_bytes(b),
    ensures
        spec_dec_bytes(s, pos) == Some((b, pos + 8 + b.len())),
{
    let blen = b.len() as u64;
    lemma_be64_len(blen);
    lemma_be64_roundtrip(blen);
    let w = s.subrange(pos, pos + spec_enc_bytes(b).len());
    assert(s.subrange(pos, pos + 8) =~= w.subrange(0, 8));
    assert(w.subrange(0, 8) =~= spec_be64(blen));
    assert(spec_u64_of(s.subrange(pos, pos + 8)) == blen);
    let n = spec_u64_of(s.subrange(pos, pos + 8)) as int;
    assert(n == b.len() as int);
    assert(s.subrange(pos + 8, pos + 8 + b.len()) =~= w.subrange(8, 8 + b.len() as int));
    assert(w.subrange(8, 8 + b.len() as int) =~= b);
}

// ---------------------------------------------------------------------
// One-byte discriminators
// ---------------------------------------------------------------------

/// Spec mirror of `dec_u8`.
pub open spec fn spec_dec_u8(s: Seq<u8>, pos: int) -> Option<(u8, int)> {
    if 0 <= pos && pos + 1 <= s.len() {
        Some((s[pos], pos + 1))
    } else {
        None
    }
}

pub fn dec_u8(s: &[u8], pos: usize) -> (r: Option<(u8, usize)>)
    requires
        pos <= s@.len(),
    ensures
        match r {
            Some(v) => {
                &&& spec_dec_u8(s@, pos as int) == Some((v.0, v.1 as int))
                &&& pos < v.1 <= s@.len()
            },
            None => spec_dec_u8(s@, pos as int) is None,
        },
{
    if pos < s.len() {
        Some((s[pos], pos + 1))
    } else {
        None
    }
}

} // verus!
