//! The algorithm registry: which primitives exist, their textual tokens,
//! and the protocol names built from them.
//!
//! A protocol name is a dash-separated lowercase string such as
//! `sigae-ed25519-ristrettodh-aes128colm0`.  `Protocol::parse` is the exact
//! inverse of `Protocol::name` on every supported protocol, and rejects
//! everything else with the precise parse error.

use vstd::prelude::*;
use crate::error::ParseError;

verus! {

/// The signature algorithm choices.
#[derive(Clone, Copy, Debug, PartialEq, Eq, Structural)]
pub enum Signature {
    Ed25519,
}

/// The key-exchange algorithm choices.  `Kyber` is a recognised token of
/// the registry, but no key set of this library carries a Kyber slot, so
/// protocols naming it fail with `Unsupported` when used.
#[derive(Clone, Copy, Debug, PartialEq, Eq, Structural)]
pub enum KeyExchange {
    RistrettoDH,
    Kyber,
}

/// The AEAD cipher choices.
#[derive(Clone, Copy, Debug, PartialEq, Eq, Structural)]
pub enum Encrypt {
    Aes128Colm0,
}

/// A protocol: one of the three envelope modes with its primitive slots.
/// The `bool` of `Sigae` is the `bind_aad` flag: whether the signed hash
/// also commits to the associated data and the plaintext.
#[derive(Clone, Copy, Debug, PartialEq, Eq, Structural)]
pub enum Protocol {
    Sonly(Signature),
    Ooake(KeyExchange, Encrypt),
    Sigae(bool, Signature, KeyExchange, Encrypt),
}

// ---------------------------------------------------------------------
// Tokens
// ---------------------------------------------------------------------

/// The token `sonly` as bytes.
pub open spec fn tok_sonly() -> Seq<u8> {
    seq![115u8, 111u8, 110u8, 108u8, 121u8]
}

/// Builds the token `sonly`.
pub fn tok_sonly_vec() -> (r: Vec<u8>)
    ensures
        r@ == tok_sonly(),
{
    let mut v: Vec<u8> = Vec::new();
    v.push(115u8);
    v.push(111u8);
    v.push(110u8);
    v.push(108u8);
    v.push(121u8);
    proof {
        assert(v@ =~= tok_sonly());
    }
    v
}

/// The token `ooake` as bytes.
pub open spec fn tok_ooake() -> Seq<u8> {
    seq![111u8, 111u8, 97u8, 107u8, 101u8]
}

/// Builds the token `ooake`.
pub fn tok_ooake_vec() -> (r: Vec<u8>)
    ensures
        r@ == tok_ooake(),
{
    let mut v: Vec<u8> = Vec::new();
    v.push(111u8);
    v.push(111u8);
    v.push(97u8);
    v.push(107u8);
    v.push(101u8);
    proof {
        assert(v@ =~= tok_ooake());
    }
    v
}

/// The token `sigae` as bytes.
pub open spec fn tok_sigae() -> Seq<u8> {
    seq![115u8, 105u8, 103u8, 97u8, 101u8]
}

/// Builds the token `sigae`.
pub fn tok_sigae_vec() -> (r: Vec<u8>)
    ensures
        r@ == tok_sigae(),
{
    let mut v: Vec<u8> = Vec::new();
    v.push(115u8);
    v.push(105u8);
    v.push(103u8);
    v.push(97u8);
    v.push(101u8);
    proof {
        assert(v@ =~= tok_sigae());
    }
    v
}

/// The token `sigae+` as bytes.
pub open spec fn tok_sigae_plus() -> Seq<u8> {
    seq![115u8, 105u8, 103u8, 97u8, 101u8, 43u8]
}

/// Builds the token `sigae+`.
pub fn tok_sigae_plus_vec() -> (r: Vec<u8>)
    ensures
        r@ == tok_sigae_plus(),
{
    let mut v: Vec<u8> = Vec::new();
    v.push(115u8);
    v.push(105u8);
    v.push(103u8);
    v.push(97u8);
    v.push(101u8);
    v.push(43u8);
    proof {
        assert(v@ =~= tok_sigae_plus());
    }
    v
}

/// The token `ed25519` as bytes.
pub open spec fn tok_ed25519() -> Seq<u8> {
    seq![101u8, 100u8, 50u8, 53u8, 53u8, 49u8, 57u8]
}

/// Builds the token `ed25519`.
pub fn tok_ed25519_vec() -> (r: Vec<u8>)
    ensures
        r@ == tok_ed25519(),
{
    let mut v: Vec<u8> = Vec::new();
    v.push(101u8);
    v.push(100u8);
    v.push(50u8);
    v.push(53u8);
    v.push(53u8);
    v.push(49u8);
    v.push(57u8);
    proof {
        assert(v@ =~= tok_ed25519());
    }
    v
}

/// The token `ristrettodh` as bytes.
pub open spec fn tok_ristrettodh() -> Seq<u8> {
    seq![114u8, 105u8, 115u8, 116u8, 114u8, 101u8, 116u8, 116u8, 111u8, 100u8, 104u8]
}

/// Builds the token `ristrettodh`.
pub fn tok_ristrettodh_vec() -> (r: Vec<u8>)
    ensures
        r@ == tok_ristrettodh(),
{
    let mut v: Vec<u8> = Vec::new();
    v.push(114u8);
    v.push(105u8);
    v.push(115u8);
    v.push(116u8);
    v.push(114u8);
    v.push(101u8);
    v.push(116u8);
    v.push(116u8);
    v.push(111u8);
    v.push(100u8);
    v.push(104u8);
    proof {
        assert(v@ =~= tok_ristrettodh());
    }
    v
}

/// The token `kyber` as bytes.
pub open spec fn tok_kyber() -> Seq<u8> {
    seq![107u8, 121u8, 98u8, 101u8, 114u8]
}

/// Builds the token `kyber`.
pub fn tok_kyber_vec() -> (r: Vec<u8>)
    ensures
        r@ == tok_kyber(),
{
    let mut v: Vec<u8> = Vec::new();
    v.push(107u8);
    v.push(121u8);
    v.push(98u8);
    v.push(101u8);
    v.push(114u8);
    proof {
        assert(v@ =~= tok_kyber());
    }
    v
}

/// The token `aes128colm0` as bytes.
pub open spec fn tok_aes128colm0() -> Seq<u8> {
    seq![97u8, 101u8, 115u8, 49u8, 50u8, 56u8, 99u8, 111u8, 108u8, 109u8, 48u8]
}

/// Builds the token `aes128colm0`.
pub fn tok_aes128colm0_vec() -> (r: Vec<u8>)
    ensures
        r@ == tok_aes128colm0(),
{
    let mut v: Vec<u8> = Vec::new();
    v.push(97u8);
    v.push(101u8);
    v.push(115u8);
    v.push(49u8);
    v.push(50u8);
    v.push(56u8);
    v.push(99u8);
    v.push(111u8);
    v.push(108u8);
    v.push(109u8);
    v.push(48u8);
    proof {
        assert(v@ =~= tok_aes128colm0());
    }
    v
}

pub open spec fn spec_sig_token(s: Signature) -> Seq<u8> {
    tok_ed25519()
}

pub open spec fn spec_kex_token(k: KeyExchange) -> Seq<u8> {
    match k {
        KeyExchange::RistrettoDH => tok_ristrettodh(),
        KeyExchange::Kyber => tok_kyber(),
    }
}

pub open spec fn spec_enc_token(e: Encrypt) -> Seq<u8> {
    tok_aes128colm0()
}

/// The canonical name of a protocol.
pub open spec fn spec_protocol_name(p: Protocol) -> Seq<u8> {
    match p {
        Protocol::Sonly(s) => tok_sonly() + seq![45u8] + spec_sig_token(s),
        Protocol::Ooake(k, e) => tok_ooake() + seq![45u8] + spec_kex_token(k) + seq![45u8]
            + spec_enc_token(e),
        Protocol::Sigae(flag, s, k, e) => (if flag {
            tok_sigae_plus()
        } else {
            tok_sigae()
        }) + seq![45u8] + spec_sig_token(s) + seq![45u8] + spec_kex_token(k) + seq![45u8]
            + spec_enc_token(e),
    }
}

// ---------------------------------------------------------------------
// Parsing
// ---------------------------------------------------------------------

/// The position of the first dash at or after `i`, or the length.
pub open spec fn find_dash(s: Seq<u8>, i: int) -> int
    decreases s.len() - i,
{
    if i < 0 || i >= s.len() {
        s.len() as int
    } else if s[i] == 45 {
        i
    } else {
        find_dash(s, i + 1)
    }
}

/// The token starting at `i`: the bytes up to the next dash.
pub open spec fn token_at(s: Seq<u8>, i: int) -> Seq<u8> {
    s.subrange(i, find_dash(s, i))
}

/// The start of the token after the one at `i`; one past the end when the
/// token at `i` was the last.
pub open spec fn next_pos(s: Seq<u8>, i: int) -> int {
    find_dash(s, i) + 1
}

pub open spec fn spec_parse_sig(t: Seq<u8>) -> Result<Signature, ParseError> {
    if t == tok_ed25519() {
        Ok(Signature::Ed25519)
    } else {
        Err(ParseError::Unknown)
    }
}

pub open spec fn spec_parse_kex(t: Seq<u8>) -> Result<KeyExchange, ParseError> {
    if t == tok_ristrettodh() {
        Ok(KeyExchange::RistrettoDH)
    } else if t == tok_kyber() {
        Ok(KeyExchange::Kyber)
    } else {
        Err(ParseError::Unknown)
    }
}

pub open spec fn spec_parse_enc(t: Seq<u8>) -> Result<Encrypt, ParseError> {
    if t == tok_aes128colm0() {
        Ok(Encrypt::Aes128Colm0)
    } else {
        Err(ParseError::Unknown)
    }
}

/// The exact outcome of parsing a protocol name.  Tokens after those the
/// grammar needs are ignored.
pub open spec fn spec_parse_protocol(s: Seq<u8>) -> Result<Protocol, ParseError> {
    let t0 = token_at(s, 0);
    let p1 = next_pos(s, 0);
    if t0 == tok_sonly() {
        if p1 > s.len() {
            Err(ParseError::UnexpectedEnd)
        } else {
            match spec_parse_sig(token_at(s, p1)) {
                Ok(sig) => Ok(Protocol::Sonly(sig)),
                Err(e) => Err(e),
            }
        }
    } else if t0 == tok_ooake() {
        if p1 > s.len() {
            Err(ParseError::UnexpectedEnd)
        } else {
            match spec_parse_kex(token_at(s, p1)) {
                Ok(KeyExchange::RistrettoDH) => {
                    let p2 = next_pos(s, p1);
                    if p2 > s.len() {
                        Err(ParseError::UnexpectedEnd)
                    } else {
                        match spec_parse_enc(token_at(s, p2)) {
                            Ok(enc) => Ok(Protocol::Ooake(KeyExchange::RistrettoDH, enc)),
                            Err(e) => Err(e),
                        }
                    }
                },
                Ok(_) => Err(ParseError::NotAvailable),
                Err(e) => Err(e),
            }
        }
    } else if t0 == tok_sigae() || t0 == tok_sigae_plus() {
        let flag = t0 == tok_sigae_plus();
        if p1 > s.len() {
            Err(ParseError::UnexpectedEnd)
        } else {
            match spec_parse_sig(token_at(s, p1)) {
                Ok(sig) => {
                    let p2 = next_pos(s, p1);
                    if p2 > s.len() {
                        Err(ParseError::UnexpectedEnd)
                    } else {
                        match spec_parse_kex(token_at(s, p2)) {
                            Ok(kex) => {
                                let p3 = next_pos(s, p2);
                                if p3 > s.len() {
                                    Err(ParseError::UnexpectedEnd)
                                } else {
                                    match spec_parse_enc(token_at(s, p3)) {
                                        Ok(enc) => Ok(Protocol::Sigae(flag, sig, kex, enc)),
                                        Err(e) => Err(e),
                                    }
                                }
                            },
                            Err(e) => Err(e),
                        }
                    }
                },
                Err(e) => Err(e),
            }
        }
    } else {
        Err(ParseError::Unknown)
    }
}

/// Finds the next dash; the executable mirror of `find_dash`.
fn find_dash_exec(s: &[u8], i: usize) -> (r: usize)
    requires
        i <= s@.len(),
    ensures
        r == find_dash(s@, i as int),
        i <= r <= s@.len(),
{
    let n = s.len();
    let mut j = i;
    while j < n
        invariant
            i <= j <= n,
            n == s@.len(),
            find_dash(s@, i as int) == find_dash(s@, j as int),
        decreases n - j,
    {
        if s[j] == 45 {
            return j;
        }
        j += 1;
    }
    j
}

/// Reads the token starting at `i` and the start of the next one.
fn read_token(s: &[u8], i: usize) -> (r: (Vec<u8>, usize))
    requires
        i <= s@.len(),
        s@.len() < usize::MAX,
    ensures
        r.0@ == token_at(s@, i as int),
        r.1 == next_pos(s@, i as int),
        i < r.1 <= s@.len() + 1,
{
    let end = find_dash_exec(s, i);
    let tok = crate::wire::read_run(s, i, end - i);
    proof {
        assert(s@.subrange(i as int, i as int + (end - i) as int) =~= token_at(s@, i as int));
    }
    (tok, end + 1)
}

impl Signature {
    /// The registry's signature tokens.
    pub fn names() -> (r: Vec<Vec<u8>>)
        ensures
            r@.len() == 1,
            r@[0]@ == tok_ed25519(),
    {
        let mut v: Vec<Vec<u8>> = Vec::new();
        v.push(tok_ed25519_vec());
        v
    }
}

impl KeyExchange {
    /// The registry's key-exchange tokens that key sets can hold.
    pub fn names() -> (r: Vec<Vec<u8>>)
        ensures
            r@.len() == 1,
            r@[0]@ == tok_ristrettodh(),
    {
        let mut v: Vec<Vec<u8>> = Vec::new();
        v.push(tok_ristrettodh_vec());
        v
    }
}

impl Encrypt {
    /// The registry's AEAD tokens.
    pub fn names() -> (r: Vec<Vec<u8>>)
        ensures
            r@.len() == 1,
            r@[0]@ == tok_aes128colm0(),
    {
        let mut v: Vec<Vec<u8>> = Vec::new();
        v.push(tok_aes128colm0_vec());
        v
    }
}

impl Protocol {
    /// The name the command line uses when none is given.
    pub fn default_name() -> (r: Vec<u8>)
        ensures
            r@ == spec_protocol_name(
                Protocol::Ooake(KeyExchange::RistrettoDH, Encrypt::Aes128Colm0),
            ),
    {
        let p = Protocol::Ooake(KeyExchange::RistrettoDH, Encrypt::Aes128Colm0);
        p.name()
    }

    /// The canonical dash-separated name of this protocol.
    pub fn name(&self) -> (r: Vec<u8>)
        ensures
            r@ == spec_protocol_name(*self),
    {
        let mut v: Vec<u8> = Vec::new();
        match self {
            Protocol::Sonly(_) => {
                let mut t = tok_sonly_vec();
                v.append(&mut t);
                v.push(45u8);
                let mut t = tok_ed25519_vec();
                v.append(&mut t);
            },
            Protocol::Ooake(k, _) => {
                let mut t = tok_ooake_vec();
                v.append(&mut t);
                v.push(45u8);
                let mut t = match k {
                    KeyExchange::RistrettoDH => tok_ristrettodh_vec(),
                    KeyExchange::Kyber => tok_kyber_vec(),
                };
                v.append(&mut t);
                v.push(45u8);
                let mut t = tok_aes128colm0_vec();
                v.append(&mut t);
            },
            Protocol::Sigae(flag, _, k, _) => {
                let mut t = if *flag {
                    tok_sigae_plus_vec()
                } else {
                    tok_sigae_vec()
                };
                v.append(&mut t);
                v.push(45u8);
                let mut t = tok_ed25519_vec();
                v.append(&mut t);
                v.push(45u8);
                let mut t = match k {
                    KeyExchange::RistrettoDH => tok_ristrettodh_vec(),
                    KeyExchange::Kyber => tok_kyber_vec(),
                };
                v.append(&mut t);
                v.push(45u8);
                let mut t = tok_aes128colm0_vec();
                v.append(&mut t);
            },
        }
        proof {
            assert(v@ =~= spec_protocol_name(*self));
        }
        v
    }

    /// Parses a protocol name; the exact inverse of `name` on supported
    /// protocols.
    pub fn parse(s: &[u8]) -> (r: Result<Protocol, ParseError>)
        requires
            s@.len() < usize::MAX,
        ensures
            r == spec_parse_protocol(s@),
    {
        let (t0, p1) = read_token(s, 0);
        let k_sonly = tok_sonly_vec();
        let k_ooake = tok_ooake_vec();
        let k_sigae = tok_sigae_vec();
        let k_sigae_plus = tok_sigae_plus_vec();
        let k_ed25519 = tok_ed25519_vec();
        let k_ristrettodh = tok_ristrettodh_vec();
        let k_kyber = tok_kyber_vec();
        let k_aes = tok_aes128colm0_vec();
        if crate::wire::bytes_eq(t0.as_slice(), k_sonly.as_slice()) {
            if p1 > s.len() {
                Err(ParseError::UnexpectedEnd)
            } else {
                let (t1, _) = read_token(s, p1);
                if crate::wire::bytes_eq(t1.as_slice(), k_ed25519.as_slice()) {
                    Ok(Protocol::Sonly(Signature::Ed25519))
                } else {
                    Err(ParseError::Unknown)
                }
            }
        } else if crate::wire::bytes_eq(t0.as_slice(), k_ooake.as_slice()) {
            if p1 > s.len() {
                Err(ParseError::UnexpectedEnd)
            } else {
                let (t1, p2) = read_token(s, p1);
                if crate::wire::bytes_eq(t1.as_slice(), k_ristrettodh.as_slice()) {
                    if p2 > s.len() {
                        Err(ParseError::UnexpectedEnd)
                    } else {
                        let (t2, _) = read_token(s, p2);
                        if crate::wire::bytes_eq(t2.as_slice(), k_aes.as_slice()) {
                            Ok(Protocol::Ooake(KeyExchange::RistrettoDH, Encrypt::Aes128Colm0))
                        } else {
                            Err(ParseError::Unknown)
                        }
                    }
                } else if crate::wire::bytes_eq(t1.as_slice(), k_kyber.as_slice()) {
                    Err(ParseError::NotAvailable)
                } else {
                    Err(ParseError::Unknown)
                }
            }
        } else if crate::wire::bytes_eq(t0.as_slice(), k_sigae.as_slice())
            || crate::wire::bytes_eq(t0.as_slice(), k_sigae_plus.as_slice()) {
            let flag = crate::wire::bytes_eq(t0.as_slice(), k_sigae_plus.as_slice());
            if p1 > s.len() {
                Err(ParseError::UnexpectedEnd)
            } else {
                let (t1, p2) = read_token(s, p1);
                if !crate::wire::bytes_eq(t1.as_slice(), k_ed25519.as_slice()) {
                    Err(ParseError::Unknown)
                } else if p2 > s.len() {
                    Err(ParseError::UnexpectedEnd)
                } else {
                    let (t2, p3) = read_token(s, p2);
                    let kex = if crate::wire::bytes_eq(t2.as_slice(), k_ristrettodh.as_slice()) {
                        Some(KeyExchange::RistrettoDH)
                    } else if crate::wire::bytes_eq(t2.as_slice(), k_kyber.as_slice()) {
                        Some(KeyExchange::Kyber)
                    } else {
                        None
                    };
                    match kex {
                        None => Err(ParseError::Unknown),
                        Some(kex) => {
                            if p3 > s.len() {
                                Err(ParseError::UnexpectedEnd)
                            } else {
                                let (t3, _) = read_token(s, p3);
                                if crate::wire::bytes_eq(t3.as_slice(), k_aes.as_slice()) {
                                    Ok(
                                        Protocol::Sigae(
                                            flag,
                                            Signature::Ed25519,
                                            kex,
                                            Encrypt::Aes128Colm0,
                                        ),
                                    )
                                } else {
                                    Err(ParseError::Unknown)
                                }
                            }
                        },
                    }
                }
            }
        } else {
            Err(ParseError::Unknown)
        }
    }
}



/// If the bytes at `i` are exactly the dash-free token `t`, followed by a
/// dash or the end, then the token read at `i` is `t`.
proof fn lemma_token_after(s: Seq<u8>, i: int, t: Seq<u8>)
    requires
        0 <= i,
        i + t.len() <= s.len(),
        s.subrange(i, i + t.len()) == t,
        forall|k: int| 0 <= k < t.len() ==> t[k] != 45,
        i + t.len() == s.len() || s[i + t.len()] == 45,
    ensures
        find_dash(s, i) == i + t.len(),
        token_at(s, i) == t,
    decreases t.len(),
{
    if t.len() == 0 {
        assert(find_dash(s, i) == i);
    } else {
        assert(s[i] == t[0]);
        let t2 = t.skip(1);
        assert(s.subrange(i + 1, i + 1 + t2.len()) =~= t2);
        assert(forall|k: int| 0 <= k < t2.len() ==> t2[k] == t[k + 1]);
        lemma_token_after(s, i + 1, t2);
        assert(token_at(s, i) =~= t);
    }
}

} // verus!

verus! {


proof fn lemma_tok_sonly_dashfree()
    ensures
        forall|k: int| 0 <= k < tok_sonly().len() ==> tok_sonly()[k] != 45,
{
    assert forall|k: int| 0 <= k < tok_sonly().len() implies tok_sonly()[k] != 45 by {
        assert(tok_sonly()[0] == 115);
        assert(tok_sonly()[1] == 111);
        assert(tok_sonly()[2] == 110);
        assert(tok_sonly()[3] == 108);
        assert(tok_sonly()[4] == 121);
        assert(tok_sonly().len() == 5);
    }
}

proof fn lemma_tok_ooake_dashfree()
    ensures
        forall|k: int| 0 <= k < tok_ooake().len() ==> tok_ooake()[k] != 45,
{
    assert forall|k: int| 0 <= k < tok_ooake().len() implies tok_ooake()[k] != 45 by {
        assert(tok_ooake()[0] == 111);
        assert(tok_ooake()[1] == 111);
        assert(tok_ooake()[2] == 97);
        assert(tok_ooake()[3] == 107);
        assert(tok_ooake()[4] == 101);
        assert(tok_ooake().len() == 5);
    }
}

proof fn lemma_tok_sigae_dashfree()
    ensures
        forall|k: int| 0 <= k < tok_sigae().len() ==> tok_sigae()[k] != 45,
{
    assert forall|k: int| 0 <= k < tok_sigae().len() implies tok_sigae()[k] != 45 by {
        assert(tok_sigae()[0] == 115);
        assert(tok_sigae()[1] == 105);
        assert(tok_sigae()[2] == 103);
        assert(tok_sigae()[3] == 97);
        assert(tok_sigae()[4] == 101);
        assert(tok_sigae().len() == 5);
    }
}

proof fn lemma_tok_sigae_plus_dashfree()
    ensures
        forall|k: int| 0 <= k < tok_sigae_plus().len() ==> tok_sigae_plus()[k] != 45,
{
    assert forall|k: int| 0 <= k < tok_sigae_plus().len() implies tok_sigae_plus()[k] != 45 by {
        assert(tok_sigae_plus()[0] == 115);
        assert(tok_sigae_plus()[1] == 105);
        assert(tok_sigae_plus()[2] == 103);
        assert(tok_sigae_plus()[3] == 97);
        assert(tok_sigae_plus()[4] == 101);
        assert(tok_sigae_plus()[5] == 43);
        assert(tok_sigae_plus().len() == 6);
    }
}

proof fn lemma_tok_ed25519_dashfree()
    ensures
        forall|k: int| 0 <= k < tok_ed25519().len() ==> tok_ed25519()[k] != 45,
{
    assert forall|k: int| 0 <= k < tok_ed25519().len() implies tok_ed25519()[k] != 45 by {
        assert(tok_ed25519()[0] == 101);
        assert(tok_ed25519()[1] == 100);
        assert(tok_ed25519()[2] == 50);
        assert(tok_ed25519()[3] == 53);
        assert(tok_ed25519()[4] == 53);
        assert(tok_ed25519()[5] == 49);
        assert(tok_ed25519()[6] == 57);
        assert(tok_ed25519().len() == 7);
    }
}

proof fn lemma_tok_ristrettodh_dashfree()
    ensures
        forall|k: int| 0 <= k < tok_ristrettodh().len() ==> tok_ristrettodh()[k] != 45,
{
    assert forall|k: int| 0 <= k < tok_ristrettodh().len() implies tok_ristrettodh()[k] != 45 by {
        assert(tok_ristrettodh()[0] == 114);
        assert(tok_ristrettodh()[1] == 105);
        assert(tok_ristrettodh()[2] == 115);
        assert(tok_ristrettodh()[3] == 116);
        assert(tok_ristrettodh()[4] == 114);
        assert(tok_ristrettodh()[5] == 101);
        assert(tok_ristrettodh()[6] == 116);
        assert(tok_ristrettodh()[7] == 116);
        assert(tok_ristrettodh()[8] == 111);
        assert(tok_ristrettodh()[9] == 100);
        assert(tok_ristrettodh()[10] == 104);
        assert(tok_ristrettodh().len() == 11);
    }
}

proof fn lemma_tok_kyber_dashfree()
    ensures
        forall|k: int| 0 <= k < tok_kyber().len() ==> tok_kyber()[k] != 45,
{
    assert forall|k: int| 0 <= k < tok_kyber().len() implies tok_kyber()[k] != 45 by {
        assert(tok_kyber()[0] == 107);
        assert(tok_kyber()[1] == 121);
        assert(tok_kyber()[2] == 98);
        assert(tok_kyber()[3] == 101);
        assert(tok_kyber()[4] == 114);
        assert(tok_kyber().len() == 5);
    }
}

proof fn lemma_tok_aes128colm0_dashfree()
    ensures
        forall|k: int| 0 <= k < tok_aes128colm0().len() ==> tok_aes128colm0()[k] != 45,
{
    assert forall|k: int| 0 <= k < tok_aes128colm0().len() implies tok_aes128colm0()[k] != 45 by {
        assert(tok_aes128colm0()[0] == 97);
        assert(tok_aes128colm0()[1] == 101);
        assert(tok_aes128colm0()[2] == 115);
        assert(tok_aes128colm0()[3] == 49);
        assert(tok_aes128colm0()[4] == 50);
        assert(tok_aes128colm0()[5] == 56);
        assert(tok_aes128colm0()[6] == 99);
        assert(tok_aes128colm0()[7] == 111);
        assert(tok_aes128colm0()[8] == 108);
        assert(tok_aes128colm0()[9] == 109);
        assert(tok_aes128colm0()[10] == 48);
        assert(tok_aes128colm0().len() == 11);
    }
}


/// Protocol-name round trip: parsing the canonical name of any protocol
/// of the registry gives the protocol back.  (The one unusable
/// combination, OOAKE over a non-classical exchange, has a name that
/// parses to `NotAvailable` instead and is left out.)
#[verifier::rlimit(100)]
#[verifier::spinoff_prover]
pub proof fn lemma_protocol_name_roundtrip(p0: Protocol)
    requires
        !(p0 matches Protocol::Ooake(KeyExchange::Kyber, _)),
    ensures
        spec_parse_protocol(spec_protocol_name(p0)) == Ok::<Protocol, ParseError>(p0),
{
    lemma_tok_sonly_dashfree();
    lemma_tok_ooake_dashfree();
    lemma_tok_sigae_dashfree();
    lemma_tok_sigae_plus_dashfree();
    lemma_tok_ed25519_dashfree();
    lemma_tok_ristrettodh_dashfree();
    lemma_tok_kyber_dashfree();
    lemma_tok_aes128colm0_dashfree();

            assert(tok_sigae()[1] == 105 && tok_sonly()[1] == 111);
            assert(tok_sigae()[0] == 115 && tok_ooake()[0] == 111);
            assert(tok_sigae_plus().len() == 6 && tok_sonly().len() == 5 && tok_ooake().len() == 5
                && tok_sigae().len() == 5);
            assert(tok_kyber().len() == 5 && tok_ristrettodh().len() == 11);
            assert(tok_ooake()[0] == 111 && tok_sonly()[0] == 115);

    match p0 {
        Protocol::Sonly(Signature::Ed25519) => {
            let p = Protocol::Sonly(Signature::Ed25519);
            let s = spec_protocol_name(p);
            assert(s.len() == 13);
            assert(s.subrange(0, 5) =~= tok_sonly());
            assert(s[5] == 45);
            lemma_token_after(s, 0, tok_sonly());
            assert(s.subrange(6, 13) =~= tok_ed25519());
            lemma_token_after(s, 6, tok_ed25519());
        },
        Protocol::Ooake(KeyExchange::RistrettoDH, Encrypt::Aes128Colm0) => {
            let p = Protocol::Ooake(KeyExchange::RistrettoDH, Encrypt::Aes128Colm0);
            let s = spec_protocol_name(p);
            assert(s.len() == 29);
            assert(s.subrange(0, 5) =~= tok_ooake());
            assert(s[5] == 45);
            lemma_token_after(s, 0, tok_ooake());
            assert(s.subrange(6, 17) =~= tok_ristrettodh());
            assert(s[17] == 45);
            lemma_token_after(s, 6, tok_ristrettodh());
            assert(s.subrange(18, 29) =~= tok_aes128colm0());
            lemma_token_after(s, 18, tok_aes128colm0());
        },
        Protocol::Ooake(KeyExchange::Kyber, _) => {
            assert(false);
        },
        Protocol::Sigae(true, Signature::Ed25519, KeyExchange::RistrettoDH, Encrypt::Aes128Colm0) => {
            let p = Protocol::Sigae(true, Signature::Ed25519, KeyExchange::RistrettoDH, Encrypt::Aes128Colm0);
            let s = spec_protocol_name(p);
            assert(s.len() == 38);
            assert(s.subrange(0, 6) =~= tok_sigae_plus());
            assert(s[6] == 45);
            lemma_token_after(s, 0, tok_sigae_plus());
            assert(s.subrange(7, 14) =~= tok_ed25519());
            assert(s[14] == 45);
            lemma_token_after(s, 7, tok_ed25519());
            assert(s.subrange(15, 26) =~= tok_ristrettodh());
            assert(s[26] == 45);
            lemma_token_after(s, 15, tok_ristrettodh());
            assert(s.subrange(27, 38) =~= tok_aes128colm0());
            lemma_token_after(s, 27, tok_aes128colm0());
        },
        Protocol::Sigae(true, Signature::Ed25519, KeyExchange::Kyber, Encrypt::Aes128Colm0) => {
            let p = Protocol::Sigae(true, Signature::Ed25519, KeyExchange::Kyber, Encrypt::Aes128Colm0);
            let s = spec_protocol_name(p);
            assert(s.len() == 32);
            assert(s.subrange(0, 6) =~= tok_sigae_plus());
            assert(s[6] == 45);
            lemma_token_after(s, 0, tok_sigae_plus());
            assert(s.subrange(7, 14) =~= tok_ed25519());
            assert(s[14] == 45);
            lemma_token_after(s, 7, tok_ed25519());
            assert(s.subrange(15, 20) =~= tok_kyber());
            assert(s[20] == 45);
            lemma_token_after(s, 15, tok_kyber());
            assert(s.subrange(21, 32) =~= tok_aes128colm0());
            lemma_token_after(s, 21, tok_aes128colm0());
        },
        Protocol::Sigae(false, Signature::Ed25519, KeyExchange::RistrettoDH, Encrypt::Aes128Colm0) => {
            let p = Protocol::Sigae(false, Signature::Ed25519, KeyExchange::RistrettoDH, Encrypt::Aes128Colm0);
            let s = spec_protocol_name(p);
            assert(s.len() == 37);
            assert(s.subrange(0, 5) =~= tok_sigae());
            assert(s[5] == 45);
            lemma_token_after(s, 0, tok_sigae());
            assert(s.subrange(6, 13) =~= tok_ed25519());
            assert(s[13] == 45);
            lemma_token_after(s, 6, tok_ed25519());
            assert(s.subrange(14, 25) =~= tok_ristrettodh());
            assert(s[25] == 45);
            lemma_token_after(s, 14, tok_ristrettodh());
            assert(s.subrange(26, 37) =~= tok_aes128colm0());
            lemma_token_after(s, 26, tok_aes128colm0());
        },
        Protocol::Sigae(false, Signature::Ed25519, KeyExchange::Kyber, Encrypt::Aes128Colm0) => {
            let p = Protocol::Sigae(false, Signature::Ed25519, KeyExchange::Kyber, Encrypt::Aes128Colm0);
            let s = spec_protocol_name(p);
            assert(s.len() == 31);
            assert(s.subrange(0, 5) =~= tok_sigae());
            assert(s[5] == 45);
            lemma_token_after(s, 0, tok_sigae());
            assert(s.subrange(6, 13) =~= tok_ed25519());
            assert(s[13] == 45);
            lemma_token_after(s, 6, tok_ed25519());
            assert(s.subrange(14, 19) =~= tok_kyber());
            assert(s[19] == 45);
            lemma_token_after(s, 14, tok_kyber());
            assert(s.subrange(20, 31) =~= tok_aes128colm0());
            lemma_token_after(s, 20, tok_aes128colm0());
        },
    }
}

} // verus!

verus! {

/// The metadata projection a protocol dictates: which of the sender's
/// keys are published, and which of the recipient's keys are hinted by
/// fingerprint.  A slot the protocol demands but a key set lacks is the
/// `Unsupported` error.
impl Protocol {
    pub fn loss(
        &self,
        send: &crate::key::SecretKey,
        recv: &crate::key::PublicKey,
    ) -> (r: Result<(crate::key::PublicKey, Option<crate::key::ShortPublicKey>), crate::error::Error>)
        requires
            send.wf(),
            recv.wf(),
        ensures
            match r {
                Ok(p) => {
                    &&& p.0.wf()
                    &&& match *self {
                        Protocol::Sonly(_) => {
                            &&& send.ed25519 is Some
                            &&& p.0.spec_ed25519() == Some(
                                crate::key::ed25519::ed25519_public_of(send.spec_ed25519()->0),
                            )
                            &&& p.0.spec_ristrettodh() is None
                            &&& p.1 is None
                        },
                        Protocol::Ooake(KeyExchange::RistrettoDH, _) => {
                            &&& send.ristrettodh is Some && recv.ristrettodh is Some
                            &&& p.0.spec_ed25519() is None
                            &&& p.0.spec_ristrettodh() == Some(
                                crate::key::ristrettodh::base_mul_of(send.spec_ristrettodh()->0),
                            )
                            &&& p.1 is Some
                            &&& p.1->0.ed25519 is None
                            &&& p.1->0.ristrettodh == Some(
                                crate::format::spec_short(recv.spec_ristrettodh()->0),
                            )
                        },
                        Protocol::Ooake(KeyExchange::Kyber, _) => false,
                        Protocol::Sigae(_, _, KeyExchange::RistrettoDH, _) => {
                            &&& send.ed25519 is Some && send.ristrettodh is Some
                                && recv.ristrettodh is Some
                            &&& p.0.spec_ed25519() == Some(
                                crate::key::ed25519::ed25519_public_of(send.spec_ed25519()->0),
                            )
                            &&& p.0.spec_ristrettodh() == Some(
                                crate::key::ristrettodh::base_mul_of(send.spec_ristrettodh()->0),
                            )
                            &&& p.1 is Some
                            &&& p.1->0.ed25519 is None
                            &&& p.1->0.ristrettodh == Some(
                                crate::format::spec_short(recv.spec_ristrettodh()->0),
                            )
                        },
                        Protocol::Sigae(_, _, KeyExchange::Kyber, _) => false,
                    }
                },
                Err(e) => match *self {
                    Protocol::Sonly(_) => e == crate::error::Error::Unsupported(
                        crate::error::Alg::Ed25519,
                    ) && send.ed25519 is None,
                    Protocol::Ooake(KeyExchange::RistrettoDH, _) => e
                        == crate::error::Error::Unsupported(crate::error::Alg::RistrettoDH) && (
                    send.ristrettodh is None || recv.ristrettodh is None),
                    Protocol::Ooake(KeyExchange::Kyber, _) => e == crate::error::Error::Parse(
                        ParseError::NotAvailable,
                    ),
                    Protocol::Sigae(_, _, KeyExchange::RistrettoDH, _) => {
                        ||| e == crate::error::Error::Unsupported(crate::error::Alg::Ed25519)
                            && send.ed25519 is None
                        ||| e == crate::error::Error::Unsupported(crate::error::Alg::RistrettoDH)
                            && send.ed25519 is Some && (send.ristrettodh is None
                            || recv.ristrettodh is None)
                    },
                    Protocol::Sigae(_, _, KeyExchange::Kyber, _) => {
                        ||| e == crate::error::Error::Unsupported(crate::error::Alg::Ed25519)
                            && send.ed25519 is None
                        ||| e == crate::error::Error::Unsupported(crate::error::Alg::Kyber)
                            && send.ed25519 is Some
                    },
                },
            },
    {
        match self {
            Protocol::Sonly(_) => {
                let sig_sk = match &send.ed25519 {
                    Some(k) => k,
                    None => {
                        return Err(crate::error::Error::Unsupported(crate::error::Alg::Ed25519));
                    },
                };
                let pk = crate::key::ed25519::PublicKey::from_secret(sig_sk);
                let smap = crate::key::PublicKey { ed25519: Some(pk), ristrettodh: None };
                Ok((smap, None))
            },
            Protocol::Ooake(KeyExchange::RistrettoDH, _) => {
                let ska = match &send.ristrettodh {
                    Some(k) => k,
                    None => {
                        return Err(
                            crate::error::Error::Unsupported(crate::error::Alg::RistrettoDH),
                        );
                    },
                };
                let pkb = match &recv.ristrettodh {
                    Some(k) => k,
                    None => {
                        return Err(
                            crate::error::Error::Unsupported(crate::error::Alg::RistrettoDH),
                        );
                    },
                };
                let pka = crate::key::ristrettodh::PublicKey::from_secret(ska);
                let smap = crate::key::PublicKey { ed25519: None, ristrettodh: Some(pka) };
                let rmap = crate::key::ShortPublicKey {
                    ed25519: None,
                    ristrettodh: Some(crate::format::Short::of_bytes(pkb.bytes.as_slice())),
                };
                Ok((smap, Some(rmap)))
            },
            Protocol::Ooake(KeyExchange::Kyber, _) => Err(
                crate::error::Error::Parse(ParseError::NotAvailable),
            ),
            Protocol::Sigae(_, _, kex, _) => {
                let sig_sk = match &send.ed25519 {
                    Some(k) => k,
                    None => {
                        return Err(crate::error::Error::Unsupported(crate::error::Alg::Ed25519));
                    },
                };
                match kex {
                    KeyExchange::RistrettoDH => {
                        let ska = match &send.ristrettodh {
                            Some(k) => k,
                            None => {
                                return Err(
                                    crate::error::Error::Unsupported(
                                        crate::error::Alg::RistrettoDH,
                                    ),
                                );
                            },
                        };
                        let pkb = match &recv.ristrettodh {
                            Some(k) => k,
                            None => {
                                return Err(
                                    crate::error::Error::Unsupported(
                                        crate::error::Alg::RistrettoDH,
                                    ),
                                );
                            },
                        };
                        let sig_pk = crate::key::ed25519::PublicKey::from_secret(sig_sk);
                        let pka = crate::key::ristrettodh::PublicKey::from_secret(ska);
                        let smap = crate::key::PublicKey {
                            ed25519: Some(sig_pk),
                            ristrettodh: Some(pka),
                        };
                        let rmap = crate::key::ShortPublicKey {
                            ed25519: None,
                            ristrettodh: Some(
                                crate::format::Short::of_bytes(pkb.bytes.as_slice()),
                            ),
                        };
                        Ok((smap, Some(rmap)))
                    },
                    KeyExchange::Kyber => Err(
                        crate::error::Error::Unsupported(crate::error::Alg::Kyber),
                    ),
                }
            },
        }
    }
}

} // verus!
