//! ENE: an end-to-end encrypted message and file envelope library.
//!
//! A user holds a long-term identity (a multi-algorithm key set); given a
//! correspondent's public key set the library produces a self-describing
//! envelope binding a plaintext and optional associated data to both
//! identities under one of three one-pass protocols (signature-only,
//! one-pass OAKE, one-pass SIGMA over AEAD), and the recipient inverts the
//! operation deterministically.

pub mod aead;
pub mod alg;
pub mod error;
pub mod format;
pub mod hashes;
pub mod key;
pub mod profile;
pub mod proto;
pub mod rng;
pub mod wire;

use vstd::prelude::*;
use crate::alg::KeyExchange;
use crate::alg::Protocol;
use crate::error::Alg;
use crate::error::Error;
use crate::error::ParseError;
use crate::error::ProtoError;
use crate::format::ENE;
use crate::format::Envelope;
use crate::format::Message;
use crate::format::Meta;
use crate::format::VERSION;
use crate::format::Version;
use crate::format::meta_view;
use crate::key::ristrettodh::base_mul_of;

verus! {

/// An identity: an identifier and the secret key set behind it.
pub struct Ene {
    pub id: Vec<u8>,
    pub key: key::SecretKey,
}

/// Chooses which algorithm slots a fresh key set holds.
pub struct Builder {
    pub ed25519: bool,
    pub ristrettodh: bool,
}

/// A single send/receive pairing: our identity and the correspondent's
/// identifier and public key set.
pub struct And<'a> {
    pub ene: &'a Ene,
    pub target: (&'a [u8], &'a key::PublicKey),
}

impl Default for Builder {
    /// The default slots: the classical signature and key exchange.
    fn default() -> (r: Builder)
        ensures
            r.ed25519 && r.ristrettodh,
    {
        Builder { ed25519: true, ristrettodh: true }
    }
}

impl Builder {
    /// No slots.
    pub fn empty() -> (r: Builder)
        ensures
            !r.ed25519 && !r.ristrettodh,
    {
        Builder { ed25519: false, ristrettodh: false }
    }

    /// Every slot the registry has keys for.
    pub fn all() -> (r: Builder)
        ensures
            r.ed25519 && r.ristrettodh,
    {
        Builder { ed25519: true, ristrettodh: true }
    }

    /// Generates a fresh key set with the chosen slots.
    pub fn generate(&self, id: &[u8]) -> (r: Result<Ene, Error>)
        ensures
            match r {
                Ok(e) => {
                    &&& e.id@ == id@
                    &&& e.key.wf()
                    &&& e.key.ed25519 is Some <==> self.ed25519
                    &&& e.key.ristrettodh is Some <==> self.ristrettodh
                },
                Err(e) => e == Error::Rand && (self.ed25519 || self.ristrettodh),
            },
    {
        let ed = if self.ed25519 {
            Some(key::ed25519::SecretKey::generate()?)
        } else {
            None
        };
        let dh = if self.ristrettodh {
            Some(key::ristrettodh::SecretKey::generate()?)
        } else {
            None
        };
        Ok(
            Ene {
                id: vstd::slice::slice_to_vec(id),
                key: key::SecretKey { ed25519: ed, ristrettodh: dh },
            },
        )
    }
}

/// The position of the first comma at or after `i`, or the length.
pub open spec fn find_comma(s: Seq<u8>, i: int) -> int
    decreases s.len() - i,
{
    if i < 0 || i >= s.len() {
        s.len() as int
    } else if s[i] == 44 {
        i
    } else {
        find_comma(s, i + 1)
    }
}


/// ASCII whitespace, as the algorithm-list parser strips it.
pub open spec fn is_space(b: u8) -> bool {
    b == 32 || b == 9 || b == 10 || b == 13
}

/// ASCII lower-casing of one byte.
pub open spec fn to_lower(b: u8) -> u8 {
    if 65 <= b <= 90 {
        (b + 32) as u8
    } else {
        b
    }
}

/// The first non-space position at or after `i`.
pub open spec fn skip_spaces(t: Seq<u8>, i: int) -> int
    decreases t.len() - i,
{
    if i < 0 || i >= t.len() {
        t.len() as int
    } else if is_space(t[i]) {
        skip_spaces(t, i + 1)
    } else {
        i
    }
}

/// One past the last non-space position before `j`.
pub open spec fn rskip_spaces(t: Seq<u8>, j: int) -> int
    decreases j,
{
    if j <= 0 || j > t.len() {
        0
    } else if is_space(t[j - 1]) {
        rskip_spaces(t, j - 1)
    } else {
        j
    }
}

/// The trimmed span never widens: the end never lies past the start of
/// the search.
proof fn lemma_rskip_le(t: Seq<u8>, j: int)
    requires
        0 <= j <= t.len(),
    ensures
        rskip_spaces(t, j) <= j,
    decreases j,
{
    if j > 0 && is_space(t[j - 1]) {
        lemma_rskip_le(t, j - 1);
    }
}

/// A token brought to canonical form: surrounding ASCII whitespace
/// stripped, ASCII letters lower-cased.
pub open spec fn canon_token(t: Seq<u8>) -> Seq<u8> {
    let a = skip_spaces(t, 0);
    let b = rskip_spaces(t, t.len() as int);
    if a >= b {
        Seq::<u8>::empty()
    } else {
        t.subrange(a, b).map_values(|x: u8| to_lower(x))
    }
}

/// Brings a token to canonical form; the executable mirror of
/// `canon_token`.
fn canon_token_exec(t: &[u8]) -> (r: Vec<u8>)
    ensures
        r@ == canon_token(t@),
{
    let n = t.len();
    let mut a: usize = 0;
    while a < n && (t[a] == 32 || t[a] == 9 || t[a] == 10 || t[a] == 13)
        invariant
            a <= n,
            n == t@.len(),
            skip_spaces(t@, 0) == skip_spaces(t@, a as int),
        decreases n - a,
    {
        a += 1;
    }
    let mut b: usize = n;
    while b > a && (t[b - 1] == 32 || t[b - 1] == 9 || t[b - 1] == 10 || t[b - 1] == 13)
        invariant
            a <= b <= n,
            n == t@.len(),
            rskip_spaces(t@, n as int) == rskip_spaces(t@, b as int),
        decreases b,
    {
        b -= 1;
    }
    proof {
        assert(skip_spaces(t@, 0) == a as int);
        if b > a {
            assert(rskip_spaces(t@, n as int) == b as int);
        } else {
            lemma_rskip_le(t@, a as int);
        }
    }
    let mut out: Vec<u8> = Vec::new();
    let mut i: usize = a;
    while i < b
        invariant
            a <= i <= b <= n,
            n == t@.len(),
            out@.len() == i - a,
            forall|k: int| 0 <= k < out@.len() ==> out@[k] == to_lower(t@[a + k]),
        decreases b - i,
    {
        let c = t[i];
        if 65 <= c && c <= 90 {
            out.push(c + 32);
        } else {
            out.push(c);
        }
        i += 1;
    }
    proof {
        assert(out@ =~= canon_token(t@));
    }
    out
}

/// The exact outcome of reading a comma-separated algorithm list from
/// position `i` with the slots chosen so far.  Each token is brought to
/// canonical form before it is matched.
pub open spec fn spec_builder_tokens(s: Seq<u8>, i: int, ed: bool, dh: bool) -> Result<
    (bool, bool),
    ParseError,
>
    decreases s.len() - i,
    via spec_builder_tokens_decreases
{
    if i < 0 || i > s.len() {
        Err(ParseError::Unknown)
    } else {
        let t = canon_token(s.subrange(i, find_comma(s, i)));
        let np = find_comma(s, i) + 1;
        if t == crate::alg::tok_ed25519() {
            if np > s.len() {
                Ok((true, dh))
            } else {
                spec_builder_tokens(s, np, true, dh)
            }
        } else if t == crate::alg::tok_ristrettodh() {
            if np > s.len() {
                Ok((ed, true))
            } else {
                spec_builder_tokens(s, np, ed, true)
            }
        } else {
            Err(ParseError::Unknown)
        }
    }
}

/// The next comma never lies before the search start.
proof fn lemma_find_comma_ge(s: Seq<u8>, i: int)
    ensures
        find_comma(s, i) >= i || i > s.len(),
    decreases s.len() - i,
{
    if 0 <= i < s.len() && s[i] != 44 {
        lemma_find_comma_ge(s, i + 1);
    }
}

#[via_fn]
proof fn spec_builder_tokens_decreases(s: Seq<u8>, i: int, ed: bool, dh: bool) {
    lemma_find_comma_ge(s, i);
}

/// Finds the next comma; the executable mirror of `find_comma`.
fn find_comma_exec(s: &[u8], i: usize) -> (r: usize)
    requires
        i <= s@.len(),
    ensures
        r == find_comma(s@, i as int),
        i <= r <= s@.len(),
{
    let n = s.len();
    let mut j = i;
    while j < n
        invariant
            i <= j <= n,
            n == s@.len(),
            find_comma(s@, i as int) == find_comma(s@, j as int),
        decreases n - j,
    {
        if s[j] == 44 {
            return j;
        }
        j += 1;
    }
    j
}

impl Builder {
    /// Parses a comma-separated list of slot names, enabling each named
    /// slot; surrounding whitespace and letter case are forgiven, an
    /// unknown name is rejected.
    pub fn parse(s: &[u8]) -> (r: Result<Builder, ParseError>)
        requires
            s@.len() < usize::MAX,
        ensures
            match r {
                Ok(b) => spec_builder_tokens(s@, 0, false, false) == Ok::<
                    (bool, bool),
                    ParseError,
                >((b.ed25519, b.ristrettodh)),
                Err(e) => spec_builder_tokens(s@, 0, false, false) == Err::<
                    (bool, bool),
                    ParseError,
                >(e),
            },
    {
        let mut ed = false;
        let mut dh = false;
        let mut i: usize = 0;
        let k_ed = crate::alg::tok_ed25519_vec();
        let k_dh = crate::alg::tok_ristrettodh_vec();
        loop
            invariant
                i <= s@.len() < usize::MAX,
                k_ed@ == crate::alg::tok_ed25519(),
                k_dh@ == crate::alg::tok_ristrettodh(),
                spec_builder_tokens(s@, 0, false, false) == spec_builder_tokens(
                    s@,
                    i as int,
                    ed,
                    dh,
                ),
            decreases s@.len() - i,
        {
            let end = find_comma_exec(s, i);
            let raw = crate::wire::read_run(s, i, end - i);
            proof {
                assert(s@.subrange(i as int, i as int + (end - i) as int) =~= s@.subrange(
                    i as int,
                    find_comma(s@, i as int),
                ));
            }
            let tok = canon_token_exec(raw.as_slice());
            if crate::wire::bytes_eq(tok.as_slice(), k_ed.as_slice()) {
                ed = true;
            } else if crate::wire::bytes_eq(tok.as_slice(), k_dh.as_slice()) {
                dh = true;
            } else {
                return Err(ParseError::Unknown);
            }
            if end + 1 > s.len() {
                return Ok(Builder { ed25519: ed, ristrettodh: dh });
            }
            i = end + 1;
        }
    }
}

impl Ene {
    /// Pairs this identity with a correspondent for one operation.
    pub fn and<'a>(&'a self, id: &'a [u8], target: &'a key::PublicKey) -> (r: And<'a>)
        ensures
            r.ene == self,
            r.target.0@ == id@,
            r.target.1 == target,
    {
        And { ene: self, target: (id, target) }
    }

    /// Wraps an identifier and a secret key set.
    pub fn from(id: &[u8], key: key::SecretKey) -> (r: Ene)
        ensures
            r.id@ == id@,
            r.key == key,
    {
        Ene { id: vstd::slice::slice_to_vec(id), key }
    }

    pub fn get_id(&self) -> (r: &Vec<u8>)
        ensures
            r@ == self.id@,
    {
        &self.id
    }

    pub fn as_secret(&self) -> (r: &key::SecretKey)
        ensures
            r == self.key,
    {
        &self.key
    }

    pub fn into_secret(self) -> (r: key::SecretKey)
        ensures
            r == self.key,
    {
        self.key
    }
}

impl<'a> And<'a> {
    /// Encrypts (or signs) a message to the correspondent under the given
    /// protocol and wraps it in a message envelope with the metadata the
    /// protocol dictates.
    pub fn sendto(&self, proto: &Protocol, aad: &[u8], message: &[u8]) -> (r: Result<
        Message,
        Error,
    >)
        requires
            self.ene.key.wf(),
            self.target.1.wf(),
        ensures
            match r {
                Ok(env) => {
                    &&& env.1 == Version(VERSION)
                    &&& env.2.1 == *proto
                    &&& meta_view(&env.2.0).id == self.ene.id@
                    &&& env.2.0.s.1.wf()
                    &&& match *proto {
                        Protocol::Sonly(_) => {
                            &&& self.ene.key.ed25519 is Some
                            &&& meta_view(&env.2.0).ed == Some(
                                crate::key::ed25519::ed25519_public_of(
                                    self.ene.key.spec_ed25519()->0,
                                ),
                            )
                            &&& meta_view(&env.2.0).dh is None
                            &&& meta_view(&env.2.0).rec is None
                            &&& env.2.2@ == crate::format::spec_enc_sonly_payload(
                                crate::key::ed25519::ed25519_sign_of(
                                    self.ene.key.spec_ed25519()->0,
                                    crate::proto::sonly::sonly_hash(self.ene.id@, aad@, message@),
                                ),
                            )
                            &&& crate::key::ed25519::ed25519_verify_of(
                                crate::key::ed25519::ed25519_public_of(
                                    self.ene.key.spec_ed25519()->0,
                                ),
                                crate::key::ed25519::ed25519_sign_of(
                                    self.ene.key.spec_ed25519()->0,
                                    crate::proto::sonly::sonly_hash(self.ene.id@, aad@, message@),
                                ),
                                crate::proto::sonly::sonly_hash(self.ene.id@, aad@, message@),
                            )
                            &&& crate::key::ed25519::ed25519_sign_of(
                                self.ene.key.spec_ed25519()->0,
                                crate::proto::sonly::sonly_hash(self.ene.id@, aad@, message@),
                            ).len() == 64
                        },
                        Protocol::Ooake(KeyExchange::RistrettoDH, _) => {
                            &&& self.ene.key.ristrettodh is Some
                            &&& self.target.1.ristrettodh is Some
                            &&& meta_view(&env.2.0).ed is None
                            &&& meta_view(&env.2.0).dh == Some(
                                base_mul_of(self.ene.key.spec_ristrettodh()->0),
                            )
                            &&& meta_view(&env.2.0).rec is Some
                            &&& meta_view(&env.2.0).rec->0.id == self.target.0@
                            &&& meta_view(&env.2.0).rec->0.ed is None
                            &&& meta_view(&env.2.0).rec->0.dh == Some(
                                crate::format::spec_short(self.target.1.spec_ristrettodh()->0),
                            )
                            &&& exists|x: Seq<u8>, c: Seq<u8>|
                                #![trigger crate::format::spec_enc_ooake_payload(base_mul_of(x), c)]
                                {
                                    let bb = self.target.1.spec_ristrettodh()->0;
                                    let e = crate::proto::ooake::ooake_e(
                                        self.ene.id@,
                                        self.ene.key.ristrettodh->0.spec_pk(),
                                        self.target.0@,
                                        bb,
                                        base_mul_of(x),
                                    );
                                    let kk = crate::proto::ooake::ooake_send_key(
                                        bb,
                                        self.ene.key.spec_ristrettodh()->0,
                                        e,
                                        x,
                                    );
                                    &&& env.2.2@ == crate::format::spec_enc_ooake_payload(
                                        base_mul_of(x),
                                        c,
                                    )
                                    &&& base_mul_of(x).len() == 32
                                    &&& crate::key::ristrettodh::point_valid_of(base_mul_of(x))
                                    &&& crate::aead::aes128colm0::aead_open_of(
                                        crate::proto::ooake::ooake_aekey(kk),
                                        crate::proto::ooake::ooake_nonce(kk),
                                        aad@,
                                        c,
                                    ) == Some(message@)
                                    &&& c.len() == message@.len() + 16
                                    &&& c.len() <= usize::MAX
                                    &&& forall|b: Seq<u8>|
                                        self.target.1.spec_ristrettodh()->0 == base_mul_of(b)
                                            ==> kk == base_mul_of(
                                            #[trigger] crate::proto::ooake::ooake_exponent(
                                                self.ene.key.spec_ristrettodh()->0,
                                                b,
                                                e,
                                                x,
                                            ),
                                        )
                                }
                        },
                        Protocol::Ooake(KeyExchange::Kyber, _) => false,
                        Protocol::Sigae(flag, _, KeyExchange::RistrettoDH, _) => {
                            &&& self.ene.key.ed25519 is Some
                            &&& self.ene.key.ristrettodh is Some
                            &&& self.target.1.ristrettodh is Some
                            &&& meta_view(&env.2.0).ed == Some(
                                crate::key::ed25519::ed25519_public_of(
                                    self.ene.key.spec_ed25519()->0,
                                ),
                            )
                            &&& meta_view(&env.2.0).dh == Some(
                                base_mul_of(self.ene.key.spec_ristrettodh()->0),
                            )
                            &&& meta_view(&env.2.0).rec is Some
                            &&& meta_view(&env.2.0).rec->0.id == self.target.0@
                            &&& meta_view(&env.2.0).rec->0.ed is None
                            &&& meta_view(&env.2.0).rec->0.dh == Some(
                                crate::format::spec_short(self.target.1.spec_ristrettodh()->0),
                            )
                            &&& exists|x: Seq<u8>, csig: Seq<u8>, cmsg: Seq<u8>|
                                #![trigger crate::format::spec_enc_sigae_payload(base_mul_of(x), csig, cmsg)]
                                {
                                    let bb = self.target.1.spec_ristrettodh()->0;
                                    let shared = crate::hashes::sha3_512_of(
                                        crate::key::ristrettodh::point_mul_of(bb, x),
                                    );
                                    let hh = crate::proto::sigae::sigae_hash(
                                        self.ene.id@,
                                        self.target.0@,
                                        bb,
                                        base_mul_of(x),
                                        flag,
                                        aad@,
                                        message@,
                                    );
                                    let sigb = crate::key::ed25519::ed25519_sign_of(
                                        self.ene.key.spec_ed25519()->0,
                                        hh,
                                    );
                                    &&& env.2.2@ == crate::format::spec_enc_sigae_payload(
                                        base_mul_of(x),
                                        csig,
                                        cmsg,
                                    )
                                    &&& base_mul_of(x).len() == 32
                                    &&& crate::key::ristrettodh::point_valid_of(base_mul_of(x))
                                    &&& crate::aead::aes128colm0::aead_open_of(
                                        crate::proto::sigae::sigae_k1(shared),
                                        crate::proto::sigae::sigae_n1(shared),
                                        crate::proto::sigae::id_pair(self.ene.id@, self.target.0@),
                                        csig,
                                    ) == Some(sigb)
                                    &&& crate::aead::aes128colm0::aead_open_of(
                                        crate::proto::sigae::sigae_k2(shared),
                                        crate::proto::sigae::sigae_n2(shared),
                                        aad@,
                                        cmsg,
                                    ) == Some(message@)
                                    &&& csig.len() == 80
                                    &&& cmsg.len() == message@.len() + 16
                                    &&& cmsg.len() <= usize::MAX
                                    &&& sigb.len() == 64
                                    &&& crate::key::ed25519::ed25519_verify_of(
                                        crate::key::ed25519::ed25519_public_of(
                                            self.ene.key.spec_ed25519()->0,
                                        ),
                                        sigb,
                                        hh,
                                    )
                                    &&& forall|b: Seq<u8>|
                                        self.target.1.spec_ristrettodh()->0 == base_mul_of(b)
                                            ==> shared == crate::hashes::sha3_512_of(
                                            base_mul_of(
                                                #[trigger] crate::key::ristrettodh::scalar_mul_of(
                                                    x,
                                                    b,
                                                ),
                                            ),
                                        )
                                }
                        },
                        Protocol::Sigae(_, _, KeyExchange::Kyber, _) => false,
                    }
                },
                Err(e) => {
                    ||| (e == Error::Rand && !((*proto) matches Protocol::Sonly(_)))
                    ||| (e == Error::Proto(ProtoError::InvalidLength) && (message@.len() == 0
                        || message@.len() + 16 > usize::MAX || message@.len()
                        > crate::aead::aes128colm0::LEN_MAX || aad@.len()
                        > crate::aead::aes128colm0::LEN_MAX || self.ene.id@.len()
                        + self.target.0@.len() + 1 > crate::aead::aes128colm0::LEN_MAX))
                    ||| (e == Error::Unsupported(Alg::Ed25519) && self.ene.key.ed25519 is None)
                    ||| (e == Error::Unsupported(Alg::RistrettoDH) && (
                    self.ene.key.ristrettodh is None || self.target.1.ristrettodh is None))
                    ||| (e == Error::Unsupported(Alg::Kyber) && (*proto) matches Protocol::Sigae(
                        _,
                        _,
                        KeyExchange::Kyber,
                        _,
                    ))
                    ||| (e == Error::Parse(ParseError::NotAvailable)
                        && (*proto) matches Protocol::Ooake(KeyExchange::Kyber, _))
                },
            },
            (*proto) matches Protocol::Sonly(_) && self.ene.key.ed25519 is Some ==> r is Ok,
            (*proto) matches Protocol::Sonly(_) && self.ene.key.ed25519 is None ==> r == Err::<
                Message,
                Error,
            >(Error::Unsupported(Alg::Ed25519)),
            (*proto) matches Protocol::Ooake(KeyExchange::RistrettoDH, _) && (
            self.ene.key.ristrettodh is None || self.target.1.ristrettodh is None) ==> r == Err::<
                Message,
                Error,
            >(Error::Unsupported(Alg::RistrettoDH)),
            (*proto) matches Protocol::Ooake(KeyExchange::Kyber, _) ==> r == Err::<
                Message,
                Error,
            >(Error::Parse(ParseError::NotAvailable)),
            (*proto) matches Protocol::Sigae(_, _, _, _) && self.ene.key.ed25519 is None ==> r
                == Err::<Message, Error>(Error::Unsupported(Alg::Ed25519)),
            (*proto) matches Protocol::Sigae(_, _, KeyExchange::RistrettoDH, _)
                && self.ene.key.ed25519 is Some && (self.ene.key.ristrettodh is None
                || self.target.1.ristrettodh is None) ==> r == Err::<Message, Error>(
                Error::Unsupported(Alg::RistrettoDH),
            ),
            (*proto) matches Protocol::Sigae(_, _, KeyExchange::Kyber, _)
                && self.ene.key.ed25519 is Some ==> r == Err::<Message, Error>(
                Error::Unsupported(Alg::Kyber),
            ),
    {
        let (smap, rmap) = proto.loss(&self.ene.key, self.target.1)?;
        let meta = Meta {
            s: (vstd::slice::slice_to_vec(self.ene.id.as_slice()), smap),
            r: match rmap {
                Some(m) => Some((vstd::slice::slice_to_vec(self.target.0), m)),
                None => None,
            },
        };

        let payload: Vec<u8> = match proto {
            Protocol::Sonly(_) => {
                let sk = match &self.ene.key.ed25519 {
                    Some(k) => k,
                    None => {
                        // dead: the metadata projection demanded this slot
                        proof {
                            assert(false);
                        }
                        return Err(Error::Rand);
                    },
                };
                let sig = crate::proto::sonly::send(self.ene.id.as_slice(), sk, aad, message);
                crate::format::encode_sonly_payload(&sig)
            },
            Protocol::Ooake(KeyExchange::RistrettoDH, _) => {
                let ska = match &self.ene.key.ristrettodh {
                    Some(k) => k,
                    None => {
                        // dead: the metadata projection demanded this slot
                        proof {
                            assert(false);
                        }
                        return Err(Error::Rand);
                    },
                };
                let pkb = match &self.target.1.ristrettodh {
                    Some(k) => k,
                    None => {
                        // dead: the metadata projection demanded this slot
                        proof {
                            assert(false);
                        }
                        return Err(Error::Rand);
                    },
                };
                let (m, c, gx) = match crate::proto::ooake::send(
                    self.ene.id.as_slice(),
                    ska,
                    self.target.0,
                    pkb,
                    aad,
                    message,
                ) {
                    Ok(p) => p,
                    Err(e) => {
                        return Err(e);
                    },
                };
                let clen = c.len();
                let pl = crate::format::encode_ooake_payload(&m, c.as_slice());
                proof {
                    assert(c@.len() == clen as int);
                    let x0 = gx@;
                    assert(pl@ == crate::format::spec_enc_ooake_payload(base_mul_of(x0), c@));
                }
                pl
            },
            Protocol::Ooake(KeyExchange::Kyber, _) => {
                // dead: the metadata projection refused this combination
                proof {
                    assert(false);
                }
                return Err(Error::Rand);
            },
            Protocol::Sigae(flag, _, KeyExchange::RistrettoDH, _) => {
                let sigsk = match &self.ene.key.ed25519 {
                    Some(k) => k,
                    None => {
                        // dead: the metadata projection demanded this slot
                        proof {
                            assert(false);
                        }
                        return Err(Error::Rand);
                    },
                };
                let pkb = match &self.target.1.ristrettodh {
                    Some(k) => k,
                    None => {
                        // dead: the metadata projection demanded this slot
                        proof {
                            assert(false);
                        }
                        return Err(Error::Rand);
                    },
                };
                let (t, c2, gx) = match crate::proto::sigae::send(
                    self.ene.id.as_slice(),
                    sigsk,
                    self.target.0,
                    pkb,
                    aad,
                    message,
                    *flag,
                ) {
                    Ok(p) => p,
                    Err(e) => {
                        return Err(e);
                    },
                };
                let c2len = c2.len();
                let pl = crate::format::encode_sigae_payload(&t, c2.as_slice());
                proof {
                    assert(c2@.len() == c2len as int);
                    let x0 = gx@;
                    assert(pl@ == crate::format::spec_enc_sigae_payload(
                        base_mul_of(x0),
                        t.c@,
                        c2@,
                    ));
                }
                pl
            },
            Protocol::Sigae(_, _, KeyExchange::Kyber, _) => {
                // dead: the metadata projection refused this combination
                proof {
                    assert(false);
                }
                return Err(Error::Rand);
            },
        };

        Ok(Envelope(ENE(core::marker::PhantomData), Version(VERSION), (meta, *proto, payload)))
    }

    /// Decrypts (or checks) a received message payload.  For the
    /// signature-only protocol the transmitted payload holds only the
    /// signature, so the plaintext to check must be supplied separately;
    /// success returns the empty byte string.
    pub fn recvfrom(&self, proto: &Protocol, aad: &[u8], message: &[u8], plain: Option<&[u8]>) -> (r:
        Result<Vec<u8>, Error>)
        requires
            self.ene.key.wf(),
            self.target.1.wf(),
        ensures
            match *proto {
                Protocol::Sonly(_) => {
                    let pl = match plain {
                        Some(p) => p@,
                        None => Seq::<u8>::empty(),
                    };
                    match crate::format::spec_dec_sonly_payload(message@) {
                        None => r == Err::<Vec<u8>, Error>(Error::Format),
                        Some(sigb) => {
                            if self.target.1.ed25519 is None {
                                r == Err::<Vec<u8>, Error>(Error::Unsupported(Alg::Ed25519))
                            } else if crate::key::ed25519::ed25519_verify_of(
                                self.target.1.spec_ed25519()->0,
                                sigb,
                                crate::proto::sonly::sonly_hash(self.target.0@, aad@, pl),
                            ) {
                                r is Ok && r->Ok_0@.len() == 0
                            } else {
                                r == Err::<Vec<u8>, Error>(
                                    Error::Proto(ProtoError::VerificationFailed(Alg::Ed25519)),
                                )
                            }
                        },
                    }
                },
                Protocol::Ooake(KeyExchange::RistrettoDH, _) => {
                    match crate::format::spec_dec_ooake_payload(message@) {
                        None => r == Err::<Vec<u8>, Error>(Error::Format),
                        Some((xx, c)) => {
                            if self.ene.key.ristrettodh is None || self.target.1.ristrettodh
                                is None {
                                r == Err::<Vec<u8>, Error>(Error::Unsupported(Alg::RistrettoDH))
                            } else {
                                let b = self.ene.key.spec_ristrettodh()->0;
                                let e = crate::proto::ooake::ooake_e(
                                    self.target.0@,
                                    self.target.1.spec_ristrettodh()->0,
                                    self.ene.id@,
                                    self.ene.key.ristrettodh->0.spec_pk(),
                                    xx,
                                );
                                let kk = crate::proto::ooake::ooake_recv_key(
                                    self.target.1.spec_ristrettodh()->0,
                                    b,
                                    e,
                                    xx,
                                );
                                &&& match r {
                                    Ok(v) => crate::proto::ooake::ooake_recv_model(kk, aad@, c)
                                        == Ok::<Seq<u8>, ProtoError>(v@),
                                    Err(err) => match err {
                                        Error::Proto(pe) => crate::proto::ooake::ooake_recv_model(
                                            kk,
                                            aad@,
                                            c,
                                        ) == Err::<Seq<u8>, ProtoError>(pe),
                                        _ => false,
                                    },
                                }
                                &&& forall|a: Seq<u8>, x: Seq<u8>|
                                    self.target.1.spec_ristrettodh()->0 == base_mul_of(a) && xx
                                        == base_mul_of(x) ==> kk == base_mul_of(
                                        #[trigger] crate::proto::ooake::ooake_exponent(a, b, e, x),
                                    )
                            }
                        },
                    }
                },
                Protocol::Ooake(KeyExchange::Kyber, _) => r == Err::<Vec<u8>, Error>(
                    Error::Parse(ParseError::NotAvailable),
                ),
                Protocol::Sigae(flag, _, KeyExchange::RistrettoDH, _) => {
                    match crate::format::spec_dec_sigae_payload(message@) {
                        None => r == Err::<Vec<u8>, Error>(Error::Format),
                        Some((xx, csig, cmsg)) => {
                            if self.ene.key.ristrettodh is None {
                                r == Err::<Vec<u8>, Error>(Error::Unsupported(Alg::RistrettoDH))
                            } else if self.target.1.ed25519 is None {
                                r == Err::<Vec<u8>, Error>(Error::Unsupported(Alg::Ed25519))
                            } else {
                                let b = self.ene.key.spec_ristrettodh()->0;
                                let shared = crate::hashes::sha3_512_of(
                                    crate::key::ristrettodh::point_mul_of(xx, b),
                                );
                                &&& match r {
                                    Ok(v) => crate::proto::sigae::sigae_recv_model(
                                        shared,
                                        self.target.1.spec_ed25519()->0,
                                        self.target.0@,
                                        self.ene.id@,
                                        self.ene.key.ristrettodh->0.spec_pk(),
                                        xx,
                                        flag,
                                        aad@,
                                        csig,
                                        cmsg,
                                    ) == Ok::<Seq<u8>, ProtoError>(v@),
                                    Err(err) => match err {
                                        Error::Proto(pe) => crate::proto::sigae::sigae_recv_model(
                                            shared,
                                            self.target.1.spec_ed25519()->0,
                                            self.target.0@,
                                            self.ene.id@,
                                            self.ene.key.ristrettodh->0.spec_pk(),
                                            xx,
                                            flag,
                                            aad@,
                                            csig,
                                            cmsg,
                                        ) == Err::<Seq<u8>, ProtoError>(pe),
                                        _ => false,
                                    },
                                }
                                &&& forall|x: Seq<u8>|
                                    xx == base_mul_of(x) ==> shared == crate::hashes::sha3_512_of(
                                        base_mul_of(
                                            #[trigger] crate::key::ristrettodh::scalar_mul_of(
                                                x,
                                                b,
                                            ),
                                        ),
                                    )
                            }
                        },
                    }
                },
                Protocol::Sigae(_, _, KeyExchange::Kyber, _) => r == Err::<Vec<u8>, Error>(
                    Error::Unsupported(Alg::Kyber),
                ),
            },
    {
        match proto {
            Protocol::Sonly(_) => {
                let sig = match crate::format::decode_sonly_payload(message) {
                    Some(s) => s,
                    None => {
                        return Err(Error::Format);
                    },
                };
                let pk = match &self.target.1.ed25519 {
                    Some(k) => k,
                    None => {
                        return Err(Error::Unsupported(Alg::Ed25519));
                    },
                };
                let empty_plain: Vec<u8> = Vec::new();
                let pl: &[u8] = match plain {
                    Some(p) => p,
                    None => empty_plain.as_slice(),
                };
                match crate::proto::sonly::recv(self.target.0, pk, &sig, aad, pl) {
                    Ok(()) => Ok(Vec::new()),
                    Err(e) => Err(Error::Proto(e)),
                }
            },
            Protocol::Ooake(KeyExchange::RistrettoDH, _) => {
                let (m, c) = match crate::format::decode_ooake_payload(message) {
                    Some(p) => p,
                    None => {
                        return Err(Error::Format);
                    },
                };
                let skb = match &self.ene.key.ristrettodh {
                    Some(k) => k,
                    None => {
                        return Err(Error::Unsupported(Alg::RistrettoDH));
                    },
                };
                let pka = match &self.target.1.ristrettodh {
                    Some(k) => k,
                    None => {
                        return Err(Error::Unsupported(Alg::RistrettoDH));
                    },
                };
                match crate::proto::ooake::recv(
                    self.ene.id.as_slice(),
                    skb,
                    self.target.0,
                    pka,
                    &m,
                    aad,
                    c.as_slice(),
                ) {
                    Ok(v) => Ok(v),
                    Err(e) => Err(Error::Proto(e)),
                }
            },
            Protocol::Ooake(KeyExchange::Kyber, _) => Err(Error::Parse(ParseError::NotAvailable)),
            Protocol::Sigae(flag, _, KeyExchange::RistrettoDH, _) => {
                let (t, cmsg) = match crate::format::decode_sigae_payload(message) {
                    Some(p) => p,
                    None => {
                        return Err(Error::Format);
                    },
                };
                let skb = match &self.ene.key.ristrettodh {
                    Some(k) => k,
                    None => {
                        return Err(Error::Unsupported(Alg::RistrettoDH));
                    },
                };
                let pka = match &self.target.1.ed25519 {
                    Some(k) => k,
                    None => {
                        return Err(Error::Unsupported(Alg::Ed25519));
                    },
                };
                match crate::proto::sigae::recv(
                    self.ene.id.as_slice(),
                    skb,
                    self.target.0,
                    pka,
                    &t,
                    aad,
                    cmsg.as_slice(),
                    *flag,
                ) {
                    Ok(v) => Ok(v),
                    Err(e) => Err(Error::Proto(e)),
                }
            },
            Protocol::Sigae(_, _, KeyExchange::Kyber, _) => Err(Error::Unsupported(Alg::Kyber)),
        }
    }
}


/// End-to-end idempotence: receiving what `sendto` produced, under the
/// matching key material, gives the plaintext back (the empty byte string
/// for the signature-only protocol, which transmits no plaintext).  Two
/// vanishingly rare outcomes are reported instead of silently excluded:
/// an ephemeral point or a signature half that is all zero is rejected by
/// the transport decoders, surfacing as a format or zero-value error.
pub fn sendto_then_recvfrom(
    sender: &Ene,
    recipient: &Ene,
    proto: &Protocol,
    aad: &[u8],
    message: &[u8],
) -> (r: Result<Vec<u8>, Error>)
    requires
        sender.key.wf(),
        recipient.key.wf(),
    ensures
        match r {
            Ok(v) => {
                if *proto matches Protocol::Sonly(_) {
                    v@.len() == 0
                } else {
                    v@ == message@
                }
            },
            Err(e) => {
                ||| (e == Error::Rand && !((*proto) matches Protocol::Sonly(_)))
                ||| (e == Error::Proto(ProtoError::InvalidLength) && (message@.len() == 0
                    || message@.len() + 16 > usize::MAX || message@.len()
                    > crate::aead::aes128colm0::LEN_MAX || aad@.len()
                    > crate::aead::aes128colm0::LEN_MAX || sender.id@.len()
                    + recipient.id@.len() + 1 > crate::aead::aes128colm0::LEN_MAX))
                ||| (e == Error::Unsupported(Alg::Ed25519) && sender.key.ed25519 is None)
                ||| (e == Error::Unsupported(Alg::RistrettoDH) && (
                sender.key.ristrettodh is None || recipient.key.ristrettodh is None))
                ||| (e == Error::Unsupported(Alg::Kyber) && (*proto) matches Protocol::Sigae(
                    _,
                    _,
                    KeyExchange::Kyber,
                    _,
                ))
                ||| (e == Error::Parse(ParseError::NotAvailable)
                    && (*proto) matches Protocol::Ooake(KeyExchange::Kyber, _))
                ||| (e == Error::Format && ((*proto) matches Protocol::Sonly(_)
                    && !crate::key::ed25519::valid_sig_bytes(
                    crate::key::ed25519::ed25519_sign_of(
                        sender.key.spec_ed25519()->0,
                        crate::proto::sonly::sonly_hash(sender.id@, aad@, message@),
                    ),
                ) || !((*proto) matches Protocol::Sonly(_)) && (exists|x: Seq<u8>|
                    crate::wire::is_zero(#[trigger] base_mul_of(x)))))
                ||| ({
                    &&& e == Error::Proto(
                        ProtoError::InvalidValue(crate::error::BadValue::ZeroValue),
                    )
                    &&& (*proto) matches Protocol::Sigae(f, _, KeyExchange::RistrettoDH, _) && (
                    exists|x: Seq<u8>|
                    {
                        let sigb = crate::key::ed25519::ed25519_sign_of(
                            sender.key.spec_ed25519()->0,
                            crate::proto::sigae::sigae_hash(
                                sender.id@,
                                recipient.id@,
                                recipient.key.ristrettodh->0.spec_pk(),
                                #[trigger] base_mul_of(x),
                                f,
                                aad@,
                                message@,
                            ),
                        );
                        crate::wire::is_zero(sigb.subrange(0, 32)) || crate::wire::is_zero(
                            sigb.subrange(32, 64),
                        )
                    })
                })
            },
        },
{
    let rpub = recipient.as_secret().to_public();
    let pair = sender.and(recipient.id.as_slice(), &rpub);
    let env = match pair.sendto(proto, aad, message) {
        Ok(e) => e,
        Err(e) => {
            return Err(e);
        },
    };
    let spub = sender.as_secret().to_public();
    let pair2 = recipient.and(sender.id.as_slice(), &spub);
    let plain: Option<&[u8]> = match proto {
        Protocol::Sonly(_) => Some(message),
        _ => None,
    };
    let res = pair2.recvfrom(proto, aad, env.2.2.as_slice(), plain);

    proof {
        let s = env.2.2@;
        match *proto {
            Protocol::Sonly(_) => {
                let sigb = crate::key::ed25519::ed25519_sign_of(
                    sender.key.spec_ed25519()->0,
                    crate::proto::sonly::sonly_hash(sender.id@, aad@, message@),
                );
                if crate::key::ed25519::valid_sig_bytes(sigb) {
                    crate::format::lemma_sonly_payload_roundtrip(sigb);
                } else {
                    assert(s.subrange(0, crate::wire::spec_enc_bytes(sigb).len() as int)
                        =~= crate::wire::spec_enc_bytes(sigb));
                    crate::wire::lemma_dec_bytes_roundtrip(s, 0, sigb);
                }
            },
            Protocol::Ooake(KeyExchange::RistrettoDH, _) => {
                let (x, c) = choose|x: Seq<u8>, c: Seq<u8>|
                    #![trigger crate::format::spec_enc_ooake_payload(base_mul_of(x), c)]
                    {
                        let bb = pair.target.1.spec_ristrettodh()->0;
                        let e = crate::proto::ooake::ooake_e(
                            pair.ene.id@,
                            pair.ene.key.ristrettodh->0.spec_pk(),
                            pair.target.0@,
                            bb,
                            base_mul_of(x),
                        );
                        let kk = crate::proto::ooake::ooake_send_key(
                            bb,
                            pair.ene.key.spec_ristrettodh()->0,
                            e,
                            x,
                        );
                        &&& env.2.2@ == crate::format::spec_enc_ooake_payload(base_mul_of(x), c)
                        &&& base_mul_of(x).len() == 32
                        &&& crate::key::ristrettodh::point_valid_of(base_mul_of(x))
                        &&& crate::aead::aes128colm0::aead_open_of(
                            crate::proto::ooake::ooake_aekey(kk),
                            crate::proto::ooake::ooake_nonce(kk),
                            aad@,
                            c,
                        ) == Some(message@)
                        &&& c.len() == message@.len() + 16
                        &&& c.len() <= usize::MAX
                        &&& forall|b: Seq<u8>|
                            pair.target.1.spec_ristrettodh()->0 == base_mul_of(b) ==> kk
                                == base_mul_of(
                                #[trigger] crate::proto::ooake::ooake_exponent(
                                    pair.ene.key.spec_ristrettodh()->0,
                                    b,
                                    e,
                                    x,
                                ),
                            )
                    };
                let xx = base_mul_of(x);
                if crate::wire::is_zero(xx) {
                    assert(s.subrange(0, crate::wire::spec_enc_bytes(xx).len() as int)
                        =~= crate::wire::spec_enc_bytes(xx));
                    crate::wire::lemma_dec_bytes_roundtrip(s, 0, xx);
                } else {
                    crate::format::lemma_ooake_payload_roundtrip(xx, c);
                    let a = sender.key.spec_ristrettodh()->0;
                    let b = recipient.key.spec_ristrettodh()->0;
                    let e = crate::proto::ooake::ooake_e(
                        sender.id@,
                        pair.ene.key.ristrettodh->0.spec_pk(),
                        recipient.id@,
                        pair.target.1.spec_ristrettodh()->0,
                        xx,
                    );
                    assert(crate::proto::ooake::ooake_send_key(
                        pair.target.1.spec_ristrettodh()->0,
                        a,
                        e,
                        x,
                    ) == base_mul_of(crate::proto::ooake::ooake_exponent(a, b, e, x)));
                    assert(crate::proto::ooake::ooake_recv_key(
                        pair2.target.1.spec_ristrettodh()->0,
                        b,
                        e,
                        xx,
                    ) == base_mul_of(crate::proto::ooake::ooake_exponent(a, b, e, x)));
                }
            },
            Protocol::Ooake(KeyExchange::Kyber, _) => {},
            Protocol::Sigae(flag, _, KeyExchange::RistrettoDH, _) => {
                let (x, csig, cmsg) = choose|x: Seq<u8>, csig: Seq<u8>, cmsg: Seq<u8>|
                    #![trigger crate::format::spec_enc_sigae_payload(base_mul_of(x), csig, cmsg)]
                    {
                        let bb = pair.target.1.spec_ristrettodh()->0;
                        let shared = crate::hashes::sha3_512_of(
                            crate::key::ristrettodh::point_mul_of(bb, x),
                        );
                        let hh = crate::proto::sigae::sigae_hash(
                            pair.ene.id@,
                            pair.target.0@,
                            bb,
                            base_mul_of(x),
                            flag,
                            aad@,
                            message@,
                        );
                        let sigb = crate::key::ed25519::ed25519_sign_of(
                            pair.ene.key.spec_ed25519()->0,
                            hh,
                        );
                        &&& env.2.2@ == crate::format::spec_enc_sigae_payload(
                            base_mul_of(x),
                            csig,
                            cmsg,
                        )
                        &&& base_mul_of(x).len() == 32
                        &&& crate::key::ristrettodh::point_valid_of(base_mul_of(x))
                        &&& crate::aead::aes128colm0::aead_open_of(
                            crate::proto::sigae::sigae_k1(shared),
                            crate::proto::sigae::sigae_n1(shared),
                            crate::proto::sigae::id_pair(pair.ene.id@, pair.target.0@),
                            csig,
                        ) == Some(sigb)
                        &&& crate::aead::aes128colm0::aead_open_of(
                            crate::proto::sigae::sigae_k2(shared),
                            crate::proto::sigae::sigae_n2(shared),
                            aad@,
                            cmsg,
                        ) == Some(message@)
                        &&& csig.len() == 80
                        &&& cmsg.len() == message@.len() + 16
                        &&& cmsg.len() <= usize::MAX
                        &&& sigb.len() == 64
                        &&& crate::key::ed25519::ed25519_verify_of(
                            crate::key::ed25519::ed25519_public_of(
                                pair.ene.key.spec_ed25519()->0,
                            ),
                            sigb,
                            hh,
                        )
                        &&& forall|b: Seq<u8>|
                            pair.target.1.spec_ristrettodh()->0 == base_mul_of(b) ==> shared
                                == crate::hashes::sha3_512_of(
                                base_mul_of(
                                    #[trigger] crate::key::ristrettodh::scalar_mul_of(x, b),
                                ),
                            )
                    };
                let xx = base_mul_of(x);
                if crate::wire::is_zero(xx) {
                    assert(s.subrange(0, crate::wire::spec_enc_bytes(xx).len() as int)
                        =~= crate::wire::spec_enc_bytes(xx));
                    crate::wire::lemma_dec_bytes_roundtrip(s, 0, xx);
                } else {
                    crate::format::lemma_sigae_payload_roundtrip(xx, csig, cmsg);
                    let b = recipient.key.spec_ristrettodh()->0;
                    let shared_s = crate::hashes::sha3_512_of(
                        crate::key::ristrettodh::point_mul_of(
                            pair.target.1.spec_ristrettodh()->0,
                            x,
                        ),
                    );
                    let shared_r = crate::hashes::sha3_512_of(
                        crate::key::ristrettodh::point_mul_of(xx, b),
                    );
                    assert(shared_s == crate::hashes::sha3_512_of(
                        base_mul_of(crate::key::ristrettodh::scalar_mul_of(x, b)),
                    ));
                    assert(shared_r == crate::hashes::sha3_512_of(
                        base_mul_of(crate::key::ristrettodh::scalar_mul_of(x, b)),
                    ));
                }
            },
            Protocol::Sigae(_, _, KeyExchange::Kyber, _) => {},
        }
    }

    match res {
        Ok(v) => Ok(v),
        Err(e) => Err(e),
    }
}

} // verus!
