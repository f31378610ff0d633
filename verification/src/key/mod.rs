//! Key material: per-algorithm keys and the multi-algorithm key sets.
//!
//! A key set holds one optional slot per algorithm.  Absent slots are
//! legal; a protocol that demands an absent slot fails with `Unsupported`.

pub mod ed25519;
pub mod ristrettodh;

use vstd::prelude::*;
use crate::error::Alg;
use crate::format::Short;
use crate::format::spec_short;
use crate::wire::bytes_eq;

verus! {

/// The multi-algorithm secret key set.
pub struct SecretKey {
    pub ed25519: Option<ed25519::SecretKey>,
    pub ristrettodh: Option<ristrettodh::SecretKey>,
}

/// The multi-algorithm public key set.
pub struct PublicKey {
    pub ed25519: Option<ed25519::PublicKey>,
    pub ristrettodh: Option<ristrettodh::PublicKey>,
}

/// The multi-algorithm set of 128-bit public-key fingerprints.
pub struct ShortPublicKey {
    pub ed25519: Option<Short>,
    pub ristrettodh: Option<Short>,
}

/// One slot on which two key sets disagree, with both fingerprints.
pub struct Mismatch {
    pub alg: Alg,
    pub ours: Short,
    pub theirs: Short,
}

impl SecretKey {
    /// The view of a slot as the optional secret bytes.
    pub open spec fn spec_ed25519(&self) -> Option<Seq<u8>> {
        match self.ed25519 {
            Some(k) => Some(k.spec_sk()),
            None => None,
        }
    }

    pub open spec fn spec_ristrettodh(&self) -> Option<Seq<u8>> {
        match self.ristrettodh {
            Some(k) => Some(k.spec_sk()),
            None => None,
        }
    }

    pub open spec fn wf(&self) -> bool {
        &&& (self.ed25519 is Some ==> self.ed25519->0.wf())
        &&& (self.ristrettodh is Some ==> self.ristrettodh->0.wf())
    }

    /// Per-slot projection to the public key set.
    pub fn to_public(&self) -> (r: PublicKey)
        requires
            self.wf(),
        ensures
            r.wf(),
            r.ed25519 is Some <==> self.ed25519 is Some,
            r.ristrettodh is Some <==> self.ristrettodh is Some,
            self.ed25519 is Some ==> r.ed25519->0@ == ed25519::ed25519_public_of(
                self.ed25519->0.spec_sk(),
            ),
            self.ristrettodh is Some ==> r.ristrettodh->0@ == ristrettodh::base_mul_of(
                self.ristrettodh->0.spec_sk(),
            ),
    {
        let ed = match &self.ed25519 {
            Some(sk) => Some(ed25519::PublicKey::from_secret(sk)),
            None => None,
        };
        let dh = match &self.ristrettodh {
            Some(sk) => Some(ristrettodh::PublicKey::from_secret(sk)),
            None => None,
        };
        PublicKey { ed25519: ed, ristrettodh: dh }
    }
}

/// Whether two optional slots agree: a mismatch needs both present and
/// different.
pub open spec fn slots_agree(a: Option<Seq<u8>>, b: Option<Seq<u8>>) -> bool {
    a is Some && b is Some ==> a->0 == b->0
}

impl PublicKey {
    pub open spec fn wf(&self) -> bool {
        &&& (self.ed25519 is Some ==> self.ed25519->0.wf())
        &&& (self.ristrettodh is Some ==> self.ristrettodh->0.wf())
    }

    /// The view of a slot as optional bytes.
    pub open spec fn spec_ed25519(&self) -> Option<Seq<u8>> {
        match self.ed25519 {
            Some(k) => Some(k@),
            None => None,
        }
    }

    pub open spec fn spec_ristrettodh(&self) -> Option<Seq<u8>> {
        match self.ristrettodh {
            Some(k) => Some(k@),
            None => None,
        }
    }

    /// Per-slot projection to the fingerprint set.
    pub fn to_short(&self) -> (r: ShortPublicKey)
        ensures
            r.ed25519 is Some <==> self.ed25519 is Some,
            r.ristrettodh is Some <==> self.ristrettodh is Some,
            self.ed25519 is Some ==> r.ed25519->0 == spec_short(self.ed25519->0@),
            self.ristrettodh is Some ==> r.ristrettodh->0 == spec_short(self.ristrettodh->0@),
    {
        let ed = match &self.ed25519 {
            Some(pk) => Some(Short::of_bytes(pk.bytes.as_slice())),
            None => None,
        };
        let dh = match &self.ristrettodh {
            Some(pk) => Some(Short::of_bytes(pk.bytes.as_slice())),
            None => None,
        };
        ShortPublicKey { ed25519: ed, ristrettodh: dh }
    }

    /// Structural comparison: true iff every slot present in both sets
    /// agrees.  Each disagreeing slot is reported with the fingerprints
    /// of both sides, so the caller can warn the operator.  Missing slots
    /// on either side never count as mismatches.
    pub fn contains(&self, pk: &PublicKey) -> (r: (bool, Vec<Mismatch>))
        ensures
            r.0 == (slots_agree(self.spec_ed25519(), pk.spec_ed25519()) && slots_agree(
                self.spec_ristrettodh(),
                pk.spec_ristrettodh(),
            )),
            r.1@ == (if slots_agree(self.spec_ed25519(), pk.spec_ed25519()) {
                Seq::<Mismatch>::empty()
            } else {
                seq![
                    Mismatch {
                        alg: Alg::Ed25519,
                        ours: spec_short(self.spec_ed25519()->0),
                        theirs: spec_short(pk.spec_ed25519()->0),
                    },
                ]
            }) + (if slots_agree(self.spec_ristrettodh(), pk.spec_ristrettodh()) {
                Seq::<Mismatch>::empty()
            } else {
                seq![
                    Mismatch {
                        alg: Alg::RistrettoDH,
                        ours: spec_short(self.spec_ristrettodh()->0),
                        theirs: spec_short(pk.spec_ristrettodh()->0),
                    },
                ]
            }),
    {
        let mut out: Vec<Mismatch> = Vec::new();
        let mut flag = true;
        match (&self.ed25519, &pk.ed25519) {
            (Some(a), Some(b)) => {
                if !bytes_eq(a.bytes.as_slice(), b.bytes.as_slice()) {
                    out.push(
                        Mismatch {
                            alg: Alg::Ed25519,
                            ours: Short::of_bytes(a.bytes.as_slice()),
                            theirs: Short::of_bytes(b.bytes.as_slice()),
                        },
                    );
                    flag = false;
                }
            },
            _ => {},
        }
        match (&self.ristrettodh, &pk.ristrettodh) {
            (Some(a), Some(b)) => {
                if !bytes_eq(a.bytes.as_slice(), b.bytes.as_slice()) {
                    out.push(
                        Mismatch {
                            alg: Alg::RistrettoDH,
                            ours: Short::of_bytes(a.bytes.as_slice()),
                            theirs: Short::of_bytes(b.bytes.as_slice()),
                        },
                    );
                    flag = false;
                }
            },
            _ => {},
        }
        proof {
            assert(out@ =~= (if slots_agree(self.spec_ed25519(), pk.spec_ed25519()) {
                Seq::<Mismatch>::empty()
            } else {
                seq![
                    Mismatch {
                        alg: Alg::Ed25519,
                        ours: spec_short(self.spec_ed25519()->0),
                        theirs: spec_short(pk.spec_ed25519()->0),
                    },
                ]
            }) + (if slots_agree(self.spec_ristrettodh(), pk.spec_ristrettodh()) {
                Seq::<Mismatch>::empty()
            } else {
                seq![
                    Mismatch {
                        alg: Alg::RistrettoDH,
                        ours: spec_short(self.spec_ristrettodh()->0),
                        theirs: spec_short(pk.spec_ristrettodh()->0),
                    },
                ]
            }));
        }
        (flag, out)
    }
}

/// Whether two optional fingerprint slots agree.
pub open spec fn short_slots_agree(a: Option<Short>, b: Option<Short>) -> bool {
    a is Some && b is Some ==> a->0 == b->0
}

impl ShortPublicKey {
    /// Structural comparison of fingerprint sets, as `PublicKey::contains`.
    pub fn contains(&self, pk: &ShortPublicKey) -> (r: (bool, Vec<Mismatch>))
        ensures
            r.0 == (short_slots_agree(self.ed25519, pk.ed25519) && short_slots_agree(
                self.ristrettodh,
                pk.ristrettodh,
            )),
            r.1@ == (if short_slots_agree(self.ed25519, pk.ed25519) {
                Seq::<Mismatch>::empty()
            } else {
                seq![
                    Mismatch { alg: Alg::Ed25519, ours: self.ed25519->0, theirs: pk.ed25519->0 },
                ]
            }) + (if short_slots_agree(self.ristrettodh, pk.ristrettodh) {
                Seq::<Mismatch>::empty()
            } else {
                seq![
                    Mismatch {
                        alg: Alg::RistrettoDH,
                        ours: self.ristrettodh->0,
                        theirs: pk.ristrettodh->0,
                    },
                ]
            }),
    {
        let mut out: Vec<Mismatch> = Vec::new();
        let mut flag = true;
        match (&self.ed25519, &pk.ed25519) {
            (Some(a), Some(b)) => {
                if a.0 != b.0 {
                    out.push(Mismatch { alg: Alg::Ed25519, ours: *a, theirs: *b });
                    flag = false;
                }
            },
            _ => {},
        }
        match (&self.ristrettodh, &pk.ristrettodh) {
            (Some(a), Some(b)) => {
                if a.0 != b.0 {
                    out.push(Mismatch { alg: Alg::RistrettoDH, ours: *a, theirs: *b });
                    flag = false;
                }
            },
            _ => {},
        }
        proof {
            assert(out@ =~= (if short_slots_agree(self.ed25519, pk.ed25519) {
                Seq::<Mismatch>::empty()
            } else {
                seq![
                    Mismatch { alg: Alg::Ed25519, ours: self.ed25519->0, theirs: pk.ed25519->0 },
                ]
            }) + (if short_slots_agree(self.ristrettodh, pk.ristrettodh) {
                Seq::<Mismatch>::empty()
            } else {
                seq![
                    Mismatch {
                        alg: Alg::RistrettoDH,
                        ours: self.ristrettodh->0,
                        theirs: pk.ristrettodh->0,
                    },
                ]
            }));
        }
        (flag, out)
    }
}

} // verus!
