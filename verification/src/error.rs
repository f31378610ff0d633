//! Error taxonomy of the envelope layer.
//!
//! Errors are small copyable values so that contracts can pin down exactly
//! which error a function returns on which input.

use vstd::prelude::*;

verus! {

/// A concrete algorithm name, used to report which slot or primitive
/// an error concerns.
#[derive(Clone, Copy, Debug, PartialEq, Eq, Structural)]
pub enum Alg {
    Ed25519,
    RistrettoDH,
    Kyber,
    Aes128Colm0,
}

/// Why a byte string failed a structural check.
#[derive(Clone, Copy, Debug, PartialEq, Eq, Structural)]
pub enum BadValue {
    /// The value (or a fixed half of it) was all zero.
    ZeroValue,
    /// Point decompression failed.
    NotOnCurve,
}

/// Errors of the cryptographic primitives and protocol engines.
#[derive(Clone, Copy, Debug, PartialEq, Eq, Structural)]
pub enum ProtoError {
    /// An AEAD tag or a signature did not verify.
    VerificationFailed(Alg),
    /// A byte string of unexpected length reached a decoder.
    InvalidLength,
    /// A byte string failed a structural check.
    InvalidValue(BadValue),
}

/// Errors of protocol-name parsing.
#[derive(Clone, Copy, Debug, PartialEq, Eq, Structural)]
pub enum ParseError {
    /// A token is not a name the registry knows.
    Unknown,
    /// The name ended before all required tokens were read.
    UnexpectedEnd,
    /// All tokens were recognised but the combination is not usable.
    NotAvailable,
}

/// The single top-level error of the library.
#[derive(Clone, Copy, Debug, PartialEq, Eq, Structural)]
pub enum Error {
    /// A primitive or engine failed.
    Proto(ProtoError),
    /// A protocol name did not parse.
    Parse(ParseError),
    /// A required per-algorithm key slot is absent from a key set.
    Unsupported(Alg),
    /// The random source failed.
    Rand,
    /// The binary envelope decoder rejected its input.
    Format,
}

} // verus!
