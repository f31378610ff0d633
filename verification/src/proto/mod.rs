//! The three protocol engines: signature-only, one-pass OAKE, and
//! one-pass SIGMA over AEAD.

pub mod ooake;
pub mod sigae;
pub mod sonly;
