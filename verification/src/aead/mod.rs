//! The AEAD ciphers of the registry.

pub mod aes128colm0;
