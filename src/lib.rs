//! PIN-protected key envelopes: a 32-byte master key is wrapped under a key
//! that Argon2id derives from a PIN and a fresh salt, with AES-256-GCM, and
//! packed as the salt, then the nonce, then the ciphertext.

pub mod aead;
mod entropy;
pub mod envelope;
pub mod error;
pub mod kdf;
pub mod secret;

pub use aead::{decrypt, encrypt};
pub use envelope::{decrypt_key, decrypt_key_with, encrypt_key, encrypt_key_with, wrap_key};
pub use error::CryptoError;
pub use kdf::{derivate_key, derivate_key_with, KdfParams};
pub use secret::Secret;
