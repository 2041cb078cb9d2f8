use vstd::prelude::*;

verus! {

/// Why an operation of this library produced nothing.
#[derive(Debug, Clone, Copy, PartialEq, Eq, Structural)]
pub enum CryptoError {
    /// A master key or session key is not 32 bytes long, or a nonce not 12.
    InvalidKeyLength,
    /// The key derivation refused its parameters or inputs.
    DerivationFailure,
    /// An envelope is too short to hold its salt, its nonce and a ciphertext.
    MalformedEnvelope,
    /// An envelope did not authenticate: the PIN is wrong or the bytes were altered.
    WrongPinOrCorruptEnvelope,
    /// A ciphertext did not authenticate under the given key and nonce.
    AuthenticationFailure,
    /// The operating system could not supply random bytes.
    EntropyUnavailable,
}

} // verus!
