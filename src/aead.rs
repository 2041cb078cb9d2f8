use vstd::prelude::*;

use aes_gcm::aead::{Aead, KeyInit};

use crate::error::CryptoError;

verus! {

/// Length in bytes of an AES-256 key.
pub const KEY_LEN: usize = 32;

/// Length in bytes of a GCM nonce.
pub const NONCE_LEN: usize = 12;

/// Length in bytes of the authentication tag appended to each ciphertext.
pub const TAG_LEN: usize = 16;

/// Longest plaintext that AES-GCM encrypts: 2^36 bytes.
pub const MAX_PLAINTEXT_LEN: u64 = 0x10_0000_0000;

/// The ciphertext, tag appended, that AES-256-GCM computes from a key, a
/// nonce and a plaintext, with no associated data.
pub uninterp spec fn aes256gcm_seal(key: Seq<u8>, nonce: Seq<u8>, plaintext: Seq<u8>) -> Seq<u8>;

/// Whether `ciphertext` is the sealing of `plaintext` under `key` and `nonce`.
pub open spec fn opens_to(key: Seq<u8>, nonce: Seq<u8>, ciphertext: Seq<u8>, plaintext: Seq<u8>) -> bool {
    ciphertext == aes256gcm_seal(key, nonce, plaintext)
}

#[verifier::external_type_specification]
#[verifier::external_body]
pub struct ExAeadError(aes_gcm::Error);

/// Relies on aes-gcm's `Aes256Gcm::encrypt` (through aead's in-place
/// encryption): it refuses a plaintext over 2^36 bytes, and otherwise returns
/// the keystream-encrypted plaintext followed by the 16-byte tag.
/// `Key::from_slice` and `Nonce::from_slice` panic on any other length than
/// 32 and 12.
#[verifier::external_body]
fn aes256gcm_encrypt(key: &[u8], nonce: &[u8], plaintext: &[u8]) -> (r: Result<Vec<u8>, aes_gcm::Error>)
    requires
        key@.len() == KEY_LEN,
        nonce@.len() == NONCE_LEN,
    ensures
        r is Ok <==> plaintext@.len() <= MAX_PLAINTEXT_LEN,
        r matches Ok(c) ==> c@ == aes256gcm_seal(key@, nonce@, plaintext@),
        r matches Ok(c) ==> c@.len() == plaintext@.len() + TAG_LEN,
{
    let cipher = aes_gcm::Aes256Gcm::new(aes_gcm::Key::<aes_gcm::Aes256Gcm>::from_slice(key));
    cipher.encrypt(aes_gcm::Nonce::<aes_gcm::aead::consts::U12>::from_slice(nonce), plaintext)
}

/// Relies on aes-gcm's `Aes256Gcm::decrypt` (through aead's in-place
/// decryption): the last 16 bytes are the tag, which is recomputed over the
/// rest and compared; on a match the rest is decrypted with the keystream.
/// Encryption is deterministic in key, nonce and plaintext, so what comes
/// back seals to the given ciphertext, and a ciphertext that `encrypt` made
/// comes back as its plaintext.
#[verifier::external_body]
fn aes256gcm_decrypt(key: &[u8], nonce: &[u8], ciphertext: &[u8]) -> (r: Result<Vec<u8>, aes_gcm::Error>)
    requires
        key@.len() == KEY_LEN,
        nonce@.len() == NONCE_LEN,
    ensures
        r matches Ok(p) ==> opens_to(key@, nonce@, ciphertext@, p@),
        r matches Ok(p) ==> p@.len() + TAG_LEN == ciphertext@.len(),
        r matches Ok(q) ==> forall|p: Seq<u8>|
            p.len() <= MAX_PLAINTEXT_LEN && #[trigger] opens_to(key@, nonce@, ciphertext@, p)
                ==> q@ == p,
        r is Err ==> forall|p: Seq<u8>|
            p.len() <= MAX_PLAINTEXT_LEN ==> !#[trigger] opens_to(key@, nonce@, ciphertext@, p),
{
    let cipher = aes_gcm::Aes256Gcm::new(aes_gcm::Key::<aes_gcm::Aes256Gcm>::from_slice(key));
    cipher.decrypt(aes_gcm::Nonce::<aes_gcm::aead::consts::U12>::from_slice(nonce), ciphertext)
}

/// Encrypts `plaintext` under a 32-byte `key` and a 12-byte `nonce`.
pub fn encrypt(plaintext: &[u8], key: &[u8], nonce: &[u8]) -> (r: Result<Vec<u8>, CryptoError>)
    requires
        plaintext@.len() <= MAX_PLAINTEXT_LEN,
    ensures
        r is Ok <==> key@.len() == KEY_LEN && nonce@.len() == NONCE_LEN,
        r is Err ==> r == Err::<Vec<u8>, CryptoError>(CryptoError::InvalidKeyLength),
        r matches Ok(c) ==> c@ == aes256gcm_seal(key@, nonce@, plaintext@),
        r matches Ok(c) ==> c@.len() == plaintext@.len() + TAG_LEN,
{
    if key.len() != KEY_LEN || nonce.len() != NONCE_LEN {
        return Err(CryptoError::InvalidKeyLength);
    }
    match aes256gcm_encrypt(key, nonce, plaintext) {
        Ok(c) => Ok(c),
        Err(_) => Err(CryptoError::InvalidKeyLength),
    }
}

/// Decrypts and authenticates `ciphertext` under a 32-byte `key` and a
/// 12-byte `nonce`.
pub fn decrypt(ciphertext: &[u8], key: &[u8], nonce: &[u8]) -> (r: Result<Vec<u8>, CryptoError>)
    ensures
        !(key@.len() == KEY_LEN && nonce@.len() == NONCE_LEN) <==> r == Err::<Vec<u8>, CryptoError>(
            CryptoError::InvalidKeyLength,
        ),
        r matches Ok(p) ==> opens_to(key@, nonce@, ciphertext@, p@),
        r matches Ok(p) ==> p@.len() + TAG_LEN == ciphertext@.len(),
        forall|p: Seq<u8>|
            key@.len() == KEY_LEN && nonce@.len() == NONCE_LEN && p.len() <= MAX_PLAINTEXT_LEN
                && #[trigger] opens_to(key@, nonce@, ciphertext@, p) ==> (r matches Ok(q) && q@ == p),
        r is Err && key@.len() == KEY_LEN && nonce@.len() == NONCE_LEN ==> r == Err::<
            Vec<u8>,
            CryptoError,
        >(CryptoError::AuthenticationFailure),
{
    if key.len() != KEY_LEN || nonce.len() != NONCE_LEN {
        return Err(CryptoError::InvalidKeyLength);
    }
    match aes256gcm_decrypt(key, nonce, ciphertext) {
        Ok(p) => Ok(p),
        Err(_) => Err(CryptoError::AuthenticationFailure),
    }
}

} // verus!
