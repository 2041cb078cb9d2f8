use vstd::prelude::*;
use vstd::string::StringSliceAdditionalSpecFns;

use crate::aead::{
    aes256gcm_seal, decrypt, encrypt, opens_to, MAX_PLAINTEXT_LEN, NONCE_LEN, TAG_LEN,
};
use crate::entropy::os_random_bytes;
use crate::error::CryptoError;
use crate::kdf::{derivate_key_with, kdf_accepts, KdfParams};

verus! {

/// Length in bytes of a master key.
pub const MASTER_KEY_LEN: usize = 32;

/// Length in bytes of the salt that starts an envelope.
pub const SALT_LEN: usize = 16;

/// Length in bytes of the salt and nonce that start an envelope.
pub const HEADER_LEN: usize = 28;

/// The salt of an envelope: its first 16 bytes.
pub open spec fn salt_of(envelope: Seq<u8>) -> Seq<u8> {
    envelope.subrange(0, SALT_LEN as int)
}

/// The nonce of an envelope: the 12 bytes after the salt.
pub open spec fn nonce_of(envelope: Seq<u8>) -> Seq<u8> {
    envelope.subrange(SALT_LEN as int, HEADER_LEN as int)
}

/// The sealed master key of an envelope: everything after the nonce.
pub open spec fn body_of(envelope: Seq<u8>) -> Seq<u8> {
    envelope.subrange(HEADER_LEN as int, envelope.len() as int)
}

/// The envelope of `master_key` under `pin`, made with `salt` and `nonce`:
/// the salt, the nonce, and the master key sealed under the key that
/// `params` derive from the PIN and the salt.
pub open spec fn envelope_of(
    params: KdfParams,
    master_key: Seq<u8>,
    pin: Seq<u8>,
    salt: Seq<u8>,
    nonce: Seq<u8>,
) -> Seq<u8> {
    salt + nonce + aes256gcm_seal(params.key_for(pin, salt), nonce, master_key)
}

/// Whether `envelope` is a well-formed envelope of `master_key` under `pin`,
/// with whatever salt and nonce it starts with.
pub open spec fn wraps(params: KdfParams, master_key: Seq<u8>, pin: Seq<u8>, envelope: Seq<u8>) -> bool {
    &&& kdf_accepts(params, pin.len() as int, SALT_LEN as int)
    &&& envelope.len() == HEADER_LEN + master_key.len() + TAG_LEN
    &&& envelope == envelope_of(params, master_key, pin, salt_of(envelope), nonce_of(envelope))
}

/// Whether unwrapping `envelope` with `pin` gives `master_key`: the envelope
/// is longer than its header, and its body opens to the master key under the
/// key derived from the PIN and the envelope's salt, with its nonce.
pub open spec fn unwraps_to(params: KdfParams, envelope: Seq<u8>, pin: Seq<u8>, master_key: Seq<u8>) -> bool {
    &&& envelope.len() > HEADER_LEN
    &&& kdf_accepts(params, pin.len() as int, SALT_LEN as int)
    &&& opens_to(
        params.key_for(pin, salt_of(envelope)),
        nonce_of(envelope),
        body_of(envelope),
        master_key,
    )
}

/// Appends `bytes` to `out`.
fn append_bytes(out: &mut Vec<u8>, bytes: &[u8])
    ensures
        final(out)@ == old(out)@ + bytes@,
{
    let mut i: usize = 0;
    while i < bytes.len()
        invariant
            i <= bytes@.len(),
            out@ == old(out)@ + bytes@.subrange(0, i as int),
        decreases bytes@.len() - i,
    {
        out.push(bytes[i]);
        i = i + 1;
        assert(bytes@.subrange(0, i as int) =~= bytes@.subrange(0, i - 1) + seq![bytes@[i - 1]]);
    }
    assert(bytes@.subrange(0, i as int) =~= bytes@);
}

/// Wraps `main_key` under `pin` with the given `salt` and `nonce`, which the
/// caller draws fresh for each envelope. An empty PIN is accepted: it gives a
/// well-formed envelope whose protection is only as strong as the PIN, so
/// callers that want a minimum PIN policy enforce it before this call.
pub fn wrap_key(
    params: KdfParams,
    main_key: &[u8],
    pin: &str,
    salt: &[u8],
    nonce: &[u8],
) -> (r: Result<Vec<u8>, CryptoError>)
    ensures
        main_key@.len() != MASTER_KEY_LEN || nonce@.len() != NONCE_LEN <==> r == Err::<
            Vec<u8>,
            CryptoError,
        >(CryptoError::InvalidKeyLength),
        r == Err::<Vec<u8>, CryptoError>(CryptoError::DerivationFailure) <==> main_key@.len()
            == MASTER_KEY_LEN && nonce@.len() == NONCE_LEN && !(salt@.len() == SALT_LEN
            && kdf_accepts(params, pin.spec_bytes().len() as int, SALT_LEN as int)),
        r is Ok <==> main_key@.len() == MASTER_KEY_LEN && nonce@.len() == NONCE_LEN && salt@.len()
            == SALT_LEN && kdf_accepts(params, pin.spec_bytes().len() as int, SALT_LEN as int),
        r matches Ok(e) ==> e@ == envelope_of(params, main_key@, pin.spec_bytes(), salt@, nonce@),
        r matches Ok(e) ==> e@.len() == HEADER_LEN + MASTER_KEY_LEN + TAG_LEN,
        r matches Ok(e) ==> wraps(params, main_key@, pin.spec_bytes(), e@),
{
    if main_key.len() != MASTER_KEY_LEN || nonce.len() != NONCE_LEN {
        return Err(CryptoError::InvalidKeyLength);
    }
    if salt.len() != SALT_LEN {
        return Err(CryptoError::DerivationFailure);
    }
    let pin_bytes = pin.as_bytes();
    let derived = match derivate_key_with(params, pin_bytes, salt) {
        Ok(k) => k,
        Err(e) => return Err(e),
    };
    let ciphertext = match encrypt(main_key, derived.as_slice(), nonce) {
        Ok(c) => c,
        Err(e) => return Err(e),
    };
    let mut out: Vec<u8> = Vec::with_capacity(HEADER_LEN + ciphertext.len());
    append_bytes(&mut out, salt);
    append_bytes(&mut out, nonce);
    append_bytes(&mut out, ciphertext.as_slice());
    proof {
        let e = out@;
        assert(salt_of(e) =~= salt@);
        assert(nonce_of(e) =~= nonce@);
    }
    Ok(out)
}

/// Wraps `main_key` under `pin` and `params`, with a salt and a nonce drawn
/// from the operating system's generator.
pub fn encrypt_key_with(params: KdfParams, main_key: &[u8], pin: &str) -> (r: Result<
    Vec<u8>,
    CryptoError,
>)
    ensures
        main_key@.len() != MASTER_KEY_LEN <==> r == Err::<Vec<u8>, CryptoError>(
            CryptoError::InvalidKeyLength,
        ),
        r == Err::<Vec<u8>, CryptoError>(CryptoError::DerivationFailure) ==> main_key@.len()
            == MASTER_KEY_LEN && !kdf_accepts(params, pin.spec_bytes().len() as int, SALT_LEN as int),
        main_key@.len() == MASTER_KEY_LEN && kdf_accepts(
            params,
            pin.spec_bytes().len() as int,
            SALT_LEN as int,
        ) ==> r is Ok || r == Err::<Vec<u8>, CryptoError>(CryptoError::EntropyUnavailable),
        r is Err ==> r == Err::<Vec<u8>, CryptoError>(CryptoError::InvalidKeyLength) || r == Err::<
            Vec<u8>,
            CryptoError,
        >(CryptoError::DerivationFailure) || r == Err::<Vec<u8>, CryptoError>(
            CryptoError::EntropyUnavailable,
        ),
        r matches Ok(e) ==> e@.len() == HEADER_LEN + MASTER_KEY_LEN + TAG_LEN,
        r matches Ok(e) ==> wraps(params, main_key@, pin.spec_bytes(), e@),
{
    if main_key.len() != MASTER_KEY_LEN {
        return Err(CryptoError::InvalidKeyLength);
    }
    let salt = match os_random_bytes(SALT_LEN) {
        Some(s) => s,
        None => return Err(CryptoError::EntropyUnavailable),
    };
    let nonce = match os_random_bytes(NONCE_LEN) {
        Some(n) => n,
        None => return Err(CryptoError::EntropyUnavailable),
    };
    wrap_key(params, main_key, pin, salt.as_slice(), nonce.as_slice())
}

/// Wraps `main_key` under `pin` with the standard derivation parameters.
pub fn encrypt_key(main_key: &[u8], pin: &str) -> (r: Result<Vec<u8>, CryptoError>)
    ensures
        main_key@.len() != MASTER_KEY_LEN <==> r == Err::<Vec<u8>, CryptoError>(
            CryptoError::InvalidKeyLength,
        ),
        r == Err::<Vec<u8>, CryptoError>(CryptoError::DerivationFailure) ==> main_key@.len()
            == MASTER_KEY_LEN && !kdf_accepts(
            KdfParams::standard_spec(),
            pin.spec_bytes().len() as int,
            SALT_LEN as int,
        ),
        main_key@.len() == MASTER_KEY_LEN && kdf_accepts(
            KdfParams::standard_spec(),
            pin.spec_bytes().len() as int,
            SALT_LEN as int,
        ) ==> r is Ok || r == Err::<Vec<u8>, CryptoError>(CryptoError::EntropyUnavailable),
        r is Err ==> r == Err::<Vec<u8>, CryptoError>(CryptoError::InvalidKeyLength) || r == Err::<
            Vec<u8>,
            CryptoError,
        >(CryptoError::DerivationFailure) || r == Err::<Vec<u8>, CryptoError>(
            CryptoError::EntropyUnavailable,
        ),
        r matches Ok(e) ==> e@.len() == HEADER_LEN + MASTER_KEY_LEN + TAG_LEN,
        r matches Ok(e) ==> wraps(KdfParams::standard_spec(), main_key@, pin.spec_bytes(), e@),
{
    encrypt_key_with(KdfParams::standard(), main_key, pin)
}

/// Unwraps the master key that `encrypted_key` holds, with `pin` and `params`.
/// A wrong PIN and altered bytes give the same error.
pub fn decrypt_key_with(params: KdfParams, encrypted_key: &[u8], pin: &str) -> (r: Result<
    Vec<u8>,
    CryptoError,
>)
    ensures
        encrypted_key@.len() <= HEADER_LEN <==> r == Err::<Vec<u8>, CryptoError>(
            CryptoError::MalformedEnvelope,
        ),
        r == Err::<Vec<u8>, CryptoError>(CryptoError::DerivationFailure) <==> encrypted_key@.len()
            > HEADER_LEN && !kdf_accepts(params, pin.spec_bytes().len() as int, SALT_LEN as int),
        r matches Ok(m) ==> unwraps_to(params, encrypted_key@, pin.spec_bytes(), m@),
        r matches Ok(m) ==> encrypted_key@.len() == HEADER_LEN + m@.len() + TAG_LEN,
        forall|m: Seq<u8>|
            m.len() <= MAX_PLAINTEXT_LEN && #[trigger] unwraps_to(
                params,
                encrypted_key@,
                pin.spec_bytes(),
                m,
            ) ==> (r matches Ok(q) && q@ == m),
        r is Err ==> r == Err::<Vec<u8>, CryptoError>(CryptoError::MalformedEnvelope) || r == Err::<
            Vec<u8>,
            CryptoError,
        >(CryptoError::DerivationFailure) || r == Err::<Vec<u8>, CryptoError>(
            CryptoError::WrongPinOrCorruptEnvelope,
        ),
{
    if encrypted_key.len() <= HEADER_LEN {
        return Err(CryptoError::MalformedEnvelope);
    }
    let (salt, rest) = encrypted_key.split_at(SALT_LEN);
    let (nonce, body) = rest.split_at(NONCE_LEN);
    proof {
        assert(nonce@ =~= nonce_of(encrypted_key@));
        assert(body@ =~= body_of(encrypted_key@));
    }
    let derived = match derivate_key_with(params, pin.as_bytes(), salt) {
        Ok(k) => k,
        Err(e) => return Err(e),
    };
    match decrypt(body, derived.as_slice(), nonce) {
        Ok(m) => Ok(m),
        Err(_) => Err(CryptoError::WrongPinOrCorruptEnvelope),
    }
}

/// Unwraps the master key that `encrypted_key` holds, with `pin` and the
/// standard derivation parameters.
pub fn decrypt_key(encrypted_key: &[u8], pin: &str) -> (r: Result<Vec<u8>, CryptoError>)
    ensures
        encrypted_key@.len() <= HEADER_LEN <==> r == Err::<Vec<u8>, CryptoError>(
            CryptoError::MalformedEnvelope,
        ),
        r == Err::<Vec<u8>, CryptoError>(CryptoError::DerivationFailure) <==> encrypted_key@.len()
            > HEADER_LEN && !kdf_accepts(
            KdfParams::standard_spec(),
            pin.spec_bytes().len() as int,
            SALT_LEN as int,
        ),
        r matches Ok(m) ==> unwraps_to(
            KdfParams::standard_spec(),
            encrypted_key@,
            pin.spec_bytes(),
            m@,
        ),
        r matches Ok(m) ==> encrypted_key@.len() == HEADER_LEN + m@.len() + TAG_LEN,
        forall|m: Seq<u8>|
            m.len() <= MAX_PLAINTEXT_LEN && #[trigger] unwraps_to(
                KdfParams::standard_spec(),
                encrypted_key@,
                pin.spec_bytes(),
                m,
            ) ==> (r matches Ok(q) && q@ == m),
        r is Err ==> r == Err::<Vec<u8>, CryptoError>(CryptoError::MalformedEnvelope) || r == Err::<
            Vec<u8>,
            CryptoError,
        >(CryptoError::DerivationFailure) || r == Err::<Vec<u8>, CryptoError>(
            CryptoError::WrongPinOrCorruptEnvelope,
        ),
{
    decrypt_key_with(KdfParams::standard(), encrypted_key, pin)
}

/// Round trip: an envelope of a master key under a PIN unwraps, with the
/// same PIN and parameters, to that master key. Together with the contract
/// of `decrypt_key_with`, unwrapping what `wrap_key` or `encrypt_key_with`
/// returned gives back the master key.
pub proof fn lemma_round_trip(params: KdfParams, master_key: Seq<u8>, pin: Seq<u8>, envelope: Seq<u8>)
    requires
        master_key.len() == MASTER_KEY_LEN,
        wraps(params, master_key, pin, envelope),
    ensures
        unwraps_to(params, envelope, pin, master_key),
{
    let sealed = aes256gcm_seal(
        params.key_for(pin, salt_of(envelope)),
        nonce_of(envelope),
        master_key,
    );
    assert(body_of(envelope) =~= sealed);
}

} // verus!
