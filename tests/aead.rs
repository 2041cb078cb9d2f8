use crypto::{decrypt, encrypt, CryptoError};

fn hex(s: &str) -> Vec<u8> {
    (0..s.len()).step_by(2).map(|i| u8::from_str_radix(&s[i..i + 2], 16).unwrap()).collect()
}

#[test]
fn gcm_vector_empty_plaintext() {
    let c = encrypt(&[], &[0u8; 32], &[0u8; 12]).unwrap();
    assert_eq!(c, hex("530f8afbc74536b9a963b4f1c4cb738b"));
    assert_eq!(decrypt(&c, &[0u8; 32], &[0u8; 12]), Ok(vec![]));
}

#[test]
fn gcm_vector_one_zero_block() {
    let c = encrypt(&[0u8; 16], &[0u8; 32], &[0u8; 12]).unwrap();
    assert_eq!(c, hex("cea7403d4d606b6e074ec5d3baf39d18d0d1c8a799996bf0265b98b5d48ab919"));
    assert_eq!(decrypt(&c, &[0u8; 32], &[0u8; 12]), Ok(vec![0u8; 16]));
}

#[test]
fn encrypt_decrypt_round_trip() {
    let key = [0x11u8; 32];
    let nonce = [0x22u8; 12];
    let msg = b"attack at dawn".to_vec();
    let c = encrypt(&msg, &key, &nonce).unwrap();
    assert_eq!(c.len(), msg.len() + 16);
    assert_ne!(&c[..msg.len()], &msg[..]);
    assert_eq!(decrypt(&c, &key, &nonce), Ok(msg));
}

#[test]
fn encrypt_rejects_bad_lengths() {
    assert_eq!(encrypt(b"x", &[0u8; 31], &[0u8; 12]), Err(CryptoError::InvalidKeyLength));
    assert_eq!(encrypt(b"x", &[0u8; 32], &[0u8; 11]), Err(CryptoError::InvalidKeyLength));
    assert_eq!(encrypt(b"x", &[0u8; 33], &[0u8; 13]), Err(CryptoError::InvalidKeyLength));
}

#[test]
fn decrypt_rejects_bad_lengths() {
    assert_eq!(decrypt(&[0u8; 20], &[0u8; 16], &[0u8; 12]), Err(CryptoError::InvalidKeyLength));
    assert_eq!(decrypt(&[0u8; 20], &[0u8; 32], &[0u8; 16]), Err(CryptoError::InvalidKeyLength));
}

#[test]
fn decrypt_rejects_tampering() {
    let key = [0x11u8; 32];
    let nonce = [0x22u8; 12];
    let c = encrypt(b"payload", &key, &nonce).unwrap();
    for i in 0..c.len() {
        let mut t = c.clone();
        t[i] ^= 0x80;
        assert_eq!(decrypt(&t, &key, &nonce), Err(CryptoError::AuthenticationFailure));
    }
    let mut other_key = key;
    other_key[0] ^= 1;
    assert_eq!(decrypt(&c, &other_key, &nonce), Err(CryptoError::AuthenticationFailure));
    let mut other_nonce = nonce;
    other_nonce[11] ^= 1;
    assert_eq!(decrypt(&c, &key, &other_nonce), Err(CryptoError::AuthenticationFailure));
    assert_eq!(decrypt(&c[..15], &key, &nonce), Err(CryptoError::AuthenticationFailure));
}
