use crypto::{derivate_key, derivate_key_with, CryptoError, KdfParams};

fn light() -> KdfParams {
    KdfParams::new(8, 1, 1).unwrap()
}

fn hamming(a: &[u8], b: &[u8]) -> u32 {
    a.iter().zip(b.iter()).map(|(x, y)| (x ^ y).count_ones()).sum()
}

#[test]
fn standard_params_match_argon2_defaults() {
    let p = KdfParams::standard();
    assert_eq!(p.m_cost, 19456);
    assert_eq!(p.t_cost, 2);
    assert_eq!(p.p_cost, 1);
}

#[test]
fn params_new_accepts_and_rejects() {
    assert_eq!(KdfParams::new(8, 1, 1), Ok(KdfParams { m_cost: 8, t_cost: 1, p_cost: 1 }));
    assert_eq!(KdfParams::new(7, 1, 1), Err(CryptoError::DerivationFailure));
    assert_eq!(KdfParams::new(15, 1, 2), Err(CryptoError::DerivationFailure));
    assert_eq!(KdfParams::new(8, 0, 1), Err(CryptoError::DerivationFailure));
    assert_eq!(KdfParams::new(8, 1, 0), Err(CryptoError::DerivationFailure));
    assert_eq!(KdfParams::new(u32::MAX, 1, 0x100_0000), Err(CryptoError::DerivationFailure));
}

#[test]
fn derivation_gives_32_bytes_unlike_the_password() {
    let pin = b"1234";
    let salt = [7u8; 16];
    let k = derivate_key_with(light(), pin, &salt).unwrap();
    assert_eq!(k.len(), 32);
    assert_ne!(&k[..4], &pin[..]);
    assert_ne!(&k[..16], &salt[..]);
}

#[test]
fn derivation_is_deterministic() {
    let salt = [1u8; 16];
    let a = derivate_key_with(light(), b"pin", &salt).unwrap();
    let b = derivate_key_with(light(), b"pin", &salt).unwrap();
    assert_eq!(a, b);
}

#[test]
fn standard_derivation_is_deterministic() {
    let salt = [9u8; 16];
    let a = derivate_key(b"correct horse battery staple", &salt).unwrap();
    let b = derivate_key(b"correct horse battery staple", &salt).unwrap();
    assert_eq!(a.len(), 32);
    assert_eq!(a, b);
}

#[test]
fn derivation_avalanches_on_pin_and_salt() {
    let salt = [3u8; 16];
    let base = derivate_key_with(light(), b"123456", &salt).unwrap();
    let other_pin = derivate_key_with(light(), b"123457", &salt).unwrap();
    let mut salt2 = salt;
    salt2[15] ^= 1;
    let other_salt = derivate_key_with(light(), b"123456", &salt2).unwrap();
    for other in [other_pin, other_salt] {
        let d = hamming(&base, &other);
        assert!(d >= 64 && d <= 192, "hamming distance {}", d);
    }
}

#[test]
fn derivation_depends_on_params() {
    let salt = [5u8; 16];
    let a = derivate_key_with(light(), b"pin", &salt).unwrap();
    let b = derivate_key_with(KdfParams::new(16, 1, 1).unwrap(), b"pin", &salt).unwrap();
    let c = derivate_key_with(KdfParams::new(8, 2, 1).unwrap(), b"pin", &salt).unwrap();
    assert_ne!(a, b);
    assert_ne!(a, c);
}

#[test]
fn derivation_rejects_short_salt() {
    assert_eq!(derivate_key_with(light(), b"pin", &[0u8; 7]), Err(CryptoError::DerivationFailure));
    assert_eq!(derivate_key(b"pin", &[]), Err(CryptoError::DerivationFailure));
    assert!(derivate_key_with(light(), b"pin", &[0u8; 8]).is_ok());
}

#[test]
fn derivation_rejects_invalid_params() {
    let bad = KdfParams { m_cost: 8, t_cost: 0, p_cost: 1 };
    assert_eq!(derivate_key_with(bad, b"pin", &[0u8; 16]), Err(CryptoError::DerivationFailure));
    let huge_lanes = KdfParams { m_cost: u32::MAX, t_cost: 1, p_cost: u32::MAX };
    assert_eq!(derivate_key_with(huge_lanes, b"pin", &[0u8; 16]), Err(CryptoError::DerivationFailure));
}

#[test]
fn derivation_accepts_empty_password() {
    let k = derivate_key_with(light(), b"", &[0u8; 16]).unwrap();
    assert_eq!(k.len(), 32);
}
