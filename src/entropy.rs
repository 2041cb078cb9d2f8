use vstd::prelude::*;

use aes_gcm::aead::rand_core::RngCore;

verus! {

/// Relies on rand_core's `OsRng::try_fill_bytes`: the buffer is filled from
/// the operating system's generator, or an error says that it could not be.
/// Nothing is known of the bytes but their number.
#[verifier::external_body]
pub(crate) fn os_random_bytes(len: usize) -> (r: Option<Vec<u8>>)
    ensures
        r matches Some(b) ==> b@.len() == len,
{
    let mut buf = vec![0u8; len];
    aes_gcm::aead::OsRng.try_fill_bytes(&mut buf).ok()?;
    Some(buf)
}

} // verus!
