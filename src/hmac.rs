//! HMAC-SHA256 tags.

use vstd::prelude::*;

verus! {

/// The HMAC-SHA256 tag of `data` under `key`.
pub uninterp spec fn hmac_sha256(key: Seq<u8>, data: Seq<u8>) -> Seq<u8>;

/// Key and data lengths taken here: below 2^60 bytes. SHA-256 counts its input
/// in bits with 64 bits and refuses inputs of 2^61 bytes and more, so every
/// length below this bound is accepted.
pub open spec fn hmac_input_fits(len: int) -> bool {
    len < 0x1000_0000_0000_0000
}

/// Relies on `ring::hmac::Key::new` and `ring::hmac::sign` with `HMAC_SHA256`:
/// the tag is a function of key and data alone, and is 32 bytes long (the
/// SHA-256 output length). Both panic only on inputs too long to count.
#[verifier::external_body]
pub(crate) fn sign_hmac_sha256(key: &[u8], data: &[u8]) -> (r: Vec<u8>)
    requires
        hmac_input_fits(key@.len() as int),
        hmac_input_fits(data@.len() as int),
    ensures
        r@ == hmac_sha256(key@, data@),
        r@.len() == 32,
{
    let key = ring::hmac::Key::new(ring::hmac::HMAC_SHA256, key);
    ring::hmac::sign(&key, data).as_ref().to_vec()
}

} // verus!
