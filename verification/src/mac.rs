//! Keyed signatures: HMAC-SHA256 digests over byte strings.

use hmac::{Hmac, KeyInit, Mac};
use sha2::Sha256;
use vstd::prelude::*;

verus! {

/// The HMAC-SHA256 digest of a message under a key. The digest is a pure
/// function of the key bytes and the message bytes; nothing else (time,
/// randomness, machine) takes part.
pub uninterp spec fn hmac_sha256_of(key: Seq<u8>, msg: Seq<u8>) -> Seq<u8>;

/// Relies on hmac's Hmac over sha2's Sha256: the digest depends on the key
/// and message bytes alone and is exactly 32 bytes; keys of any length,
/// including empty, are accepted, so construction never fails.
#[verifier::external_body]
pub(crate) fn hmac_sign(key: &[u8], msg: &[u8]) -> (r: Vec<u8>)
    ensures
        r@ == hmac_sha256_of(key@, msg@),
        r@.len() == 32,
{
    let mut mac = <Hmac<Sha256> as KeyInit>::new_from_slice(key)
        .expect("HMAC accepts keys of any length");
    mac.update(msg);
    mac.finalize().into_bytes().to_vec()
}

} // verus!
