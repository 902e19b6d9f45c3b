//! The keyed MAC primitive behind the signature scheme.

use hmac::Hmac;
use hmac::Mac;
use sha2::Sha256;
use vstd::prelude::*;

verus! {

/// The HMAC-SHA256 digest of a message under a key, as the `hmac` crate
/// computes it over `sha2`. The digest is a function of the key and the
/// message alone; nothing is assumed here of its value.
pub uninterp spec fn hmac_sha256_of(key: Seq<u8>, message: Seq<u8>) -> Seq<u8>;

/// The MAC digest in its transport shape. HMAC-SHA256 output is 32 bytes
/// wide; the guard keeps that width available to pure proofs, and
/// `hmac_sha256_digest` shows that the guard never acts on a digest the
/// primitive actually produced.
pub open spec fn mac_digest(key: Seq<u8>, message: Seq<u8>) -> Seq<u8> {
    if hmac_sha256_of(key, message).len() == 32 {
        hmac_sha256_of(key, message)
    } else {
        Seq::new(32, |i: int| 0u8)
    }
}

/// Relies on `hmac::Hmac<sha2::Sha256>` through `Mac::new_from_slice`,
/// `Mac::update` and `Mac::finalize`: `new_from_slice` accepts a key of any
/// length and never returns an error, and the finalized digest is 32 bytes
/// determined by the key and the message alone.
#[verifier::external_body]
pub(crate) fn hmac_sha256_digest(key: &[u8], message: &[u8]) -> (r: Option<Vec<u8>>)
    ensures
        r is Some,
        r matches Some(d) ==> d@ == hmac_sha256_of(key@, message@) && d@.len() == 32,
{
    match <Hmac<Sha256> as Mac>::new_from_slice(key) {
        Ok(mut mac) => {
            mac.update(message);
            Some(mac.finalize().into_bytes().to_vec())
        },
        Err(_) => None,
    }
}

} // verus!
