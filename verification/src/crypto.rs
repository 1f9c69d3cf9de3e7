//! The keyed hash and the constant-time comparison this crate takes from its
//! cryptography dependencies. Both are trusted: their contracts restate what
//! the `hmac`, `sha2` and `subtle` crates provide.

use vstd::prelude::*;
use hmac::{Hmac, KeyInit, Mac};
use sha2::Sha256;
use subtle::ConstantTimeEq;

verus! {

/// HMAC-SHA256 of `msg` under `key`, as computed by the `hmac` crate over
/// `sha2::Sha256`.
pub uninterp spec fn hmac_sha256(key: Seq<u8>, msg: Seq<u8>) -> Seq<u8>;

/// Computes HMAC-SHA256 with `hmac::Hmac<sha2::Sha256>`: `new_from_slice`
/// (which accepts keys of any length), one `update` with the whole message,
/// then `finalize`. Claimed: the result is the named function of key and
/// message, and is 32 bytes long (the SHA-256 output size).
#[verifier::external_body]
pub fn hmac_sha256_bytes(key: &[u8], msg: &[u8]) -> (r: Vec<u8>)
    ensures
        r@ == hmac_sha256(key@, msg@),
        r@.len() == 32,
{
    let mut mac = <Hmac<Sha256> as KeyInit>::new_from_slice(key).expect("any key length");
    mac.update(msg);
    mac.finalize().into_bytes().to_vec()
}

/// Compares two byte slices with `subtle::ConstantTimeEq::ct_eq`, which
/// returns 1 exactly when the slices have the same length and the same bytes
/// (it returns early only on a length mismatch). Claimed: the result is
/// byte-sequence equality.
#[verifier::external_body]
pub fn ct_eq_bytes(a: &[u8], b: &[u8]) -> (r: bool)
    ensures
        r == (a@ == b@),
{
    a.ct_eq(b).into()
}

} // verus!
