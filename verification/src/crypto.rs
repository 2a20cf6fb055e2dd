//! Trusted wrappers around the cryptographic primitives and the randomness
//! the protocol consumes. Each wrapper makes one outside call; its contract
//! is what the called crate's source shows, no more.

use vstd::prelude::*;
use sha2::Digest;
use hmac::Mac;

verus! {

/// The SHA-256 digest of the UTF-8 bytes of a character string. The digest
/// is a function of the input alone; nothing further is assumed of it.
pub uninterp spec fn sha256_of(s: Seq<char>) -> Seq<u8>;

/// The HMAC-SHA-256 tag of the UTF-8 bytes of a message under a 32-byte key.
/// The tag is a function of key and message alone; nothing further is
/// assumed of it.
pub uninterp spec fn hmac_sha256_of(key: Seq<u8>, msg: Seq<char>) -> Seq<u8>;

/// Relies on sha2's `Sha256::digest`: the digest of the input bytes, 32
/// bytes long, depending on the input alone.
#[verifier::external_body]
pub(crate) fn sha256_digest(s: &str) -> (r: Vec<u8>)
    ensures
        r@ == sha256_of(s@),
        r@.len() == 32,
{
    sha2::Sha256::digest(s.as_bytes()).to_vec()
}

/// Relies on hmac's `Hmac::<Sha256>`: `new_from_slice` accepts a key of any
/// length, and the finalized tag is 32 bytes depending on key and message
/// alone.
#[verifier::external_body]
pub(crate) fn hmac_sha256_tag(key: &[u8; 32], msg: &str) -> (r: Vec<u8>)
    ensures
        r@ == hmac_sha256_of(key@, msg@),
        r@.len() == 32,
{
    let mut mac = <hmac::Hmac<sha2::Sha256> as Mac>::new_from_slice(key).unwrap();
    mac.update(msg.as_bytes());
    mac.finalize().into_bytes().to_vec()
}

/// Relies on constant_time_eq's `constant_time_eq`: true exactly when the
/// two byte strings are equal, with a running time independent of their
/// contents. Two strings have equal UTF-8 bytes exactly when they are equal.
#[verifier::external_body]
pub(crate) fn ct_eq_str(a: &str, b: &str) -> (r: bool)
    ensures
        r == (a@ == b@),
{
    constant_time_eq::constant_time_eq(a.as_bytes(), b.as_bytes())
}

/// Relies on rand's `random`: sixteen bytes from the thread-local generator.
/// Nothing is promised of the drawn value.
#[verifier::external_body]
pub(crate) fn random_salt_bytes() -> (r: [u8; 16]) {
    rand::random::<[u8; 16]>()
}

/// Relies on uuid's `Uuid::new_v4` and its `Display` form: a random
/// version-4 UUID rendered hyphenated, 36 characters. Nothing is promised
/// of the drawn value beyond its length.
#[verifier::external_body]
pub(crate) fn fresh_uuid_string() -> (r: String)
    ensures
        r@.len() == 36,
{
    uuid::Uuid::new_v4().to_string()
}

} // verus!
