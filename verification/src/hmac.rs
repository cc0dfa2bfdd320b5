//! HMAC-SHA256 over the process-wide challenge key.
//!
//! The tag computation is done by `ring`; what it returns is named by an
//! uninterpreted function of the key and message, which is all the protocol
//! proofs need: the same key and message give the same tag.

use vstd::prelude::*;

verus! {

/// The HMAC-SHA256 tag of `msg` under `key`, as `ring::hmac::sign` computes
/// it. The tag depends on the key and message alone.
pub uninterp spec fn spec_hmac_sha256(key: Seq<u8>, msg: Seq<u8>) -> Seq<u8>;

/// Relies on `ring::hmac::sign` with `HMAC_SHA256`: the tag is a function
/// of the key and message alone, and SHA-256 tags are 32 bytes long.
#[verifier::external_body]
pub(crate) fn hmac_sha256_sign(key: &Vec<u8>, msg: &Vec<u8>) -> (r: Vec<u8>)
    ensures
        r@ == spec_hmac_sha256(key@, msg@),
        r@.len() == 32,
{
    let k = ring::hmac::Key::new(ring::hmac::HMAC_SHA256, key);
    ring::hmac::sign(&k, msg).as_ref().to_vec()
}

/// Relies on `ring::hmac::verify` with `HMAC_SHA256`: it recomputes the tag
/// that `sign` would produce and compares in constant time.
#[verifier::external_body]
pub(crate) fn hmac_sha256_verify(key: &Vec<u8>, msg: &Vec<u8>, tag: &Vec<u8>) -> (r: bool)
    ensures
        r <==> tag@ == spec_hmac_sha256(key@, msg@),
{
    let k = ring::hmac::Key::new(ring::hmac::HMAC_SHA256, key);
    ring::hmac::verify(&k, msg, tag).is_ok()
}

/// Relies on `ring::rand::SystemRandom`: fills 32 bytes with random data
/// for the process HMAC key. Nothing is promised of the value.
#[verifier::external_body]
pub(crate) fn generate_hmac_key() -> (r: Option<Vec<u8>>)
    ensures
        r matches Some(k) ==> k@.len() == 32,
{
    let rng = ring::rand::SystemRandom::new();
    let mut key = [0u8; 32];
    match ring::rand::SecureRandom::fill(&rng, &mut key) {
        Ok(()) => Some(key.to_vec()),
        Err(_) => None,
    }
}

} // verus!
