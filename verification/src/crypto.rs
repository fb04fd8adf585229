//! Trusted wrappers around the cryptographic primitives and the base64
//! codec. Each result that no short statement can pin down is given a name
//! (an uninterpreted spec function of the arguments alone), and the signing
//! logic is verified against those names.

use vstd::prelude::*;
use base64::Engine;
use hmac::Mac;
use sha2::Digest;

verus! {

/// The 32-byte SHA-256 digest of `data`: a function of `data` alone.
pub uninterp spec fn sha256_of(data: Seq<u8>) -> Seq<u8>;

/// The 64-byte HMAC-SHA-512 of `data` under `key`: a function of the two
/// alone.
pub uninterp spec fn hmac_sha512_of(key: Seq<u8>, data: Seq<u8>) -> Seq<u8>;

/// What base64 (standard alphabet, padded) decoding makes of `s`: the
/// decoded bytes, or nothing where `s` is not valid base64.
pub uninterp spec fn base64_decode_of(s: Seq<char>) -> Option<Seq<u8>>;

/// The base64 (standard alphabet, padded) rendering of `data`.
pub uninterp spec fn base64_encode_of(data: Seq<u8>) -> Seq<char>;

/// Relies on `sha2::Sha256::digest`: the SHA-256 digest of `data`, 32 bytes,
/// a function of `data` alone.
#[verifier::external_body]
pub(crate) fn sha256(data: &[u8]) -> (r: Vec<u8>)
    ensures
        r@ == sha256_of(data@),
        r@.len() == 32,
{
    sha2::Sha256::digest(data).to_vec()
}

/// Relies on `hmac::Hmac::<sha2::Sha512>::new_from_slice`, `update` and
/// `finalize`: the HMAC-SHA-512 of `data` under `key`, 64 bytes, a function
/// of the two alone. `new_from_slice` accepts a key of any length for HMAC
/// (its body returns `Ok` unconditionally), so the call always succeeds.
#[verifier::external_body]
pub(crate) fn hmac_sha512(key: &[u8], data: &[u8]) -> (r: Result<Vec<u8>, ()>)
    ensures
        r is Ok,
        r matches Ok(m) ==> m@ == hmac_sha512_of(key@, data@) && m@.len() == 64,
{
    match hmac::Hmac::<sha2::Sha512>::new_from_slice(key) {
        Ok(mut mac) => {
            mac.update(data);
            Ok(mac.finalize().into_bytes().to_vec())
        },
        Err(_) => Err(()),
    }
}

/// Relies on `base64::engine::general_purpose::STANDARD.decode`: the decoded
/// bytes of `s`, or refusal, a function of `s` alone.
#[verifier::external_body]
pub(crate) fn base64_decode(s: &str) -> (r: Option<Vec<u8>>)
    ensures
        match r {
            Some(b) => base64_decode_of(s@) == Some(b@),
            None => base64_decode_of(s@) is None,
        },
{
    base64::engine::general_purpose::STANDARD.decode(s).ok()
}

/// Relies on `base64::engine::general_purpose::STANDARD.encode`: the base64
/// rendering of `data`, a function of `data` alone. The length bound keeps
/// clear of the documented abort when the encoded size would overflow.
#[verifier::external_body]
pub(crate) fn base64_encode(data: &[u8]) -> (r: String)
    requires
        data@.len() <= usize::MAX / 8,
    ensures
        r@ == base64_encode_of(data@),
{
    base64::engine::general_purpose::STANDARD.encode(data)
}

} // verus!
