//! The signature engine: the exchange's per-request authentication token,
//! and what can be said of the construction that builds it.
//!
//! The token over `(secret, path, nonce, body)` is
//! `base64(hmac_sha512(decoded_secret, path_bytes ++ sha256(nonce ++ body)))`,
//! every string taken as its UTF-8 bytes.

use vstd::prelude::*;
use vstd::utf8::{
    encode_scalar, encode_utf8, has_width_1_encoding, has_width_2_encoding, has_width_3_encoding,
    is_ascii_chars, is_ascii_chars_encode_utf8,
};
use vstd::string::StrSliceExecFns;
use vstd::string::StringSliceAdditionalSpecFns;
use crate::crypto::{
    base64_decode, base64_decode_of, base64_encode, base64_encode_of, hmac_sha512, hmac_sha512_of,
    sha256, sha256_of,
};
use crate::errors::SignatureError;
use crate::numeric::{all_dec_digits, is_dec_digit};

verus! {

broadcast use vstd::utf8::encode_utf8_decode_utf8, vstd::utf8::char_is_scalar;

/// The bytes handed to the MAC: the request path's bytes, then the SHA-256
/// digest of the nonce string concatenated with the body string.
pub open spec fn sig_message_of(path: Seq<char>, nonce: Seq<char>, body: Seq<char>) -> Seq<u8> {
    encode_utf8(path) + sha256_of(encode_utf8(nonce) + encode_utf8(body))
}

/// The authentication token over the decoded secret and a request.
pub open spec fn signature_of(
    secret: Seq<u8>,
    path: Seq<char>,
    nonce: Seq<char>,
    body: Seq<char>,
) -> Seq<char> {
    base64_encode_of(hmac_sha512_of(secret, sig_message_of(path, nonce, body)))
}

/// Appends every byte of `src` to `dst`, in order.
fn append_bytes(dst: &mut Vec<u8>, src: &[u8])
    ensures
        final(dst)@ == old(dst)@ + src@,
{
    let n = src.len();
    assert(old(dst)@ + src@.take(0) =~= old(dst)@);
    let mut i: usize = 0;
    loop
        invariant
            0 <= i <= n,
            n == src@.len(),
            dst@ == old(dst)@ + src@.take(i as int),
        decreases n - i,
    {
        if i >= n {
            assert(src@.take(i as int) =~= src@);
            return ;
        }
        dst.push(src[i]);
        assert(old(dst)@ + src@.take(i + 1) =~= (old(dst)@ + src@.take(i as int)).push(
            src@[i as int],
        ));
        i = i + 1;
    }
}

/// Builds the bytes handed to the MAC.
pub fn signature_message(path: &str, nonce: &str, body: &str) -> (r: Vec<u8>)
    ensures
        r@ == sig_message_of(path@, nonce@, body@),
{
    let mut sha_input = nonce.as_bytes_vec();
    append_bytes(&mut sha_input, body.as_bytes());
    let digest = sha256(sha_input.as_slice());
    let mut message = path.as_bytes_vec();
    append_bytes(&mut message, digest.as_slice());
    message
}

/// Signs one request: decodes `secret` from base64 and computes the token.
/// A pure function of its inputs; fails exactly when `secret` is not valid
/// base64.
pub fn sign(secret: &str, path: &str, nonce: &str, body: &str) -> (r: Result<
    String,
    SignatureError,
>)
    ensures
        match r {
            Ok(sig) => base64_decode_of(secret@) is Some && sig@ == signature_of(
                base64_decode_of(secret@).unwrap(),
                path@,
                nonce@,
                body@,
            ),
            Err(e) => base64_decode_of(secret@) is None && e matches SignatureError::BadSecret,
        },
{
    let key = match base64_decode(secret) {
        Some(k) => k,
        None => { return Err(SignatureError::BadSecret) },
    };
    let message = signature_message(path, nonce, body);
    let mac = match hmac_sha512(key.as_slice(), message.as_slice()) {
        Ok(m) => m,
        Err(_) => { return Err(SignatureError::KeyError) },
    };
    Ok(base64_encode(mac.as_slice()))
}

/// Law: signing is deterministic. The token is a function of the secret,
/// path, nonce and body alone, so two signings of identical inputs agree.
pub proof fn lemma_sign_deterministic(
    secret: Seq<u8>,
    path: Seq<char>,
    nonce: Seq<char>,
    body: Seq<char>,
    r1: Seq<char>,
    r2: Seq<char>,
)
    requires
        r1 == signature_of(secret, path, nonce, body),
        r2 == signature_of(secret, path, nonce, body),
    ensures
        r1 == r2,
{
}

/// A byte holding a decimal digit character.
pub open spec fn is_digit_byte(b: u8) -> bool {
    48 <= b && b <= 57
}

/// Splitting a concatenation at a known suffix length is unambiguous.
pub proof fn lemma_message_parts_injective(p1: Seq<u8>, d1: Seq<u8>, p2: Seq<u8>, d2: Seq<u8>)
    requires
        d1.len() == d2.len(),
        p1 + d1 == p2 + d2,
    ensures
        p1 == p2,
        d1 == d2,
{
    assert((p1 + d1).len() == p1.len() + d1.len());
    assert((p2 + d2).len() == p2.len() + d2.len());
    assert(p1.len() == p2.len());
    assert(p1 =~= p2) by {
        assert forall|i: int| 0 <= i < p1.len() implies p1[i] == p2[i] by {
            assert((p1 + d1)[i] == p1[i]);
            assert((p2 + d2)[i] == p2[i]);
        }
    }
    assert(d1 =~= d2) by {
        assert forall|i: int| 0 <= i < d1.len() implies d1[i] == d2[i] by {
            assert((p1 + d1)[p1.len() + i] == d1[i]);
            assert((p2 + d2)[p2.len() + i] == d2[i]);
        }
    }
}

/// Splitting a concatenation at the end of a digit run is unambiguous, as
/// long as what follows the run does not begin with a digit.
pub proof fn lemma_digit_run_prefix_injective(a1: Seq<u8>, r1: Seq<u8>, a2: Seq<u8>, r2: Seq<u8>)
    requires
        forall|i: int| 0 <= i < a1.len() ==> is_digit_byte(#[trigger] a1[i]),
        forall|i: int| 0 <= i < a2.len() ==> is_digit_byte(#[trigger] a2[i]),
        r1.len() > 0,
        !is_digit_byte(r1[0]),
        r2.len() > 0,
        !is_digit_byte(r2[0]),
        a1 + r1 == a2 + r2,
    ensures
        a1 == a2,
        r1 == r2,
{
    if a1.len() < a2.len() {
        assert((a1 + r1)[a1.len() as int] == r1[0]);
        assert((a2 + r2)[a1.len() as int] == a2[a1.len() as int]);
        assert(false);
    } else if a2.len() < a1.len() {
        assert((a2 + r2)[a2.len() as int] == r2[0]);
        assert((a1 + r1)[a2.len() as int] == a1[a2.len() as int]);
        assert(false);
    }
    assert((a1 + r1).len() == a1.len() + r1.len());
    assert((a2 + r2).len() == a2.len() + r2.len());
    lemma_message_parts_injective(a1, r1, a2, r2);
}

/// UTF-8 encoding is injective.
pub proof fn lemma_encode_utf8_injective(a: Seq<char>, b: Seq<char>)
    requires
        encode_utf8(a) == encode_utf8(b),
    ensures
        a == b,
{
    vstd::utf8::encode_utf8_decode_utf8(a);
    vstd::utf8::encode_utf8_decode_utf8(b);
}

/// A string of digits encodes to one digit byte per character.
pub proof fn lemma_encode_digit_chars(s: Seq<char>)
    requires
        all_dec_digits(s),
    ensures
        encode_utf8(s).len() == s.len(),
        forall|i: int| 0 <= i < s.len() ==> is_digit_byte(#[trigger] encode_utf8(s)[i]),
{
    assert(is_ascii_chars(s)) by {
        assert forall|i: int| 0 <= i < s.len() implies '\0' <= #[trigger] s[i] <= '\u{7f}' by {
            assert(is_dec_digit(s[i]));
        }
    }
    is_ascii_chars_encode_utf8(s);
    assert forall|i: int| 0 <= i < s.len() implies is_digit_byte(
        #[trigger] encode_utf8(s)[i],
    ) by {
        assert(is_dec_digit(s[i]));
        assert(encode_utf8(s)[i] == s[i] as u8);
    }
}

/// The first encoded byte of a character that is not a decimal digit is not
/// a digit byte.
proof fn lemma_first_byte_of_non_digit(c: char)
    requires
        !is_dec_digit(c),
    ensures
        encode_scalar(c as u32).len() >= 1,
        !is_digit_byte(encode_scalar(c as u32)[0]),
{
    let s = c as u32;
    if has_width_1_encoding(s) {
        assert(s <= 0x7F ==> (s & 0x7F) == s) by (bit_vector);
        assert(encode_scalar(s)[0] == s as u8);
    } else if has_width_2_encoding(s) {
        let y: u8 = ((s >> 6) & 0x1F) as u8;
        assert((0xC0u8 | y) >= 0xC0) by (bit_vector);
    } else if has_width_3_encoding(s) {
        let y: u8 = ((s >> 12) & 0x0F) as u8;
        assert((0xE0u8 | y) >= 0xE0) by (bit_vector);
    } else {
        let y: u8 = ((s >> 18) & 0x7) as u8;
        assert((0xF0u8 | y) >= 0xF0) by (bit_vector);
    }
}

/// Law: building the signing message loses no information. If two requests
/// whose nonce strings are decimal numerals, and whose bodies do not begin
/// with a digit, produce the same signing message, then either the requests
/// were identical in path, nonce and body, or the two nonce-body
/// concatenations form a SHA-256 collision — ruled out here by hypothesis,
/// since no construction step can manufacture one.
pub proof fn lemma_sig_message_injective(
    p1: Seq<char>,
    n1: Seq<char>,
    b1: Seq<char>,
    p2: Seq<char>,
    n2: Seq<char>,
    b2: Seq<char>,
)
    requires
        sig_message_of(p1, n1, b1) == sig_message_of(p2, n2, b2),
        sha256_of(encode_utf8(n1) + encode_utf8(b1)).len() == sha256_of(
            encode_utf8(n2) + encode_utf8(b2),
        ).len(),
        sha256_of(encode_utf8(n1) + encode_utf8(b1)) == sha256_of(
            encode_utf8(n2) + encode_utf8(b2),
        ) ==> encode_utf8(n1) + encode_utf8(b1) == encode_utf8(n2) + encode_utf8(b2),
        all_dec_digits(n1),
        all_dec_digits(n2),
        b1.len() > 0,
        !is_dec_digit(b1[0]),
        b2.len() > 0,
        !is_dec_digit(b2[0]),
    ensures
        p1 == p2,
        n1 == n2,
        b1 == b2,
{
    lemma_message_parts_injective(
        encode_utf8(p1),
        sha256_of(encode_utf8(n1) + encode_utf8(b1)),
        encode_utf8(p2),
        sha256_of(encode_utf8(n2) + encode_utf8(b2)),
    );
    lemma_encode_utf8_injective(p1, p2);
    assert(encode_utf8(n1) + encode_utf8(b1) == encode_utf8(n2) + encode_utf8(b2));
    lemma_encode_digit_chars(n1);
    lemma_encode_digit_chars(n2);
    lemma_first_byte_of_non_digit(b1[0]);
    lemma_first_byte_of_non_digit(b2[0]);
    assert(encode_utf8(b1) == encode_scalar(b1[0] as u32) + encode_utf8(b1.drop_first()));
    assert(encode_utf8(b2) == encode_scalar(b2[0] as u32) + encode_utf8(b2.drop_first()));
    assert(encode_utf8(b1)[0] == encode_scalar(b1[0] as u32)[0]);
    assert(encode_utf8(b2)[0] == encode_scalar(b2[0] as u32)[0]);
    lemma_digit_run_prefix_injective(
        encode_utf8(n1),
        encode_utf8(b1),
        encode_utf8(n2),
        encode_utf8(b2),
    );
    lemma_encode_utf8_injective(n1, n2);
    lemma_encode_utf8_injective(b1, b2);
}

} // verus!
