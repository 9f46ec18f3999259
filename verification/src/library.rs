use vstd::prelude::*;
use vstd::utf8::{decode_utf8, encode_utf8, valid_utf8};

use base64::Engine;
use base64::prelude::BASE64_STANDARD;

use crate::error::Error;

verus! {

/// The text that the standard base64 engine (RFC 4648 alphabet, with
/// padding) produces for `bytes`.
pub uninterp spec fn base64_standard_encoding(bytes: Seq<u8>) -> Seq<char>;

/// The bytes that the standard base64 engine decodes from `text`; `None`
/// where the engine rejects the text.
pub uninterp spec fn base64_standard_decoding(text: Seq<char>) -> Option<Seq<u8>>;

/// Calls `base64::Engine::encode` on `BASE64_STANDARD`. The contract names
/// the result, and states that the same engine decodes it back to `bytes`.
#[verifier::external_body]
fn standard_encode(bytes: &[u8]) -> (text: String)
    requires
        bytes@.len() <= 3 * (usize::MAX / 4),
    ensures
        text@ == base64_standard_encoding(bytes@),
        base64_standard_decoding(text@) == Some(bytes@),
{
    BASE64_STANDARD.encode(bytes)
}

/// Calls `base64::Engine::decode` on `BASE64_STANDARD`, with any decoding
/// error turned into `None`.
#[verifier::external_body]
fn standard_decode(text: &str) -> (bytes: Option<Vec<u8>>)
    ensures
        match bytes {
            Some(b) => base64_standard_decoding(text@) == Some(b@),
            None => base64_standard_decoding(text@) is None,
        },
{
    BASE64_STANDARD.decode(text).ok()
}

/// Calls `String::from_utf8`: it succeeds exactly on valid UTF-8, and the
/// string then holds the characters those bytes encode.
#[verifier::external_body]
fn string_from_utf8(bytes: Vec<u8>) -> (s: Option<String>)
    ensures
        s is Some <==> valid_utf8(bytes@),
        s matches Some(text) ==> text@ == decode_utf8(bytes@),
{
    String::from_utf8(bytes).ok()
}

/// The base64 text of the UTF-8 bytes of `value`.
pub fn base64_encode(value: &str) -> (encoded: String)
    requires
        encode_utf8(value@).len() <= 3 * (usize::MAX / 4),
    ensures
        encoded@ == base64_standard_encoding(encode_utf8(value@)),
        base64_decoded_text(encoded@) == Some(value@),
{
    let encoded = standard_encode(value.as_bytes());
    proof {
        vstd::utf8::encode_utf8_valid_utf8(value@);
        vstd::utf8::encode_utf8_decode_utf8(value@);
    }
    encoded
}

/// What `base64_decode` gives for `text`: the decoded text when `text` is
/// base64 of valid UTF-8, and nothing otherwise.
pub open spec fn base64_decoded_text(text: Seq<char>) -> Option<Seq<char>> {
    match base64_standard_decoding(text) {
        Some(bytes) => if valid_utf8(bytes) {
            Some(decode_utf8(bytes))
        } else {
            None
        },
        None => None,
    }
}

/// The text whose UTF-8 bytes are base64-encoded in `value`.
pub fn base64_decode(value: &str) -> (r: Result<String, Error>)
    ensures
        match r {
            Ok(text) => base64_decoded_text(value@) == Some(text@),
            Err(e) => base64_decoded_text(value@) is None && (e matches Error::InvalidBase64(
                shown,
            ) && shown@ == value@),
        },
{
    let decoded = match standard_decode(value) {
        Some(bytes) => bytes,
        None => return Err(Error::InvalidBase64(value.to_string())),
    };
    match string_from_utf8(decoded) {
        Some(text) => Ok(text),
        None => Err(Error::InvalidBase64(value.to_string())),
    }
}

} // verus!
