//! The text boundary: base64url encoding and decoding and UTF-8 decoding,
//! relied upon through thin wrappers.

use vstd::prelude::*;
use vstd::utf8::{valid_utf8, decode_utf8};
use crate::errors::ZkIdError;
use base64::Engine;

verus! {

/// What base64url-without-padding encoding returns on a byte string.
pub uninterp spec fn b64url_nopad_of(b: Seq<u8>) -> Seq<char>;

/// What tolerant base64url decoding returns on a text: the decoded bytes, or
/// nothing when the text is not valid base64url.
pub uninterp spec fn b64url_decoded(s: Seq<char>) -> Option<Seq<u8>>;

/// A character of the URL-safe base64 alphabet: letters, digits, `-` and `_`.
pub open spec fn is_b64url_char(c: char) -> bool {
    ||| ('A' as u32) <= (c as u32) && (c as u32) <= ('Z' as u32)
    ||| ('a' as u32) <= (c as u32) && (c as u32) <= ('z' as u32)
    ||| ('0' as u32) <= (c as u32) && (c as u32) <= ('9' as u32)
    ||| c == '-'
    ||| c == '_'
}

/// Relies on base64's `URL_SAFE_NO_PAD` engine `encode`: base64url text
/// without padding (RFC 4648 section 5), a function of the bytes alone, with
/// four output characters for every three input bytes, rounded up, drawn from
/// the URL-safe alphabet.
#[verifier::external_body]
pub(crate) fn b64url_encode_nopad(b: &[u8]) -> (r: String)
    ensures
        r@ == b64url_nopad_of(b@),
        r@.len() == (b@.len() * 4 + 2) / 3,
        forall|i: int| 0 <= i < r@.len() ==> is_b64url_char(#[trigger] r@[i]),
{
    base64::engine::general_purpose::URL_SAFE_NO_PAD.encode(b)
}

/// Relies on base64's `URL_SAFE_PAD_INDIFFERENT` engine `decode`: decodes
/// base64url text whether or not it carries trailing padding, a function of
/// the text alone, erring exactly on malformed input.
#[verifier::external_body]
pub(crate) fn b64url_decode(s: &str) -> (r: Option<Vec<u8>>)
    ensures
        match r {
            Some(v) => b64url_decoded(s@) == Some(v@),
            None => b64url_decoded(s@) is None,
        },
{
    match base64::engine::general_purpose::URL_SAFE_PAD_INDIFFERENT.decode(s) {
        Ok(v) => Some(v),
        Err(_) => None,
    }
}

/// Relies on `String::from_utf8`, which succeeds exactly on valid UTF-8 input
/// and returns the text that those bytes encode.
#[verifier::external_body]
pub(crate) fn string_from_utf8(v: Vec<u8>) -> (r: Option<String>)
    ensures
        r is Some <==> valid_utf8(v@),
        r is Some ==> r.unwrap()@ == decode_utf8(v@),
{
    match String::from_utf8(v) {
        Ok(s) => Some(s),
        Err(_) => None,
    }
}

/// Relies on `str`'s `PartialEq::eq`: two string slices compare equal exactly
/// when their character sequences are equal.
#[verifier::external_body]
pub(crate) fn str_eq(a: &str, b: &str) -> (r: bool)
    ensures
        r == (a@ == b@),
{
    a == b
}

/// The text that base64url text denotes: decode the base64url, then decode
/// the bytes as UTF-8; nothing when either step fails.
pub open spec fn spec_b64url_to_chars(s: Seq<char>) -> Option<Seq<char>> {
    match b64url_decoded(s) {
        Some(v) => if valid_utf8(v) {
            Some(decode_utf8(v))
        } else {
            None
        },
        None => None,
    }
}

/// Decodes base64url text into the UTF-8 string it carries.
pub fn base64url_to_str(b64: &str) -> (r: Result<String, ZkIdError>)
    ensures
        match r {
            Ok(s) => spec_b64url_to_chars(b64@) == Some(s@),
            Err(e) => spec_b64url_to_chars(b64@) is None && e == ZkIdError::ClaimsParseError,
        },
{
    match b64url_decode(b64) {
        Some(v) => match string_from_utf8(v) {
            Some(s) => Ok(s),
            None => Err(ZkIdError::ClaimsParseError),
        },
        None => Err(ZkIdError::ClaimsParseError),
    }
}

} // verus!
