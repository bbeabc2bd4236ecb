//! Byte lengths and case folding of text fields.

use crate::errors::SpotifyError;
use vstd::prelude::*;
use vstd::string::*;

verus! {

/// Length of `chars` in bytes once encoded as UTF-8, which is how every text
/// field is stored and bounded.
pub open spec fn byte_len(chars: Seq<char>) -> nat {
    vstd::utf8::encode_utf8(chars).len()
}

/// Length of `s` in bytes.
pub fn text_len(s: &String) -> (n: usize)
    ensures
        n == byte_len(s@),
{
    s.as_str().as_bytes().len()
}

/// `Ok` where `s` has at most `max` bytes, else `error`.
pub fn require_at_most(s: &String, max: usize, error: SpotifyError) -> (r: Result<
    (),
    SpotifyError,
>)
    ensures
        r == if byte_len(s@) <= max {
            Ok::<(), SpotifyError>(())
        } else {
            Err(error)
        },
{
    if text_len(s) <= max {
        Ok(())
    } else {
        Err(error)
    }
}

/// `Ok` where `s` has at least one byte, else `error`.
pub fn require_not_empty(s: &String, error: SpotifyError) -> (r: Result<(), SpotifyError>)
    ensures
        r == if byte_len(s@) > 0 {
            Ok::<(), SpotifyError>(())
        } else {
            Err(error)
        },
{
    if text_len(s) > 0 {
        Ok(())
    } else {
        Err(error)
    }
}

/// The UTF-8 bytes of `s`, as a seed or a payload.
pub fn text_bytes(s: &str) -> (v: Vec<u8>)
    ensures
        v@ == s.spec_bytes(),
{
    s.as_bytes_vec()
}

/// Calls `String::from_utf8`.
///
/// Trusted: bytes that are valid UTF-8 give the string that has exactly these
/// bytes, and other bytes give nothing.
#[verifier::external_body]
pub(crate) fn string_from_utf8(bytes: Vec<u8>) -> (r: Option<String>)
    ensures
        match r {
            Some(s) => vstd::utf8::valid_utf8(bytes@) && vstd::utf8::encode_utf8(s@) == bytes@,
            None => !vstd::utf8::valid_utf8(bytes@),
        },
{
    match String::from_utf8(bytes) {
        Ok(s) => Some(s),
        Err(_) => None,
    }
}

/// The lower-case form of a text, as Unicode defines it.
pub uninterp spec fn lowercase(chars: Seq<char>) -> Seq<char>;

/// Calls `str::to_lowercase`.
///
/// Trusted: the result is the Unicode lower-case form of the argument and
/// depends on nothing else.
#[verifier::external_body]
pub(crate) fn to_lowercase(s: &String) -> (lower: String)
    ensures
        lower@ == lowercase(s@),
{
    s.to_lowercase()
}

} // verus!
