//! Text encodings the vault relies on: base64 for key material inside the
//! sidecar meta record, and UTF-8 for telling text payloads from binary ones.
//!
//! The base64 transform itself is done by an outside crate; its result is
//! named by [`b64_of`] and everything the library proves about round trips
//! goes through that name.

use base64::Engine;
use vstd::prelude::*;

verus! {

broadcast use vstd::utf8::group_utf8_lib;

/// The base64 rendering (standard alphabet, with `=` padding) of a byte
/// sequence.
pub uninterp spec fn b64_of(bytes: Seq<u8>) -> Seq<char>;

/// True of every character the standard base64 alphabet (plus padding) can
/// produce: ASCII, no whitespace, no quote, no backslash.
pub open spec fn is_b64_char(c: char) -> bool {
    '+' <= c <= 'z' && c != '\\'
}

/// Relies on base64's `STANDARD` engine `encode`: the output is a function of
/// the input bytes alone; it is four characters for every three input bytes,
/// drawn from `A-Z a-z 0-9 + /` with `=` padding.
#[verifier::external_body]
pub(crate) fn b64_encode(bytes: &[u8]) -> (r: String)
    ensures
        r@ == b64_of(bytes@),
        r@.len() == 4 * ((bytes@.len() + 2) / 3),
        forall|i: int| 0 <= i < r@.len() ==> is_b64_char(#[trigger] r@[i]),
{
    base64::engine::general_purpose::STANDARD.encode(bytes)
}

/// Relies on base64's `STANDARD` engine `decode`: it accepts exactly the
/// canonically padded renderings, and on such input returns the bytes whose
/// rendering the input is.
#[verifier::external_body]
pub(crate) fn b64_decode(s: &str) -> (r: Option<Vec<u8>>)
    ensures
        r matches Some(d) ==> s@ == b64_of(d@),
        r matches Some(d) ==> forall|b: Seq<u8>| s@ == b64_of(b) ==> d@ == b,
        r is None ==> forall|b: Seq<u8>| s@ != b64_of(b),
{
    base64::engine::general_purpose::STANDARD.decode(s).ok()
}

/// Relies on std's `String::push`: appends one character.
#[verifier::external_body]
pub(crate) fn string_push_char(s: &mut String, c: char)
    ensures
        final (s)@ == old(s)@.push(c),
{
    s.push(c);
}

/// Relies on std's `String::from_utf8`: it succeeds exactly on valid UTF-8
/// input, the returned string is the one whose UTF-8 encoding is the input,
/// and on failure the error hands the input bytes back unchanged.
#[verifier::external_body]
pub(crate) fn string_from_utf8(bytes: Vec<u8>) -> (r: Result<String, Vec<u8>>)
    ensures
        r matches Ok(s) ==> vstd::utf8::encode_utf8(s@) == bytes@,
        r matches Err(b) ==> b@ == bytes@ && !vstd::utf8::valid_utf8(bytes@),
{
    String::from_utf8(bytes).map_err(|e| e.into_bytes())
}

} // verus!
