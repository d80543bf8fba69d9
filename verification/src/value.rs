//! The payload of a stored secret.
//!
//! The vault stores arbitrary bytes. A payload whose bytes are valid UTF-8 is
//! handled as text, any other payload as raw bytes; equality and the contracts
//! below are over the bytes in either case.

use vstd::prelude::*;

use crate::encoding::{b64_decode, b64_encode, b64_of, string_from_utf8, string_push_char};

verus! {

broadcast use vstd::utf8::group_utf8_lib;

/// The lowercase hex digit of a value below sixteen.
pub open spec fn hex_digit(n: u8) -> char
    recommends
        n < 16,
{
    if n < 10 {
        (('0' as u8) + n) as char
    } else {
        (('a' as u8) + (n - 10)) as char
    }
}

/// The lowercase hex rendering of a byte sequence, two digits per byte, no
/// separators.
pub open spec fn hex_chars(b: Seq<u8>) -> Seq<char>
    decreases b.len(),
{
    if b.len() == 0 {
        Seq::empty()
    } else {
        hex_chars(b.drop_last()).push(hex_digit(b.last() / 16)).push(hex_digit(b.last() % 16))
    }
}

fn hex_digit_char(n: u8) -> (c: char)
    requires
        n < 16,
    ensures
        c == hex_digit(n),
{
    if n < 10 {
        (0x30 + n) as char
    } else {
        (0x61 + (n - 10)) as char
    }
}

/// A secret's payload: text where the bytes are valid UTF-8, raw bytes
/// otherwise.
#[derive(Debug, Clone)]
pub enum Value {
    Utf8(String),
    Binary(Vec<u8>),
}

impl Value {
    /// The byte content of the payload, independent of the variant.
    pub open spec fn bytes(self) -> Seq<u8> {
        match self {
            Value::Utf8(s) => vstd::utf8::encode_utf8(s@),
            Value::Binary(b) => b@,
        }
    }

    /// Create a `Value` from owned raw bytes.
    ///
    /// The bytes are classified: valid UTF-8 becomes `Utf8`, anything else
    /// `Binary`. The byte content is kept unchanged either way.
    pub fn new(bytes: Vec<u8>) -> (v: Self)
        ensures
            v.bytes() == bytes@,
            v is Utf8 <==> vstd::utf8::valid_utf8(bytes@),
    {
        match string_from_utf8(bytes) {
            Ok(s) => Value::Utf8(s),
            Err(b) => Value::Binary(b),
        }
    }

    /// Create a `Value` from a byte slice, classified as in [`Value::new`].
    pub fn from(bytes: &[u8]) -> (v: Self)
        ensures
            v.bytes() == bytes@,
            v is Utf8 <==> vstd::utf8::valid_utf8(bytes@),
    {
        Value::new(vstd::slice::slice_to_vec(bytes))
    }

    /// Create a `Value` from a string, trying to read it as base64 first.
    ///
    /// If the string is a canonical base64 rendering, the decoded bytes are
    /// classified as in [`Value::new`]; otherwise the string itself is the
    /// payload.
    pub fn from_possibly_base64_encoded(value: String) -> (v: Self)
        ensures
            forall|b: Seq<u8>|
                value@ == b64_of(b) ==> v.bytes() == b && (v is Utf8 <==> vstd::utf8::valid_utf8(
                    b,
                )),
            (forall|b: Seq<u8>| value@ != b64_of(b)) ==> v == Value::Utf8(value),
    {
        match b64_decode(value.as_str()) {
            Some(decoded) => Value::new(decoded),
            None => Value::Utf8(value),
        }
    }

    /// The payload bytes as a slice.
    pub fn as_bytes(&self) -> (r: &[u8])
        ensures
            r@ == self.bytes(),
    {
        match self {
            Value::Utf8(s) => s.as_str().as_bytes(),
            Value::Binary(b) => b.as_slice(),
        }
    }

    /// Try to decode a text payload from base64.
    ///
    /// A `Binary` payload is returned unchanged; a `Utf8` payload is decoded
    /// as in [`Value::from_possibly_base64_encoded`].
    pub fn decode_base64(self) -> (v: Self)
        ensures
            self matches Value::Utf8(s) ==> {
                &&& forall|b: Seq<u8>|
                    s@ == b64_of(b) ==> v.bytes() == b && (v is Utf8
                        <==> vstd::utf8::valid_utf8(b))
                &&& (forall|b: Seq<u8>| s@ != b64_of(b)) ==> v == self
            },
            self is Binary ==> v == self,
    {
        if let Value::Utf8(string) = self {
            Value::from_possibly_base64_encoded(string)
        } else {
            self
        }
    }

    /// Render for display: text as itself, binary as lowercase hex.
    pub fn display_string(&self) -> (r: String)
        ensures
            self matches Value::Utf8(s) ==> r@ == s@,
            self matches Value::Binary(b) ==> r@ == hex_chars(b@),
    {
        match self {
            Value::Utf8(s) => s.clone(),
            Value::Binary(b) => {
                let mut out = String::new();
                let mut i: usize = 0;
                while i < b.len()
                    invariant
                        0 <= i <= b@.len(),
                        out@ == hex_chars(b@.take(i as int)),
                    decreases b@.len() - i,
                {
                    let byte = b[i];
                    proof {
                        assert(b@.take(i + 1).drop_last() =~= b@.take(i as int));
                        assert(b@.take(i + 1).last() == b@[i as int]);
                    }
                    string_push_char(&mut out, hex_digit_char(byte / 16));
                    string_push_char(&mut out, hex_digit_char(byte % 16));
                    i = i + 1;
                }
                proof {
                    assert(b@.take(b@.len() as int) =~= b@);
                }
                out
            },
        }
    }

    /// Encode a binary payload to base64 text.
    ///
    /// A `Utf8` payload is returned unchanged; a `Binary` payload becomes the
    /// `Utf8` base64 rendering of its bytes.
    pub fn encode_base64(self) -> (v: Self)
        ensures
            self matches Value::Binary(b) ==> v matches Value::Utf8(s) && s@ == b64_of(b@),
            self is Utf8 ==> v == self,
    {
        if let Value::Binary(bytes) = self {
            Value::Utf8(b64_encode(bytes.as_slice()))
        } else {
            self
        }
    }
}

/// Classifying the bytes of a text payload gives the text back: for every
/// string, `Value::from` of its UTF-8 bytes is a `Utf8` value with the same
/// bytes.
pub fn value_bytes_round_trip(s: &String) -> (v: Value)
    ensures
        v is Utf8,
        v.bytes() == vstd::utf8::encode_utf8(s@),
{
    Value::from(s.as_str().as_bytes())
}

/// Base64 round trip: encoding a binary payload and decoding the result gives
/// back the original bytes.
pub fn base64_round_trip(bytes: Vec<u8>) -> (v: Value)
    ensures
        v.bytes() == bytes@,
{
    let ghost original = bytes@;
    let encoded = Value::Binary(bytes).encode_base64();
    let decoded = encoded.decode_base64();
    proof {
        assert(encoded matches Value::Utf8(s) && s@ == b64_of(original));
    }
    decoded
}

} // verus!
