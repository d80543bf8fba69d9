//! The sidecar meta record that accompanies each ciphertext.
//!
//! A secret's `.meta` object is a small JSON record `{"alg":...,"nonce":...}`
//! whose byte encoding doubles as the additional authenticated data of the
//! seal. The writer below produces the canonical form; the parser accepts the
//! grammar given by [`parse_meta_spec`]: one object with exactly the members
//! `alg` and `nonce` in either order, whitespace between tokens, and string
//! values made of printable ASCII without escapes. The writer's output is
//! always inside that grammar ([`lemma_meta_json_parse_round_trip`]).

use vstd::prelude::*;
use vstd::string::StringExecFns;

use crate::encoding::{b64_encode, b64_of, is_b64_char, string_from_utf8};
use crate::errors::VaultError;

verus! {

broadcast use vstd::utf8::group_utf8_lib;

/// JSON whitespace: space, tab, line feed, carriage return.
pub open spec fn is_ws_byte(b: u8) -> bool {
    b == 0x20 || b == 0x09 || b == 0x0a || b == 0x0d
}

/// A byte the parser accepts inside a string value: printable ASCII without
/// the quote and the backslash.
pub open spec fn is_content_byte(b: u8) -> bool {
    0x20 <= b && b <= 0x7e && b != 0x22 && b != 0x5c
}

/// A character the writer may put into a string value: the character set of
/// [`is_content_byte`].
pub open spec fn meta_field_chars_ok(s: Seq<char>) -> bool {
    forall|i: int|
        0 <= i < s.len() ==> (' ' <= #[trigger] s[i] <= '~' && s[i] != '"' && s[i] != '\\')
}

/// The canonical JSON rendering of a meta record with the given field values.
pub open spec fn meta_json_chars(alg: Seq<char>, nonce: Seq<char>) -> Seq<char> {
    seq!['{', '"', 'a', 'l', 'g', '"', ':', '"'] + alg + seq![
        '"',
        ',',
        '"',
        'n',
        'o',
        'n',
        'c',
        'e',
        '"',
        ':',
        '"',
    ] + nonce + seq!['"', '}']
}

/// The sidecar record: an algorithm label and the base64 rendering of the
/// nonce.
#[derive(Debug, Clone)]
pub struct Meta {
    pub alg: String,
    pub nonce: String,
}

impl Meta {
    /// Build a record for the given algorithm label and raw nonce bytes; the
    /// nonce is stored base64-encoded.
    pub fn new(algorithm: &str, nonce: &[u8]) -> (m: Self)
        ensures
            m.alg@ == algorithm@,
            m.nonce@ == b64_of(nonce@),
            forall|i: int| 0 <= i < m.nonce@.len() ==> is_b64_char(#[trigger] m.nonce@[i]),
            m.nonce@.len() == 4 * ((nonce@.len() + 2) / 3),
    {
        Meta { alg: algorithm.to_owned(), nonce: b64_encode(nonce) }
    }

    /// Build a record for the AES-GCM algorithm with the given raw nonce.
    pub fn aesgcm(nonce: &[u8]) -> (m: Self)
        ensures
            m.alg@ == ("AESGCM")@,
            m.nonce@ == b64_of(nonce@),
            forall|i: int| 0 <= i < m.nonce@.len() ==> is_b64_char(#[trigger] m.nonce@[i]),
            m.nonce@.len() == 4 * ((nonce@.len() + 2) / 3),
    {
        Meta::new("AESGCM", nonce)
    }

    /// Serialise the record to its canonical JSON string.
    pub fn to_json(&self) -> (r: String)
        ensures
            r@ == meta_json_chars(self.alg@, self.nonce@),
    {
        let mut s = ("{\"alg\":\"").to_owned();
        s.append(self.alg.as_str());
        s.append("\",\"nonce\":\"");
        s.append(self.nonce.as_str());
        s.append("\"}");
        proof {
            reveal_strlit("{\"alg\":\"");
            reveal_strlit("\",\"nonce\":\"");
            reveal_strlit("\"}");
            assert(("{\"alg\":\"")@ =~= seq!['{', '"', 'a', 'l', 'g', '"', ':', '"']);
            assert(("\",\"nonce\":\"")@ =~= seq![
                '"',
                ',',
                '"',
                'n',
                'o',
                'n',
                'c',
                'e',
                '"',
                ':',
                '"',
            ]);
            assert(("\"}")@ =~= seq!['"', '}']);
            assert(s@ =~= meta_json_chars(self.alg@, self.nonce@));
        }
        s
    }
}

/// Index of the first byte at or after `i` that is not JSON whitespace.
pub open spec fn skip_ws_spec(s: Seq<u8>, i: int) -> int
    decreases s.len() - i,
{
    if 0 <= i && i < s.len() && is_ws_byte(s[i]) {
        skip_ws_spec(s, i + 1)
    } else {
        i
    }
}

/// Index of the first byte at or after `i` that cannot stand inside a string
/// value.
pub open spec fn content_end_spec(s: Seq<u8>, i: int) -> int
    decreases s.len() - i,
{
    if 0 <= i && i < s.len() && is_content_byte(s[i]) {
        content_end_spec(s, i + 1)
    } else {
        i
    }
}

/// Parse a string token at `i`: a quote, content bytes, a quote. Yields the
/// content and the index after the closing quote.
pub open spec fn parse_string_spec(s: Seq<u8>, i: int) -> Option<(Seq<u8>, int)> {
    if 0 <= i && i < s.len() && s[i] == 0x22 {
        let e = content_end_spec(s, i + 1);
        if e < s.len() && s[e] == 0x22 {
            Some((s.subrange(i + 1, e), e + 1))
        } else {
            None
        }
    } else {
        None
    }
}

/// Parse one member at `i`: a string key, a colon, a string value, with
/// whitespace between the tokens. Yields key, value, and the next index.
pub open spec fn parse_member_spec(s: Seq<u8>, i: int) -> Option<(Seq<u8>, Seq<u8>, int)> {
    match parse_string_spec(s, i) {
        Option::None => Option::None,
        Option::Some((key, j)) => {
            let k = skip_ws_spec(s, j);
            if k < s.len() && s[k] == 0x3a {
                match parse_string_spec(s, skip_ws_spec(s, k + 1)) {
                    Option::None => Option::None,
                    Option::Some((val, m)) => Option::Some((key, val, m)),
                }
            } else {
                Option::None
            }
        },
    }
}

/// The bytes of the member key `alg`.
pub open spec fn alg_key_bytes() -> Seq<u8> {
    seq![0x61u8, 0x6cu8, 0x67u8]
}

/// The bytes of the member key `nonce`.
pub open spec fn nonce_key_bytes() -> Seq<u8> {
    seq![0x6eu8, 0x6fu8, 0x6eu8, 0x63u8, 0x65u8]
}

/// The meta grammar: a braced object holding exactly the members `alg` and
/// `nonce`, once each, in either order, and nothing after the closing brace.
/// Yields the content bytes of the two values.
pub open spec fn parse_meta_spec(s: Seq<u8>) -> Option<(Seq<u8>, Seq<u8>)> {
    let i = skip_ws_spec(s, 0);
    if i < s.len() && s[i] == 0x7b {
        match parse_member_spec(s, skip_ws_spec(s, i + 1)) {
            Option::None => Option::None,
            Option::Some((k1, v1, j)) => {
                let j1 = skip_ws_spec(s, j);
                if j1 < s.len() && s[j1] == 0x2c {
                    match parse_member_spec(s, skip_ws_spec(s, j1 + 1)) {
                        Option::None => Option::None,
                        Option::Some((k2, v2, j2)) => {
                            let j3 = skip_ws_spec(s, j2);
                            if j3 < s.len() && s[j3] == 0x7d && skip_ws_spec(s, j3 + 1) == s.len() {
                                if k1 == alg_key_bytes() && k2 == nonce_key_bytes() {
                                    Option::Some((v1, v2))
                                } else if k1 == nonce_key_bytes() && k2 == alg_key_bytes() {
                                    Option::Some((v2, v1))
                                } else {
                                    Option::None
                                }
                            } else {
                                Option::None
                            }
                        },
                    }
                } else {
                    Option::None
                }
            },
        }
    } else {
        Option::None
    }
}

fn ws_byte(b: u8) -> (r: bool)
    ensures
        r == is_ws_byte(b),
{
    b == 0x20 || b == 0x09 || b == 0x0a || b == 0x0d
}

fn content_byte(b: u8) -> (r: bool)
    ensures
        r == is_content_byte(b),
{
    0x20 <= b && b <= 0x7e && b != 0x22 && b != 0x5c
}

fn skip_ws(s: &[u8], from: usize) -> (r: usize)
    requires
        from <= s@.len(),
    ensures
        from <= r <= s@.len(),
        r == skip_ws_spec(s@, from as int),
{
    let mut i: usize = from;
    while i < s.len() && ws_byte(*vstd::slice::slice_index_get(s, i))
        invariant
            from <= i <= s@.len(),
            skip_ws_spec(s@, from as int) == skip_ws_spec(s@, i as int),
        decreases s@.len() - i,
    {
        i = i + 1;
    }
    i
}

fn content_end(s: &[u8], from: usize) -> (r: usize)
    requires
        from <= s@.len(),
    ensures
        from <= r <= s@.len(),
        r == content_end_spec(s@, from as int),
{
    let mut i: usize = from;
    while i < s.len() && content_byte(*vstd::slice::slice_index_get(s, i))
        invariant
            from <= i <= s@.len(),
            content_end_spec(s@, from as int) == content_end_spec(s@, i as int),
        decreases s@.len() - i,
    {
        i = i + 1;
    }
    i
}

fn parse_string_at(s: &[u8], from: usize) -> (r: Option<(Vec<u8>, usize)>)
    requires
        from <= s@.len(),
    ensures
        parse_string_spec(s@, from as int) matches Some(p) ==> (r matches Some(q) && q.0@ == p.0
            && q.1 == p.1 && from < q.1 <= s@.len()),
        parse_string_spec(s@, from as int) is None ==> r is None,
{
    if from < s.len() && *vstd::slice::slice_index_get(s, from) == 0x22 {
        let e = content_end(s, from + 1);
        if e < s.len() && *vstd::slice::slice_index_get(s, e) == 0x22 {
            let content = vstd::slice::slice_to_vec(vstd::slice::slice_subrange(s, from + 1, e));
            Some((content, e + 1))
        } else {
            None
        }
    } else {
        None
    }
}

fn parse_member_at(s: &[u8], from: usize) -> (r: Option<(Vec<u8>, Vec<u8>, usize)>)
    requires
        from <= s@.len(),
    ensures
        parse_member_spec(s@, from as int) matches Some(p) ==> (r matches Some(q) && q.0@ == p.0
            && q.1@ == p.1 && q.2 == p.2 && from < q.2 <= s@.len()),
        parse_member_spec(s@, from as int) is None ==> r is None,
{
    match parse_string_at(s, from) {
        None => None,
        Some((key, j)) => {
            let k = skip_ws(s, j);
            if k < s.len() && *vstd::slice::slice_index_get(s, k) == 0x3a {
                match parse_string_at(s, skip_ws(s, k + 1)) {
                    None => None,
                    Some((val, m)) => Some((key, val, m)),
                }
            } else {
                None
            }
        },
    }
}

fn is_alg_key(v: &Vec<u8>) -> (r: bool)
    ensures
        r == (v@ == alg_key_bytes()),
{
    let r = v.len() == 3 && v[0] == 0x61 && v[1] == 0x6c && v[2] == 0x67;
    proof {
        if r {
            assert(v@ =~= alg_key_bytes());
        } else {
            assert(v@ != alg_key_bytes());
        }
    }
    r
}

fn is_nonce_key(v: &Vec<u8>) -> (r: bool)
    ensures
        r == (v@ == nonce_key_bytes()),
{
    let r = v.len() == 5 && v[0] == 0x6e && v[1] == 0x6f && v[2] == 0x6e && v[3] == 0x63 && v[4]
        == 0x65;
    proof {
        if r {
            assert(v@ =~= nonce_key_bytes());
        } else {
            assert(v@ != nonce_key_bytes());
        }
    }
    r
}

/// Every byte the scan for a string value's end passes over can stand inside
/// a string value.
proof fn lemma_content_end_all(s: Seq<u8>, i: int)
    requires
        0 <= i <= s.len(),
    ensures
        forall|k: int| i <= k < content_end_spec(s, i) ==> is_content_byte(#[trigger] s[k]),
        i <= content_end_spec(s, i) <= s.len(),
    decreases s.len() - i,
{
    if i < s.len() && is_content_byte(s[i]) {
        lemma_content_end_all(s, i + 1);
    }
}

/// Bytes that can stand inside a string value are ASCII, hence valid UTF-8.
proof fn lemma_content_bytes_valid_utf8(b: Seq<u8>)
    requires
        forall|k: int| 0 <= k < b.len() ==> is_content_byte(#[trigger] b[k]),
    ensures
        vstd::utf8::valid_utf8(b),
{
    assert(b.subrange(0, 0) =~= Seq::<u8>::empty());
    assert(vstd::utf8::valid_utf8(b.subrange(0, 0)));
    assert forall|k: int| 0 <= k < b.len() implies vstd::utf8::is_leading_byte_width_1(
        #[trigger] b[k],
    ) by {
        assert(is_content_byte(b[k]));
    }
    vstd::utf8::partial_valid_utf8_extend_ascii_block(b, 0, b.len() as int);
    assert(b.subrange(0, b.len() as int) =~= b);
}

/// Parse a meta record from the raw bytes of a `.meta` object.
///
/// Succeeds exactly on the grammar of [`parse_meta_spec`]; the field strings
/// of the result carry the parsed content bytes.
pub fn parse_meta(bytes: &[u8]) -> (r: Result<Meta, VaultError>)
    ensures
        parse_meta_spec(bytes@) matches Some(p) ==> (r matches Ok(m) && vstd::utf8::encode_utf8(
            m.alg@,
        ) == p.0 && vstd::utf8::encode_utf8(m.nonce@) == p.1),
        parse_meta_spec(bytes@) is None ==> (r matches Err(e)
            && e is EncryptObjectMetaToJsonError),
{
    let malformed = Err(VaultError::EncryptObjectMetaToJsonError);
    let i = skip_ws(bytes, 0);
    if !(i < bytes.len() && *vstd::slice::slice_index_get(bytes, i) == 0x7b) {
        return malformed;
    }
    let m1 = parse_member_at(bytes, skip_ws(bytes, i + 1));
    let (k1, v1, j) = match m1 {
        Some(t) => t,
        None => {
            return malformed;
        },
    };
    let j1 = skip_ws(bytes, j);
    if !(j1 < bytes.len() && *vstd::slice::slice_index_get(bytes, j1) == 0x2c) {
        return malformed;
    }
    let m2 = parse_member_at(bytes, skip_ws(bytes, j1 + 1));
    let (k2, v2, j2) = match m2 {
        Some(t) => t,
        None => {
            return malformed;
        },
    };
    let j3 = skip_ws(bytes, j2);
    if !(j3 < bytes.len() && *vstd::slice::slice_index_get(bytes, j3) == 0x7d && skip_ws(
        bytes,
        j3 + 1,
    ) == bytes.len()) {
        return malformed;
    }
    let (alg_bytes, nonce_bytes) = if is_alg_key(&k1) && is_nonce_key(&k2) {
        (v1, v2)
    } else if is_nonce_key(&k1) && is_alg_key(&k2) {
        (v2, v1)
    } else {
        return malformed;
    };
    proof {
        let sp = parse_meta_spec(bytes@);
        assert(sp matches Some(p) && p.0 == alg_bytes@ && p.1 == nonce_bytes@);
        lemma_member_content_bytes(bytes@, skip_ws_spec(bytes@, i + 1));
        lemma_member_content_bytes(bytes@, skip_ws_spec(bytes@, j1 + 1));
        lemma_content_bytes_valid_utf8(alg_bytes@);
        lemma_content_bytes_valid_utf8(nonce_bytes@);
    }
    let alg = match string_from_utf8(alg_bytes) {
        Ok(a) => a,
        Err(_) => {
            return malformed;
        },
    };
    let nonce = match string_from_utf8(nonce_bytes) {
        Ok(n) => n,
        Err(_) => {
            return malformed;
        },
    };
    Ok(Meta { alg, nonce })
}

/// The content bytes a member parse yields can all stand inside a string
/// value.
proof fn lemma_member_content_bytes(s: Seq<u8>, i: int)
    requires
        0 <= i,
    ensures
        parse_member_spec(s, i) matches Some(p) ==> (forall|k: int|
            0 <= k < p.0.len() ==> is_content_byte(#[trigger] p.0[k])) && (forall|k: int|
            0 <= k < p.1.len() ==> is_content_byte(#[trigger] p.1[k])),
{
    if parse_member_spec(s, i) is Some {
        lemma_string_content_bytes(s, i);
        let j = parse_string_spec(s, i)->Some_0.1;
        let k = skip_ws_spec(s, j);
        lemma_string_content_bytes(s, skip_ws_spec(s, k + 1));
    }
}

/// The content bytes a string parse yields can all stand inside a string
/// value.
proof fn lemma_string_content_bytes(s: Seq<u8>, i: int)
    ensures
        parse_string_spec(s, i) matches Some(p) ==> forall|k: int|
            0 <= k < p.0.len() ==> is_content_byte(#[trigger] p.0[k]),
{
    if 0 <= i && i < s.len() && s[i] == 0x22 {
        lemma_content_end_all(s, i + 1);
    }
}

/// The scan for a string value's end stops exactly at the first byte that
/// cannot stand inside one.
proof fn lemma_content_end_eq(s: Seq<u8>, i: int, j: int)
    requires
        0 <= i <= j <= s.len(),
        forall|k: int| i <= k < j ==> is_content_byte(#[trigger] s[k]),
        j == s.len() || !is_content_byte(s[j]),
    ensures
        content_end_spec(s, i) == j,
    decreases j - i,
{
    if i < j {
        lemma_content_end_eq(s, i + 1, j);
    }
}

/// The writer's canonical output is inside the parser's grammar, and parsing
/// it yields exactly the field values that were written: for all field values
/// made of the accepted characters, the parse of the UTF-8 bytes of
/// `meta_json_chars(alg, nonce)` gives back the UTF-8 bytes of `alg` and
/// `nonce`.
pub proof fn lemma_meta_json_parse_round_trip(alg: Seq<char>, nonce: Seq<char>)
    requires
        meta_field_chars_ok(alg),
        meta_field_chars_ok(nonce),
    ensures
        ({
            let bytes = vstd::utf8::encode_utf8(meta_json_chars(alg, nonce));
            parse_meta_spec(bytes) matches Some(p) && p.0 == vstd::utf8::encode_utf8(alg) && p.1
                == vstd::utf8::encode_utf8(nonce)
        }),
        vstd::utf8::encode_utf8(meta_json_chars(alg, nonce)).len() == 21 + alg.len()
            + nonce.len(),
{
    broadcast use vstd::utf8::is_ascii_chars_encode_utf8;

    let chars = meta_json_chars(alg, nonce);
    let la = alg.len() as int;
    let ln = nonce.len() as int;
    assert(vstd::utf8::is_ascii_chars(alg));
    assert(vstd::utf8::is_ascii_chars(nonce));
    assert(chars.len() == 21 + la + ln);
    assert forall|i: int| 0 <= i < chars.len() implies '\0' <= #[trigger] chars[i] <= '\u{7f}' by {
        if 8 <= i < 8 + la {
            assert(chars[i] == alg[i - 8]);
        } else if 19 + la <= i < 19 + la + ln {
            assert(chars[i] == nonce[i - 19 - la]);
        }
    }
    assert(vstd::utf8::is_ascii_chars(chars));
    let bytes = vstd::utf8::encode_utf8(chars);
    assert(bytes.len() == chars.len());
    assert forall|i: int| 0 <= i < bytes.len() implies #[trigger] bytes[i] == chars[i] as u8 by {}

    // The bytes of the two field values, pointwise.
    assert forall|i: int| 0 <= i < la implies #[trigger] bytes[8 + i] == alg[i] as u8
        && is_content_byte(bytes[8 + i]) by {
        assert(chars[8 + i] == alg[i]);
    }
    assert forall|i: int| 0 <= i < ln implies #[trigger] bytes[19 + la + i] == nonce[i] as u8
        && is_content_byte(bytes[19 + la + i]) by {
        assert(chars[19 + la + i] == nonce[i]);
    }

    // The structural bytes.
    assert(bytes[0] == 0x7b);
    assert(bytes[1] == 0x22);
    assert(bytes[2] == 0x61);
    assert(bytes[3] == 0x6c);
    assert(bytes[4] == 0x67);
    assert(bytes[5] == 0x22);
    assert(bytes[6] == 0x3a);
    assert(bytes[7] == 0x22);
    assert(bytes[8 + la] == 0x22) by { assert(chars[8 + la] == '"'); }
    assert(bytes[9 + la] == 0x2c) by { assert(chars[9 + la] == ','); }
    assert(bytes[10 + la] == 0x22) by { assert(chars[10 + la] == '"'); }
    assert(bytes[11 + la] == 0x6e) by { assert(chars[11 + la] == 'n'); }
    assert(bytes[12 + la] == 0x6f) by { assert(chars[12 + la] == 'o'); }
    assert(bytes[13 + la] == 0x6e) by { assert(chars[13 + la] == 'n'); }
    assert(bytes[14 + la] == 0x63) by { assert(chars[14 + la] == 'c'); }
    assert(bytes[15 + la] == 0x65) by { assert(chars[15 + la] == 'e'); }
    assert(bytes[16 + la] == 0x22) by { assert(chars[16 + la] == '"'); }
    assert(bytes[17 + la] == 0x3a) by { assert(chars[17 + la] == ':'); }
    assert(bytes[18 + la] == 0x22) by { assert(chars[18 + la] == '"'); }
    assert(bytes[19 + la + ln] == 0x22) by { assert(chars[19 + la + ln] == '"'); }
    assert(bytes[20 + la + ln] == 0x7d) by { assert(chars[20 + la + ln] == '}'); }

    // Walk the parse. No structural byte is whitespace, so every whitespace
    // scan stays put.
    assert(skip_ws_spec(bytes, 0) == 0);
    assert(skip_ws_spec(bytes, 1) == 1);
    lemma_content_end_eq(bytes, 2, 5);
    assert(parse_string_spec(bytes, 1) matches Some(p) && p.0 == bytes.subrange(2, 5) && p.1 == 6);
    assert(bytes.subrange(2, 5) =~= alg_key_bytes());
    assert(skip_ws_spec(bytes, 6) == 6);
    assert(skip_ws_spec(bytes, 7) == 7);
    lemma_content_end_eq(bytes, 8, 8 + la);
    assert(parse_string_spec(bytes, 7) matches Some(p) && p.0 == bytes.subrange(8, 8 + la) && p.1
        == 9 + la);
    assert(parse_member_spec(bytes, 1) matches Some(p) && p.0 == alg_key_bytes() && p.1
        == bytes.subrange(8, 8 + la) && p.2 == 9 + la);
    assert(skip_ws_spec(bytes, 9 + la) == 9 + la);
    assert(skip_ws_spec(bytes, 10 + la) == 10 + la);
    lemma_content_end_eq(bytes, 11 + la, 16 + la);
    assert(parse_string_spec(bytes, 10 + la) matches Some(p) && p.0 == bytes.subrange(
        11 + la,
        16 + la,
    ) && p.1 == 17 + la);
    assert(bytes.subrange(11 + la, 16 + la) =~= nonce_key_bytes());
    assert(skip_ws_spec(bytes, 17 + la) == 17 + la);
    assert(skip_ws_spec(bytes, 18 + la) == 18 + la);
    lemma_content_end_eq(bytes, 19 + la, 19 + la + ln);
    assert(parse_string_spec(bytes, 18 + la) matches Some(p) && p.0 == bytes.subrange(
        19 + la,
        19 + la + ln,
    ) && p.1 == 20 + la + ln);
    assert(parse_member_spec(bytes, 10 + la) matches Some(p) && p.0 == nonce_key_bytes() && p.1
        == bytes.subrange(19 + la, 19 + la + ln) && p.2 == 20 + la + ln);
    assert(skip_ws_spec(bytes, 20 + la + ln) == 20 + la + ln);
    assert(skip_ws_spec(bytes, 21 + la + ln) == 21 + la + ln);
    assert(parse_meta_spec(bytes) matches Some(p) && p.0 == bytes.subrange(8, 8 + la) && p.1
        == bytes.subrange(19 + la, 19 + la + ln));

    // The extracted content is exactly the UTF-8 encoding of the fields.
    assert(bytes.subrange(8, 8 + la) =~= vstd::utf8::encode_utf8(alg));
    assert(bytes.subrange(19 + la, 19 + la + ln) =~= vstd::utf8::encode_utf8(nonce));
}

} // verus!
