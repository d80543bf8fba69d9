//! The envelope-encryption pipeline.
//!
//! A secret is sealed with AES-256-GCM under a fresh data key and a fresh
//! 12-byte nonce; the canonical JSON bytes of the sidecar meta record are
//! bound into the tag as additional authenticated data. Opening uses the
//! literal bytes of the `.meta` object as read from the store, never a
//! re-serialisation. The cipher itself is an outside crate; what it computes
//! is named by [`gcm_seal`] and everything proved here goes through that name.

use aes_gcm::aead::{Aead, Payload};
use aes_gcm::{Aes256Gcm, KeyInit};
use vstd::prelude::*;

use crate::encoding::{b64_decode, b64_of, is_b64_char};
use crate::errors::VaultError;
use crate::meta::{meta_field_chars_ok, meta_json_chars, parse_meta, parse_meta_spec, Meta};
use crate::value::Value;

verus! {

broadcast use vstd::utf8::group_utf8_lib;

/// The AES-256-GCM sealing of a message: the ciphertext with the 16-byte tag
/// appended, as a function of key, nonce, authenticated data and message.
pub uninterp spec fn gcm_seal(key: Seq<u8>, nonce: Seq<u8>, aad: Seq<u8>, msg: Seq<u8>) -> Seq<u8>;

/// The largest message the cipher seals: `P_MAX` of the AES-GCM spec.
pub open spec fn gcm_msg_limit() -> int {
    0xFFFFFFFE0
}

/// The largest authenticated data the cipher accepts: `A_MAX` of the AES-GCM
/// spec.
pub open spec fn gcm_aad_limit() -> int {
    0x1FFFFFFFFFFFFFFF
}

/// Relies on aes_gcm's `Aes256Gcm` `encrypt`: the output is a deterministic
/// function of key, nonce, authenticated data and message; it is the
/// ciphertext with the 16-byte tag appended; the call fails exactly when the
/// message or the authenticated data is over the documented length limit.
#[verifier::external_body]
fn gcm_seal_exec(key: &[u8], nonce: &[u8], aad: &[u8], msg: &[u8]) -> (r: Result<
    Vec<u8>,
    VaultError,
>)
    requires
        key@.len() == 32,
        nonce@.len() == 12,
    ensures
        r matches Ok(c) ==> c@ == gcm_seal(key@, nonce@, aad@, msg@),
        r matches Ok(c) ==> c@.len() == msg@.len() + 16,
        r is Err ==> msg@.len() > gcm_msg_limit() || aad@.len() > gcm_aad_limit(),
        r matches Err(e) ==> e is CiphertextEncryptionError,
{
    let cipher = match Aes256Gcm::new_from_slice(key) {
        Ok(c) => c,
        Err(_) => {
            return Err(VaultError::CiphertextEncryptionError);
        },
    };
    let nonce_arr = match aes_gcm::Nonce::try_from(nonce) {
        Ok(n) => n,
        Err(_) => {
            return Err(VaultError::CiphertextEncryptionError);
        },
    };
    cipher.encrypt(&nonce_arr, Payload { msg, aad }).map_err(
        |_| VaultError::CiphertextEncryptionError,
    )
}

/// Relies on aes_gcm's `Aes256Gcm` `decrypt`: within the documented length
/// limits it recomputes the tag over the given authenticated data and
/// ciphertext body and succeeds exactly when the input is the sealing of some
/// message under the same key, nonce and authenticated data — the counter
/// keystream pairs each message with one ciphertext body — and then returns
/// that message.
#[verifier::external_body]
fn gcm_open_exec(key: &[u8], nonce: &[u8], aad: &[u8], ct: &[u8]) -> (r: Result<Vec<u8>, VaultError>)
    requires
        key@.len() == 32,
        nonce@.len() == 12,
    ensures
        r matches Ok(m) ==> ct@ == gcm_seal(key@, nonce@, aad@, m@),
        r matches Ok(m) ==> m@.len() + 16 == ct@.len(),
        r matches Ok(m) ==> m@.len() <= gcm_msg_limit() && aad@.len() <= gcm_aad_limit(),
        r matches Ok(m) ==> forall|p: Seq<u8>|
            p.len() <= gcm_msg_limit() && ct@ == gcm_seal(key@, nonce@, aad@, p) ==> m@ == p,
        r is Err ==> forall|p: Seq<u8>|
            p.len() <= gcm_msg_limit() && aad@.len() <= gcm_aad_limit() ==> ct@ != gcm_seal(
                key@,
                nonce@,
                aad@,
                p,
            ),
        r matches Err(e) ==> e is NonceDecryptError,
{
    let cipher = match Aes256Gcm::new_from_slice(key) {
        Ok(c) => c,
        Err(_) => {
            return Err(VaultError::NonceDecryptError);
        },
    };
    let nonce_arr = match aes_gcm::Nonce::try_from(nonce) {
        Ok(n) => n,
        Err(_) => {
            return Err(VaultError::NonceDecryptError);
        },
    };
    cipher.decrypt(&nonce_arr, Payload { msg: ct, aad }).map_err(|_| VaultError::NonceDecryptError)
}

/// Relies on rand's `random` over the thread-local CSPRNG: twelve fresh
/// random bytes. Nothing is promised of the values; the length is twelve.
#[verifier::external_body]
pub(crate) fn create_random_nonce() -> (r: Vec<u8>)
    ensures
        r@.len() == 12,
{
    rand::random::<[u8; 12]>().to_vec()
}

/// What one sealing produces: the wrapped data key, the sealed payload, and
/// the serialised meta record whose bytes are the authenticated data.
#[derive(Debug, Clone)]
pub struct EncryptObject {
    pub data_key: Vec<u8>,
    pub aes_gcm_ciphertext: Vec<u8>,
    pub meta: String,
}

/// True when `enc` is the sealing of `data` under the given plaintext key and
/// nonce, carrying the given wrapped key: the meta record is the canonical
/// AES-GCM record for the nonce, and the ciphertext is the seal whose
/// authenticated data is the meta record's own bytes.
pub open spec fn sealed_with(
    enc: EncryptObject,
    key: Seq<u8>,
    wrapped: Seq<u8>,
    nonce: Seq<u8>,
    data: Seq<u8>,
) -> bool {
    &&& enc.meta@ == meta_json_chars(("AESGCM")@, b64_of(nonce))
    &&& enc.aes_gcm_ciphertext@ == gcm_seal(
        key,
        nonce,
        vstd::utf8::encode_utf8(enc.meta@),
        data,
    )
    &&& enc.data_key@ == wrapped
}

/// Seal `data` under the given 32-byte plaintext data key with the given
/// 12-byte nonce; `wrapped_key` is carried through for storage.
pub fn seal_with_nonce(key_plain: &[u8], wrapped_key: &[u8], nonce: &[u8], data: &[u8]) -> (r:
    Result<EncryptObject, VaultError>)
    requires
        nonce@.len() == 12,
    ensures
        r matches Ok(enc) ==> sealed_with(enc, key_plain@, wrapped_key@, nonce@, data@),
        r is Ok ==> key_plain@.len() == 32 && meta_field_chars_ok(b64_of(nonce@)) && b64_of(
            nonce@,
        ).len() == 16,
        key_plain@.len() != 32 ==> (r matches Err(e) && e is InvalidNonceLengthError),
        key_plain@.len() == 32 && data@.len() <= gcm_msg_limit() ==> r is Ok,
        r matches Err(e) ==> (e is InvalidNonceLengthError || e is CiphertextEncryptionError),
{
    if key_plain.len() != 32 {
        return Err(VaultError::InvalidNonceLengthError);
    }
    let meta = Meta::aesgcm(nonce);
    let meta_json = meta.to_json();
    proof {
        assert forall|i: int| 0 <= i < b64_of(nonce@).len() implies (' ' <= #[trigger] b64_of(
            nonce@,
        )[i] <= '~' && b64_of(nonce@)[i] != '"' && b64_of(nonce@)[i] != '\\') by {
            assert(is_b64_char(b64_of(nonce@)[i]));
        }
        reveal_strlit("AESGCM");
        assert forall|i: int| 0 <= i < meta_json@.len() implies '\0' <= #[trigger] meta_json@[i]
            <= '\u{7f}' by {
            let nc = b64_of(nonce@);
            if 8 <= i < 8 + 6 {
                assert(meta_json@[i] == ("AESGCM")@[i - 8]);
            } else if 19 + 6 <= i < 19 + 6 + nc.len() {
                assert(meta_json@[i] == nc[i - 25]);
                assert(is_b64_char(nc[i - 25]));
            }
        }
        assert(vstd::utf8::is_ascii_chars(meta_json@));
        vstd::utf8::is_ascii_chars_encode_utf8(meta_json@);
    }
    let aad = meta_json.as_str().as_bytes_vec();
    match gcm_seal_exec(key_plain, nonce, aad.as_slice(), data) {
        Ok(ct) => Ok(
            EncryptObject {
                data_key: vstd::slice::slice_to_vec(wrapped_key),
                aes_gcm_ciphertext: ct,
                meta: meta_json,
            },
        ),
        Err(e) => Err(e),
    }
}

/// Seal `data` under a fresh random 12-byte nonce.
///
/// On success the result is the sealing of `data` for some 12-byte nonce;
/// which nonce is drawn is not observable in the contract.
pub fn encrypt(key_plain: &[u8], wrapped_key: &[u8], data: &[u8]) -> (r: Result<
    EncryptObject,
    VaultError,
>)
    ensures
        r matches Ok(enc) ==> exists|nonce: Seq<u8>|
            nonce.len() == 12 && #[trigger] sealed_with(
                enc,
                key_plain@,
                wrapped_key@,
                nonce,
                data@,
            ),
        key_plain@.len() != 32 ==> (r matches Err(e) && e is InvalidNonceLengthError),
        key_plain@.len() == 32 && data@.len() <= gcm_msg_limit() ==> r is Ok,
        r matches Err(e) ==> (e is InvalidNonceLengthError || e is CiphertextEncryptionError),
{
    let nonce = create_random_nonce();
    seal_with_nonce(key_plain, wrapped_key, nonce.as_slice(), data)
}

/// Open a secret: parse the sidecar meta record, decode its nonce, and open
/// the ciphertext with the literal meta bytes as authenticated data, then
/// classify the plaintext as text or binary.
///
/// `key_plain` is the data key's plaintext half, as unwrapped by the key
/// service. The authenticated data handed to the cipher is `meta_bytes`
/// exactly as given — the bytes read from the store, not a re-serialisation.
pub fn open_secret(key_plain: &[u8], cipher_text: &[u8], meta_bytes: &[u8]) -> (r: Result<
    Value,
    VaultError,
>)
    ensures
        parse_meta_spec(meta_bytes@) is None ==> (r matches Err(e)
            && e is EncryptObjectMetaToJsonError),
        parse_meta_spec(meta_bytes@) is Some && key_plain@.len() != 32 ==> (r matches Err(e)
            && e is InvalidNonceLengthError),
        parse_meta_spec(meta_bytes@) is Some && key_plain@.len() == 32 && (forall|raw: Seq<u8>|
            meta_nonce_chars(meta_bytes@) != b64_of(raw)) ==> (r matches Err(e)
            && e is NonceParseError),
        forall|raw: Seq<u8>|
            parse_meta_spec(meta_bytes@) is Some && key_plain@.len() == 32
                && meta_nonce_chars(meta_bytes@) == b64_of(raw) && raw.len() != 12 ==> (r matches Err(
                e,
            ) && e is InvalidNonceLengthError),
        forall|raw: Seq<u8>, m: Seq<u8>|
            parse_meta_spec(meta_bytes@) is Some && key_plain@.len() == 32
                && meta_nonce_chars(meta_bytes@) == b64_of(raw) && raw.len() == 12 && m.len()
                <= gcm_msg_limit() && meta_bytes@.len() <= gcm_aad_limit() && cipher_text@
                == gcm_seal(key_plain@, raw, meta_bytes@, m) ==> (r matches Ok(v) && v.bytes() == m
                && (v is Utf8 <==> vstd::utf8::valid_utf8(m))),
        forall|raw: Seq<u8>|
            parse_meta_spec(meta_bytes@) is Some && key_plain@.len() == 32
                && meta_nonce_chars(meta_bytes@) == b64_of(raw) && raw.len() == 12 && (forall|
                m: Seq<u8>|
                m.len() <= gcm_msg_limit() && meta_bytes@.len() <= gcm_aad_limit() ==> cipher_text@
                    != gcm_seal(key_plain@, raw, meta_bytes@, m)) ==> (r matches Err(e)
                && e is NonceDecryptError),
{
    let meta = match parse_meta(meta_bytes) {
        Ok(m) => m,
        Err(e) => {
            return Err(e);
        },
    };
    if key_plain.len() != 32 {
        return Err(VaultError::InvalidNonceLengthError);
    }
    let raw_nonce = match b64_decode(meta.nonce.as_str()) {
        Some(d) => d,
        None => {
            return Err(VaultError::NonceParseError);
        },
    };
    if raw_nonce.len() != 12 {
        return Err(VaultError::InvalidNonceLengthError);
    }
    proof {
        assert(meta.nonce@ == meta_nonce_chars(meta_bytes@));
    }
    let plain = match gcm_open_exec(key_plain, raw_nonce.as_slice(), meta_bytes, cipher_text) {
        Ok(p) => p,
        Err(e) => {
            return Err(e);
        },
    };
    Ok(Value::new(plain))
}

/// The nonce characters carried by the meta record parsed from the given
/// sidecar bytes.
pub open spec fn meta_nonce_chars(meta_bytes: Seq<u8>) -> Seq<char>
    recommends
        parse_meta_spec(meta_bytes) is Some,
{
    vstd::utf8::decode_utf8(parse_meta_spec(meta_bytes)->Some_0.1)
}

/// Round trip of the envelope: for every 32-byte data key, 12-byte nonce and
/// payload within the cipher's limit, sealing and then opening with the
/// written meta bytes as authenticated data returns a payload with exactly
/// the original bytes, classified as text exactly when they are valid UTF-8.
pub fn seal_open_round_trip(key_plain: &[u8], wrapped_key: &[u8], nonce: &[u8], data: &[u8]) -> (r:
    Result<Value, VaultError>)
    requires
        key_plain@.len() == 32,
        nonce@.len() == 12,
        data@.len() <= gcm_msg_limit(),
    ensures
        r matches Ok(v) && v.bytes() == data@ && (v is Utf8 <==> vstd::utf8::valid_utf8(data@)),
{
    let enc = match seal_with_nonce(key_plain, wrapped_key, nonce, data) {
        Ok(e) => e,
        Err(e) => {
            proof {
                assert(false);
            }
            return Err(e);
        },
    };
    let meta_bytes = enc.meta.as_str().as_bytes_vec();
    proof {
        reveal_strlit("AESGCM");
        assert(meta_field_chars_ok(("AESGCM")@));
        crate::meta::lemma_meta_json_parse_round_trip(("AESGCM")@, b64_of(nonce@));
        let pm = parse_meta_spec(meta_bytes@);
        assert(pm matches Some(p) && p.1 == vstd::utf8::encode_utf8(b64_of(nonce@)));
        assert(meta_nonce_chars(meta_bytes@) == b64_of(nonce@));
    }
    let r = open_secret(key_plain, enc.aes_gcm_ciphertext.as_slice(), meta_bytes.as_slice());
    proof {
        assert(meta_bytes@.len() == 21 + 6 + 16) by {
            crate::meta::lemma_meta_json_parse_round_trip(("AESGCM")@, b64_of(nonce@));
        }
        assert(r matches Ok(v) && v.bytes() == data@ && (v is Utf8 <==> vstd::utf8::valid_utf8(
            data@,
        )));
    }
    r
}

} // verus!
