//! The storage protocol of one secret: what `store` writes, what `exists`
//! consults, what `delete` removes, and how `lookup` reports a missing
//! ciphertext.
//!
//! The service calls themselves are made outside the library; each function
//! here fixes the object keys and bodies of one operation, so that a caller
//! performing the calls has nothing left to decide.

use vstd::prelude::*;
use vstd::string::{StrSliceExecFns, StringExecFns};

use crate::crypto::{gcm_msg_limit, open_secret, seal_with_nonce, EncryptObject};
use crate::encoding::b64_of;
use crate::errors::VaultError;
use crate::keys::{
    cipher_suffix, full_key_name, key_suffix, legacy_cipher_suffix, meta_suffix, S3DataKeys,
};
use crate::meta::{lemma_meta_json_parse_round_trip, meta_field_chars_ok, parse_meta_spec};
use crate::value::Value;

verus! {

broadcast use vstd::utf8::group_utf8_lib;

/// The three uploads of one `store`: object key and body, in the order
/// ciphertext, wrapped key, meta. The meta body is the record's UTF-8
/// bytes — exactly the authenticated data bound into the seal.
pub fn store_plan(combined_name: &str, enc: &EncryptObject) -> (r: Vec<(String, Vec<u8>)>)
    ensures
        r@.len() == 3,
        r@[0].0@ == combined_name@ + cipher_suffix(),
        r@[0].1@ == enc.aes_gcm_ciphertext@,
        r@[1].0@ == combined_name@ + key_suffix(),
        r@[1].1@ == enc.data_key@,
        r@[2].0@ == combined_name@ + meta_suffix(),
        r@[2].1@ == vstd::utf8::encode_utf8(enc.meta@),
{
    let keys = S3DataKeys::new(combined_name);
    let mut out: Vec<(String, Vec<u8>)> = Vec::new();
    let cipher_body = enc.aes_gcm_ciphertext.clone();
    let key_body = enc.data_key.clone();
    let meta_body = enc.meta.as_str().as_bytes_vec();
    proof {
        assert(cipher_body@ =~= enc.aes_gcm_ciphertext@);
        assert(key_body@ =~= enc.data_key@);
    }
    out.push((keys.cipher, cipher_body));
    out.push((keys.key, key_body));
    out.push((keys.meta, meta_body));
    out
}

/// What `delete` removes, after its existence pre-check: nothing when the
/// secret is absent, else the three sibling keys in one batch, in the order
/// wrapped key, ciphertext, meta.
pub fn delete_plan(exists: bool, combined_name: &str) -> (r: Result<Vec<String>, VaultError>)
    ensures
        !exists ==> (r matches Err(e) && e is KeyDoesNotExistError),
        exists ==> (r matches Ok(ids) && ids@.len() == 3 && ids@[0]@ == combined_name@
            + key_suffix() && ids@[1]@ == combined_name@ + cipher_suffix() && ids@[2]@
            == combined_name@ + meta_suffix()),
{
    if !exists {
        return Err(VaultError::KeyDoesNotExistError);
    }
    let keys = S3DataKeys::new(combined_name);
    let mut ids: Vec<String> = Vec::new();
    ids.push(keys.key);
    ids.push(keys.cipher);
    ids.push(keys.meta);
    Ok(ids)
}

/// The three identifiers of one combined name, in the order wrapped key,
/// ciphertext, meta.
pub open spec fn identifier_triple(combined: Seq<char>) -> Seq<Seq<char>> {
    seq![combined + key_suffix(), combined + cipher_suffix(), combined + meta_suffix()]
}

/// The batched identifiers of `delete_many`: the three sibling keys of each
/// name under the prefix, in input order.
pub open spec fn many_identifiers(prefix: Seq<char>, names: Seq<Seq<char>>) -> Seq<Seq<char>>
    decreases names.len(),
{
    if names.len() == 0 {
        Seq::empty()
    } else {
        many_identifiers(prefix, names.drop_last()) + identifier_triple(prefix + names.last())
    }
}

/// The batch `delete_many` removes: every name's three sibling keys, under
/// the prefix, in input order; no existence pre-check.
pub fn delete_many_plan(prefix: &str, names: &Vec<String>) -> (r: Vec<String>)
    ensures
        r@.map_values(|s: String| s@) == many_identifiers(
            prefix@,
            names@.map_values(|s: String| s@),
        ),
{
    let ghost nv = names@.map_values(|s: String| s@);
    let mut out: Vec<String> = Vec::new();
    let mut i: usize = 0;
    while i < names.len()
        invariant
            0 <= i <= names.len(),
            nv == names@.map_values(|s: String| s@),
            nv.len() == names@.len(),
            out@.map_values(|s: String| s@) == many_identifiers(prefix@, nv.take(i as int)),
        decreases names.len() - i,
    {
        let combined = full_key_name(prefix, names[i].as_str());
        let keys = S3DataKeys::new(combined.as_str());
        out.push(keys.key);
        out.push(keys.cipher);
        out.push(keys.meta);
        proof {
            assert(nv.take(i + 1).drop_last() =~= nv.take(i as int));
            assert(nv.take(i + 1).last() == nv[i as int]);
            assert(out@.map_values(|s: String| s@) =~= many_identifiers(
                prefix@,
                nv.take(i + 1),
            ));
        }
        i = i + 1;
    }
    proof {
        assert(nv.take(names@.len() as int) =~= nv);
    }
    out
}

/// The one object `exists` consults: the wrapped-key object of the combined
/// name. No other object takes part in the check.
pub fn exists_head_key(prefix: &str, name: &str) -> (r: String)
    ensures
        r@ == prefix@ + name@ + key_suffix(),
{
    let combined = full_key_name(prefix, name);
    let keys = S3DataKeys::new(combined.as_str());
    proof {
        assert(combined@ + key_suffix() =~= prefix@ + name@ + key_suffix());
    }
    keys.key
}

/// What a head call on the object store reported.
#[derive(Debug, Clone)]
pub enum HeadOutcome {
    /// The object is there.
    Found,
    /// The service's typed not-found answer.
    NotFound,
    /// Any other failure, with the service's message.
    Failure(String),
}

/// `exists` from the head call's outcome: present on success, absent on the
/// typed not-found; every other failure surfaces.
pub fn exists_from_head(outcome: HeadOutcome) -> (r: Result<bool, VaultError>)
    ensures
        outcome is Found ==> r == Ok::<bool, VaultError>(true),
        outcome is NotFound ==> r == Ok::<bool, VaultError>(false),
        outcome matches HeadOutcome::Failure(m) ==> (r matches Err(e) && e matches
            VaultError::S3HeadObjectError(msg) && msg == m),
{
    match outcome {
        HeadOutcome::Found => Ok(true),
        HeadOutcome::NotFound => Ok(false),
        HeadOutcome::Failure(m) => Err(VaultError::S3HeadObjectError(m)),
    }
}

/// The ciphertext key of the legacy, pre-AES-GCM format for a combined name.
pub fn legacy_cipher_key(combined_name: &str) -> (r: String)
    ensures
        r@ == combined_name@ + legacy_cipher_suffix(),
{
    combined_name.to_owned().concat(".encrypted")
}

/// Round trip of the whole storage protocol: seal a payload, write the three
/// objects as `store` does, read the ciphertext and meta bodies back and open
/// them as `lookup` does — the payload comes back with exactly its bytes,
/// classified as text exactly when they are valid UTF-8.
pub fn store_lookup_round_trip(
    combined_name: &str,
    key_plain: &[u8],
    wrapped_key: &[u8],
    nonce: &[u8],
    data: &[u8],
) -> (r: Result<Value, VaultError>)
    requires
        key_plain@.len() == 32,
        nonce@.len() == 12,
        data@.len() <= gcm_msg_limit(),
    ensures
        r matches Ok(v) && v.bytes() == data@ && (v is Utf8 <==> vstd::utf8::valid_utf8(data@)),
{
    let enc = match seal_with_nonce(key_plain, wrapped_key, nonce, data) {
        Ok(e) => e,
        Err(e) => {
            proof {
                assert(false);
            }
            return Err(e);
        },
    };
    let plan = store_plan(combined_name, &enc);
    proof {
        reveal_strlit("AESGCM");
        assert(meta_field_chars_ok(("AESGCM")@));
        lemma_meta_json_parse_round_trip(("AESGCM")@, b64_of(nonce@));
        assert(parse_meta_spec(plan@[2].1@) matches Some(p) && p.1 == vstd::utf8::encode_utf8(
            b64_of(nonce@),
        ));
        assert(crate::crypto::meta_nonce_chars(plan@[2].1@) == b64_of(nonce@));
        assert(plan@[2].1@.len() == 21 + 6 + 16);
    }
    let r = open_secret(key_plain, plan[0].1.as_slice(), plan[2].1.as_slice());
    proof {
        assert(r matches Ok(v) && v.bytes() == data@ && (v is Utf8 <==> vstd::utf8::valid_utf8(
            data@,
        )));
    }
    r
}

/// The error `lookup` reports when the ciphertext object is missing: the
/// legacy object alone means the secret was stored by the old format and
/// needs re-encryption; otherwise the get failure surfaces as it is.
pub fn missing_cipher_error(legacy_exists: bool, get_error: String) -> (r: VaultError)
    ensures
        legacy_exists ==> r is DeprecatedEncryptionError,
        !legacy_exists ==> (r matches VaultError::S3GetObjectError(m) && m == get_error),
{
    if legacy_exists {
        VaultError::DeprecatedEncryptionError
    } else {
        VaultError::S3GetObjectError(get_error)
    }
}

} // verus!
