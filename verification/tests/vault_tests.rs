use std::collections::HashMap;

use nitor_vault::crypto::{open_secret, seal_with_nonce};
use nitor_vault::errors::VaultError;
use nitor_vault::vault::{
    delete_many_plan, delete_plan, exists_from_head, exists_head_key, legacy_cipher_key,
    missing_cipher_error, store_lookup_round_trip, store_plan, HeadOutcome,
};
use nitor_vault::Value;

const KEY: [u8; 32] = [9u8; 32];
const NONCE: [u8; 12] = [0u8, 1, 2, 3, 4, 5, 6, 7, 8, 9, 10, 11];

#[test]
fn store_plan_writes_three_objects() {
    let enc = seal_with_nonce(&KEY, b"wrapped-key", &NONCE, b"hello").unwrap();
    let meta_json = enc.meta.clone();
    let plan = store_plan("team/greeting", &enc);
    assert_eq!(plan.len(), 3);
    assert_eq!(plan[0].0, "team/greeting.aesgcm.encrypted");
    assert_eq!(plan[0].1, enc.aes_gcm_ciphertext);
    assert_eq!(plan[1].0, "team/greeting.key");
    assert_eq!(plan[1].1, b"wrapped-key");
    assert_eq!(plan[2].0, "team/greeting.meta");
    assert_eq!(plan[2].1, meta_json.as_bytes());
}

#[test]
fn store_then_lookup_through_an_object_store() {
    // The full storage protocol against an in-memory object store: store
    // writes its three objects, lookup reads them back and opens with the
    // literal meta bytes.
    let mut bucket: HashMap<String, Vec<u8>> = HashMap::new();
    let enc = seal_with_nonce(&KEY, b"wrapped-key", &NONCE, b"hello").unwrap();
    for (key, body) in store_plan("greeting", &enc) {
        bucket.insert(key, body);
    }
    assert!(bucket.contains_key("greeting.aesgcm.encrypted"));
    assert!(bucket.contains_key("greeting.key"));
    assert!(bucket.contains_key("greeting.meta"));

    let cipher = bucket.get("greeting.aesgcm.encrypted").unwrap();
    let meta = bucket.get("greeting.meta").unwrap();
    let v = open_secret(&KEY, cipher, meta).unwrap();
    assert!(matches!(&v, Value::Utf8(s) if s == "hello"));
}

#[test]
fn exists_consults_only_the_key_object() {
    assert_eq!(exists_head_key("team/", "a"), "team/a.key");
    assert_eq!(exists_head_key("", "a"), "a.key");
}

#[test]
fn exists_from_head_outcomes() {
    assert_eq!(exists_from_head(HeadOutcome::Found).unwrap(), true);
    assert_eq!(exists_from_head(HeadOutcome::NotFound).unwrap(), false);
    let e = exists_from_head(HeadOutcome::Failure("denied".to_string())).unwrap_err();
    assert!(matches!(e, VaultError::S3HeadObjectError(m) if m == "denied"));
}

#[test]
fn delete_requires_existence() {
    let e = delete_plan(false, "a").unwrap_err();
    assert!(matches!(e, VaultError::KeyDoesNotExistError));
    let ids = delete_plan(true, "a").unwrap();
    assert_eq!(ids, vec!["a.key", "a.aesgcm.encrypted", "a.meta"]);
}

#[test]
fn exists_then_delete_then_absent() {
    let mut bucket: HashMap<String, Vec<u8>> = HashMap::new();
    let enc = seal_with_nonce(&KEY, b"wrapped", &NONCE, b"1").unwrap();
    for (key, body) in store_plan("a", &enc) {
        bucket.insert(key, body);
    }
    let head = exists_head_key("", "a");
    assert!(bucket.contains_key(&head));
    for id in delete_plan(bucket.contains_key(&head), "a").unwrap() {
        bucket.remove(&id);
    }
    assert!(!bucket.contains_key(&head));
    let e = delete_plan(bucket.contains_key(&head), "a").unwrap_err();
    assert!(matches!(e, VaultError::KeyDoesNotExistError));
}

#[test]
fn delete_many_batches_every_name() {
    let names = vec!["a".to_string(), "b".to_string()];
    let ids = delete_many_plan("p/", &names);
    assert_eq!(
        ids,
        vec![
            "p/a.key",
            "p/a.aesgcm.encrypted",
            "p/a.meta",
            "p/b.key",
            "p/b.aesgcm.encrypted",
            "p/b.meta",
        ]
    );
}

#[test]
fn enumeration_after_two_stores() {
    let mut bucket: HashMap<String, Vec<u8>> = HashMap::new();
    let enc_a = seal_with_nonce(&KEY, b"wrapped", &NONCE, b"1").unwrap();
    let enc_b = seal_with_nonce(&KEY, b"wrapped", &NONCE, b"2").unwrap();
    for (key, body) in store_plan("a", &enc_a) {
        bucket.insert(key, body);
    }
    for (key, body) in store_plan("b", &enc_b) {
        bucket.insert(key, body);
    }
    let mut keys: Vec<String> = bucket.keys().cloned().collect();
    keys.sort();
    let names = nitor_vault::keys::secret_names_from_keys(&keys);
    assert_eq!(names, vec!["a".to_string(), "b".to_string()]);
}

#[test]
fn protocol_round_trip_binary() {
    let data = [0x00u8, 0xff, 0xfe, 0x80];
    let v = store_lookup_round_trip("blob", &KEY, b"wrapped", &NONCE, &data).unwrap();
    assert!(matches!(&v, Value::Binary(b) if *b == data.to_vec()));
}

#[test]
fn missing_cipher_reports_deprecated_or_get_error() {
    assert_eq!(legacy_cipher_key("a"), "a.encrypted");
    let e = missing_cipher_error(true, "boom".to_string());
    assert!(matches!(e, VaultError::DeprecatedEncryptionError));
    let e = missing_cipher_error(false, "boom".to_string());
    assert!(matches!(e, VaultError::S3GetObjectError(m) if m == "boom"));
}
