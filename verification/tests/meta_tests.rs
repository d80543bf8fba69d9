use nitor_vault::errors::VaultError;
use nitor_vault::meta::{parse_meta, Meta};

#[test]
fn meta_aesgcm_canonical_json() {
    let m = Meta::aesgcm(&[0u8; 12]);
    assert_eq!(m.alg, "AESGCM");
    assert_eq!(m.nonce, "AAAAAAAAAAAAAAAA");
    assert_eq!(m.to_json(), "{\"alg\":\"AESGCM\",\"nonce\":\"AAAAAAAAAAAAAAAA\"}");
}

#[test]
fn meta_parse_canonical_round_trip() {
    let m = Meta::aesgcm(&[1u8, 2, 3, 4, 5, 6, 7, 8, 9, 10, 11, 12]);
    let json = m.to_json();
    let parsed = parse_meta(json.as_bytes()).unwrap();
    assert_eq!(parsed.alg, m.alg);
    assert_eq!(parsed.nonce, m.nonce);
}

#[test]
fn meta_parse_whitespace_and_reordered_members() {
    let parsed =
        parse_meta(b"  { \"nonce\" : \"AAAAAAAAAAAAAAAA\" ,\n\t\"alg\" : \"AESGCM\" }  ").unwrap();
    assert_eq!(parsed.alg, "AESGCM");
    assert_eq!(parsed.nonce, "AAAAAAAAAAAAAAAA");
}

#[test]
fn meta_parse_rejects_garbage() {
    let e = parse_meta(b"not json at all").unwrap_err();
    assert!(matches!(e, VaultError::EncryptObjectMetaToJsonError));
}

#[test]
fn meta_parse_rejects_missing_member() {
    let e = parse_meta(b"{\"alg\":\"AESGCM\"}").unwrap_err();
    assert!(matches!(e, VaultError::EncryptObjectMetaToJsonError));
}

#[test]
fn meta_parse_rejects_duplicate_keys() {
    let e = parse_meta(b"{\"alg\":\"AESGCM\",\"alg\":\"AESGCM\"}").unwrap_err();
    assert!(matches!(e, VaultError::EncryptObjectMetaToJsonError));
}

#[test]
fn meta_parse_rejects_escapes_in_values() {
    let e = parse_meta(b"{\"alg\":\"AES\\\"GCM\",\"nonce\":\"AAAA\"}").unwrap_err();
    assert!(matches!(e, VaultError::EncryptObjectMetaToJsonError));
}

#[test]
fn meta_parse_rejects_trailing_text() {
    let e = parse_meta(b"{\"alg\":\"AESGCM\",\"nonce\":\"AAAA\"}x").unwrap_err();
    assert!(matches!(e, VaultError::EncryptObjectMetaToJsonError));
}
