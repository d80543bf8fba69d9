use nitor_vault::crypto::{encrypt, open_secret, seal_open_round_trip, seal_with_nonce};
use nitor_vault::errors::VaultError;
use nitor_vault::meta::Meta;
use nitor_vault::Value;

const KEY: [u8; 32] = [7u8; 32];
const NONCE: [u8; 12] = [1u8, 2, 3, 4, 5, 6, 7, 8, 9, 10, 11, 12];

#[test]
fn seal_then_open_utf8() {
    let enc = seal_with_nonce(&KEY, b"wrapped", &NONCE, b"hello").unwrap();
    let v = open_secret(&KEY, &enc.aes_gcm_ciphertext, enc.meta.as_bytes()).unwrap();
    assert!(matches!(&v, Value::Utf8(s) if s == "hello"));
    assert_eq!(enc.data_key, b"wrapped");
}

#[test]
fn seal_then_open_binary() {
    let data = [0x00u8, 0xff, 0xfe, 0x80];
    let enc = seal_with_nonce(&KEY, b"wrapped", &NONCE, &data).unwrap();
    let v = open_secret(&KEY, &enc.aes_gcm_ciphertext, enc.meta.as_bytes()).unwrap();
    assert!(matches!(&v, Value::Binary(b) if *b == data.to_vec()));
}

#[test]
fn seal_then_open_empty_payload() {
    let enc = seal_with_nonce(&KEY, b"wrapped", &NONCE, b"").unwrap();
    let v = open_secret(&KEY, &enc.aes_gcm_ciphertext, enc.meta.as_bytes()).unwrap();
    assert!(matches!(&v, Value::Utf8(s) if s.is_empty()));
}

#[test]
fn round_trip_function_returns_payload() {
    let v = seal_open_round_trip(&KEY, b"wrapped", &NONCE, b"round trip").unwrap();
    assert_eq!(v.as_bytes(), b"round trip");
}

#[test]
fn encrypt_with_random_nonce_opens() {
    let enc = encrypt(&KEY, b"wrapped", b"payload").unwrap();
    let v = open_secret(&KEY, &enc.aes_gcm_ciphertext, enc.meta.as_bytes()).unwrap();
    assert_eq!(v.as_bytes(), b"payload");
}

#[test]
fn tampered_ciphertext_fails_to_open() {
    let enc = seal_with_nonce(&KEY, b"wrapped", &NONCE, b"secret value").unwrap();
    for i in 0..enc.aes_gcm_ciphertext.len() {
        let mut mutated = enc.aes_gcm_ciphertext.clone();
        mutated[i] ^= 0x01;
        let e = open_secret(&KEY, &mutated, enc.meta.as_bytes()).unwrap_err();
        assert!(matches!(e, VaultError::NonceDecryptError));
    }
}

#[test]
fn reformatted_meta_fails_to_open() {
    // The same nonce, base64-encoded identically, but with extra whitespace in
    // the JSON: parsing succeeds, yet the authenticated data is the literal
    // object bytes, so opening must fail.
    let enc = seal_with_nonce(&KEY, b"wrapped", &NONCE, b"v").unwrap();
    let m = Meta::aesgcm(&NONCE);
    let reformatted = format!("{{ \"alg\": \"AESGCM\", \"nonce\": \"{}\" }}", m.nonce);
    let e = open_secret(&KEY, &enc.aes_gcm_ciphertext, reformatted.as_bytes()).unwrap_err();
    assert!(matches!(e, VaultError::NonceDecryptError));
}

#[test]
fn wrong_key_fails_to_open() {
    let enc = seal_with_nonce(&KEY, b"wrapped", &NONCE, b"secret").unwrap();
    let other_key = [8u8; 32];
    let e = open_secret(&other_key, &enc.aes_gcm_ciphertext, enc.meta.as_bytes()).unwrap_err();
    assert!(matches!(e, VaultError::NonceDecryptError));
}

#[test]
fn short_key_is_rejected() {
    let e = seal_with_nonce(&[7u8; 16], b"wrapped", &NONCE, b"x").unwrap_err();
    assert!(matches!(e, VaultError::InvalidNonceLengthError));
    let enc = seal_with_nonce(&KEY, b"wrapped", &NONCE, b"x").unwrap();
    let e = open_secret(&[7u8; 16], &enc.aes_gcm_ciphertext, enc.meta.as_bytes()).unwrap_err();
    assert!(matches!(e, VaultError::InvalidNonceLengthError));
}

#[test]
fn unparsable_meta_reports_meta_error() {
    let enc = seal_with_nonce(&KEY, b"wrapped", &NONCE, b"x").unwrap();
    let e = open_secret(&KEY, &enc.aes_gcm_ciphertext, b"{{{").unwrap_err();
    assert!(matches!(e, VaultError::EncryptObjectMetaToJsonError));
}

#[test]
fn non_base64_nonce_reports_parse_error() {
    let enc = seal_with_nonce(&KEY, b"wrapped", &NONCE, b"x").unwrap();
    let bad = b"{\"alg\":\"AESGCM\",\"nonce\":\"!!!\"}";
    let e = open_secret(&KEY, &enc.aes_gcm_ciphertext, bad).unwrap_err();
    assert!(matches!(e, VaultError::NonceParseError));
}

#[test]
fn short_nonce_reports_length_error() {
    let enc = seal_with_nonce(&KEY, b"wrapped", &NONCE, b"x").unwrap();
    // "AAAA" decodes to three bytes, not twelve.
    let bad = b"{\"alg\":\"AESGCM\",\"nonce\":\"AAAA\"}";
    let e = open_secret(&KEY, &enc.aes_gcm_ciphertext, bad).unwrap_err();
    assert!(matches!(e, VaultError::InvalidNonceLengthError));
}

#[test]
fn large_payload_single_seal() {
    let data = vec![0xabu8; 1 << 20];
    let enc = seal_with_nonce(&KEY, b"wrapped", &NONCE, &data).unwrap();
    assert_eq!(enc.aes_gcm_ciphertext.len(), data.len() + 16);
    let v = open_secret(&KEY, &enc.aes_gcm_ciphertext, enc.meta.as_bytes()).unwrap();
    assert_eq!(v.as_bytes(), data.as_slice());
}
