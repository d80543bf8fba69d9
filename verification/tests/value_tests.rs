use nitor_vault::Value;

#[test]
fn value_utf8_round_trip() {
    let v = Value::from("hello".as_bytes());
    assert!(matches!(&v, Value::Utf8(s) if s == "hello"));
    assert_eq!(v.as_bytes(), "hello".as_bytes());
}

#[test]
fn value_binary_identity() {
    let bytes = vec![0x00u8, 0xff, 0xfe, 0x80];
    let v = Value::new(bytes.clone());
    assert!(matches!(&v, Value::Binary(b) if *b == bytes));
    assert_eq!(v.as_bytes(), bytes.as_slice());
}

#[test]
fn value_empty_is_utf8() {
    let v = Value::new(Vec::new());
    assert!(matches!(&v, Value::Utf8(s) if s.is_empty()));
    assert_eq!(v.as_bytes(), b"");
}

#[test]
fn value_base64_round_trip() {
    let bytes = vec![0x00u8, 0xff, 0xfe, 0x80];
    let encoded = Value::Binary(bytes.clone()).encode_base64();
    assert!(matches!(&encoded, Value::Utf8(s) if s == "AP/+gA=="));
    let decoded = encoded.decode_base64();
    assert_eq!(decoded.as_bytes(), bytes.as_slice());
    assert!(matches!(decoded, Value::Binary(_)));
}

#[test]
fn value_encode_base64_keeps_text() {
    let v = Value::Utf8("plain".to_string()).encode_base64();
    assert!(matches!(&v, Value::Utf8(s) if s == "plain"));
}

#[test]
fn value_decode_base64_keeps_non_base64_text() {
    let v = Value::Utf8("not base64!!".to_string()).decode_base64();
    assert!(matches!(&v, Value::Utf8(s) if s == "not base64!!"));
}

#[test]
fn value_from_possibly_base64_encoded_decodes_utf8() {
    let v = Value::from_possibly_base64_encoded("aGVsbG8=".to_string());
    assert!(matches!(&v, Value::Utf8(s) if s == "hello"));
}

#[test]
fn value_display_string_renders_hex() {
    let v = Value::Binary(vec![0x00u8, 0x0f, 0xa5, 0xff]);
    assert_eq!(v.display_string(), "000fa5ff");
    let v = Value::Utf8("plain text".to_string());
    assert_eq!(v.display_string(), "plain text");
}

#[test]
fn value_from_possibly_base64_encoded_decodes_binary() {
    let v = Value::from_possibly_base64_encoded("AP/+gA==".to_string());
    assert!(matches!(&v, Value::Binary(b) if *b == vec![0x00u8, 0xff, 0xfe, 0x80]));
}
