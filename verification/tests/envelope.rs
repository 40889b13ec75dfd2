use rustyaci::decode_login;
use rustyaci::decode_read;
use rustyaci::decode_write;
use rustyaci::AciError;
use rustyaci::JsonValue;

#[test]
fn decode_login_extracts_the_token() {
    let body = r#"{"imdata":[{"aaaLogin":{"attributes":{"token":"TOKEN"}}}]}"#;
    assert_eq!(decode_login(body).unwrap().as_str(), "TOKEN");
}

#[test]
fn decode_login_rejects_a_missing_token() {
    let body = r#"{"imdata":[{"aaaLogin":{"attributes":{}}}]}"#;
    assert!(matches!(decode_login(body), Err(AciError::LoginError)));
}

#[test]
fn decode_login_rejects_a_non_string_token() {
    let body = r#"{"imdata":[{"aaaLogin":{"attributes":{"token":7}}}]}"#;
    assert!(matches!(decode_login(body), Err(AciError::LoginError)));
}

#[test]
fn decode_login_rejects_an_empty_token() {
    let body = r#"{"imdata":[{"aaaLogin":{"attributes":{"token":""}}}]}"#;
    assert!(matches!(decode_login(body), Err(AciError::LoginError)));
}

#[test]
fn decode_login_rejects_an_empty_envelope() {
    let body = r#"{"imdata":[]}"#;
    assert!(matches!(decode_login(body), Err(AciError::LoginError)));
}

#[test]
fn decode_read_returns_imdata_verbatim() {
    let body = r#"{"totalCount":"1","imdata":[{"x":{"attributes":{"n":3}}}]}"#;
    let data = decode_read(body).unwrap();
    let expected = JsonValue::Array(vec![JsonValue::Object(vec![(
        String::from("x"),
        JsonValue::Object(vec![(
            String::from("attributes"),
            JsonValue::Object(vec![(String::from("n"), JsonValue::UInt(3))]),
        )]),
    )])]);
    assert_eq!(data, expected);
}

#[test]
fn decode_read_without_imdata_fails() {
    assert!(matches!(decode_read(r#"{"totalCount":"0"}"#), Err(AciError::GetError)));
    assert!(matches!(decode_read("not json"), Err(AciError::GetError)));
}

#[test]
fn decode_write_checks_only_the_envelope_key() {
    assert!(decode_write(r#"{"imdata":[]}"#).is_ok());
    assert!(decode_write(r#"{"imdata":{"anything":"goes"}}"#).is_ok());
    assert!(matches!(decode_write(r#"{"status":"ok"}"#), Err(AciError::PostError)));
    assert!(matches!(decode_write("not json"), Err(AciError::PostError)));
}
