use rustyaci::mapper::FieldDecl;
use rustyaci::mapper::FieldKind;
use rustyaci::mapper::FieldValue;
use rustyaci::mapper::Mapper;
use rustyaci::mapper::Tenant;
use rustyaci::MacroError;
use rustyaci::JsonValue;

/// Builds a [`JsonValue`] from JSON text, through `serde_json`; numbers in
/// these fixtures are unsigned integers.
fn json_value(text: &str) -> JsonValue {
    convert(&serde_json::from_str::<serde_json::Value>(text).unwrap())
}

fn convert(v: &serde_json::Value) -> JsonValue {
    match v {
        serde_json::Value::Null => JsonValue::Null,
        serde_json::Value::Bool(b) => JsonValue::Bool(*b),
        serde_json::Value::Number(n) => JsonValue::UInt(n.as_u64().unwrap()),
        serde_json::Value::String(s) => JsonValue::Str(s.clone()),
        serde_json::Value::Array(a) => JsonValue::Array(a.iter().map(convert).collect()),
        serde_json::Value::Object(m) => {
            JsonValue::Object(m.iter().map(|(k, x)| (k.clone(), convert(x))).collect())
        }
    }
}

const TENANT_DOC: &str = r#"
    {
        "fvTenant": {
            "attributes": {
                "name": "TenantName",
                "bytes": 500
            }
        }
    }"#;

#[test]
fn macro_tenant_test() {
    let tenant: Tenant = Tenant::from_json(&json_value(TENANT_DOC)).expect("Failed to deserialize");
    assert_eq!(tenant.name, "TenantName");
    assert_eq!(tenant.bytes, 500);
}

#[test]
fn tenant_missing_bytes_reports_the_field() {
    let doc = json_value(r#"{"fvTenant":{"attributes":{"name":"TenantName"}}}"#);
    match Tenant::from_json(&doc) {
        Ok(_) => panic!("decode must fail without bytes"),
        Err(MacroError::MissingField(f)) => assert_eq!(f.as_str(), "bytes"),
    }
}

#[test]
fn tenant_mistyped_name_reports_the_field() {
    let doc = json_value(r#"{"fvTenant":{"attributes":{"name":7,"bytes":500}}}"#);
    match Tenant::from_json(&doc) {
        Ok(_) => panic!("decode must fail on a non-string name"),
        Err(MacroError::MissingField(f)) => assert_eq!(f.as_str(), "name"),
    }
}

fn tenant_mapper() -> Mapper {
    Mapper {
        class_name: String::from("fvTenant"),
        fields: vec![
            FieldDecl { name: String::from("name"), kind: FieldKind::Str },
            FieldDecl { name: String::from("bytes"), kind: FieldKind::UInt },
        ],
    }
}

#[test]
fn mapper_decodes_declared_fields_in_order() {
    let decoded = tenant_mapper().decode(&json_value(TENANT_DOC)).unwrap();
    assert_eq!(
        decoded,
        vec![FieldValue::Str(String::from("TenantName")), FieldValue::UInt(500)]
    );
}

#[test]
fn mapper_fails_on_first_missing_field() {
    let doc = json_value(r#"{"fvTenant":{"attributes":{"bytes":500}}}"#);
    match tenant_mapper().decode(&doc) {
        Ok(_) => panic!("decode must fail without name"),
        Err(MacroError::MissingField(f)) => assert_eq!(f.as_str(), "name"),
    }
}

#[test]
fn mapper_fails_whole_decode_when_wrapper_is_absent() {
    let doc = json_value(r#"{"other":{"attributes":{"name":"x","bytes":1}}}"#);
    match tenant_mapper().decode(&doc) {
        Ok(_) => panic!("decode must fail without the class wrapper"),
        Err(MacroError::MissingField(f)) => assert_eq!(f.as_str(), "name"),
    }
}
