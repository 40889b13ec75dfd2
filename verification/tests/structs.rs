use rustyaci::structs::tenants_from_response;
use rustyaci::AciError;
use rustyaci::JsonValue;

fn json_value(text: &str) -> JsonValue {
    convert(&serde_json::from_str::<serde_json::Value>(text).unwrap())
}

fn convert(v: &serde_json::Value) -> JsonValue {
    match v {
        serde_json::Value::Null => JsonValue::Null,
        serde_json::Value::Bool(b) => JsonValue::Bool(*b),
        serde_json::Value::Number(n) => JsonValue::UInt(n.as_u64().unwrap()),
        serde_json::Value::String(s) => JsonValue::Str(s.clone()),
        serde_json::Value::Array(a) => JsonValue::Array(a.iter().map(convert).collect()),
        serde_json::Value::Object(m) => {
            JsonValue::Object(m.iter().map(|(k, x)| (k.clone(), convert(x))).collect())
        }
    }
}

const DATA: &str = r#"{
    "totalCount": "7",
    "imdata": [
        {
            "fvTenant": {
                "attributes": {
                    "annotation": "",
                    "childAction": "",
                    "descr": "",
                    "dn": "uni/tn-t-COOP-SRV",
                    "extMngdBy": "",
                    "lcOwn": "local",
                    "modTs": "2023-04-12T07:56:13.076+01:00",
                    "monPolDn": "uni/tn-common/monepg-default",
                    "name": "t-COOP-SRV",
                    "nameAlias": "",
                    "ownerKey": "",
                    "ownerTag": "",
                    "status": "",
                    "uid": "15374",
                    "userdom": "all"
                }
            }
        },
        {
            "fvTenant": {
                "attributes": {
                    "annotation": "",
                    "childAction": "",
                    "descr": "",
                    "dn": "uni/tn-t-COOP-TEST",
                    "extMngdBy": "",
                    "lcOwn": "local",
                    "modTs": "2023-04-12T07:56:13.076+01:00",
                    "monPolDn": "uni/tn-common/monepg-default",
                    "name": "t-COOP-TEST",
                    "nameAlias": "",
                    "ownerKey": "",
                    "ownerTag": "",
                    "status": "",
                    "uid": "15374",
                    "userdom": "all"
                }
            }
        }
        ]}"#;

#[test]
fn parse() {
    let data = tenants_from_response(&json_value(DATA)).unwrap();
    for tenant in data {
        assert_ne!(tenant.dn, "")
    }
}

#[test]
fn parse_reads_both_tenants() {
    let data = tenants_from_response(&json_value(DATA)).unwrap();
    assert_eq!(data.len(), 2);
    assert_eq!(data[0].dn.as_str(), "uni/tn-t-COOP-SRV");
    assert_eq!(data[0].name.as_str(), "t-COOP-SRV");
    assert_eq!(data[1].dn.as_str(), "uni/tn-t-COOP-TEST");
    assert_eq!(data[1].name.as_str(), "t-COOP-TEST");
}

#[test]
fn parse_without_imdata_fails() {
    let result = tenants_from_response(&json_value(r#"{"totalCount":"0"}"#));
    assert!(matches!(result, Err(AciError::GetError)));
}

#[test]
fn parse_with_non_array_imdata_fails() {
    let result = tenants_from_response(&json_value(r#"{"imdata":5}"#));
    assert!(matches!(result, Err(AciError::GetError)));
}
