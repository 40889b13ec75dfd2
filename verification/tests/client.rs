use rustyaci::AciError;
use rustyaci::Executor;
use rustyaci::HttpRequest;
use rustyaci::HttpResponse;
use rustyaci::ACI;

const LOGIN_BODY: &str = r#"{"imdata":[{"aaaLogin":{"attributes":{"token":"TOKEN"}}}]}"#;

const TENANTS_BODY: &str = r#"{"totalCount":"2","imdata":[
    {"fvTenant":{"attributes":{"dn":"uni/tn-infra","name":"infra"}}},
    {"fvTenant":{"attributes":{"dn":"uni/tn-common","name":"common"}}}
]}"#;

const MO_ACK_BODY: &str = r#"{"imdata":[]}"#;

const EPG_TEST_DOC: &str = r#"{
  "fvAEPg": {
    "attributes": {
      "dn": "uni/tn-TEST/ap-TEST/epg-TEST",
      "name": "TEST"
    }
  }
}"#;

const CONFIG_EXPORT_DOC: &str = r#"{
    "configExportP": {
        "attributes": {
            "adminSt": "triggered",
            "descr": "by rustyaci - Snapshot",
            "dn": "uni/fabric/configexp-rustyaci",
            "format": "json",
            "includeSecureFields": "yes",
            "maxSnapshotCount": "global-limit",
            "name": "rustyaci",
            "nameAlias": "",
            "snapshot": "yes",
            "targetDn": ""
        }
    }
}"#;

fn ok_response(body: &str) -> Result<HttpResponse, String> {
    Ok(HttpResponse { status: 200, body: body.to_string() })
}

/// Resolves requests against static fixtures by URL, and checks the exact
/// payload of writes, as a closed-world stand-in for a controller.
pub struct MockClient;

fn mo_request(request: HttpRequest) -> Result<HttpResponse, String> {
    let data = request.body.ok_or_else(|| "no body posted".to_string())?;
    let json_data: serde_json::Value =
        serde_json::from_str(&data).map_err(|e| e.to_string())?;
    let request_data = json_data.as_object().ok_or_else(|| "JSON is not an Object!".to_string())?;
    if request_data.keys().len() > 1 {
        return Err("More than one main key!".to_string());
    }
    let class = request_data.keys().next().ok_or_else(|| "empty document".to_string())?;
    match class.as_str() {
        "fvAEPg" => {
            let expected: serde_json::Value = serde_json::from_str(EPG_TEST_DOC).unwrap();
            assert_eq!(json_data, expected);
            ok_response(MO_ACK_BODY)
        }
        "configExportP" => {
            let expected: serde_json::Value = serde_json::from_str(CONFIG_EXPORT_DOC).unwrap();
            assert_eq!(json_data, expected);
            ok_response(MO_ACK_BODY)
        }
        _ => Err("Class not supported by mock client".to_string()),
    }
}

impl Executor for MockClient {
    fn execute_request(&self, request: HttpRequest) -> Result<HttpResponse, String> {
        match request.url.as_str() {
            "https://SERVER/api/aaaLogin.json" => ok_response(LOGIN_BODY),
            "https://SERVER/api/class/fvTenant.json" => ok_response(TENANTS_BODY),
            "https://SERVER/api/class/empty.json" => ok_response("{}"),
            "https://SERVER/api/mo.json" => mo_request(request),
            _ => Err("not supported in MockClient!".to_string()),
        }
    }
}

fn login() -> ACI<MockClient> {
    let executor = MockClient;
    let server = String::from("SERVER");
    let username = String::from("USERNAME");
    let password = String::from("PASSWORD");
    let aci = ACI::new_with_executor(executor, server, username, password);

    match aci {
        Ok(aci) => aci,
        Err(e) => panic!("{:?}", e),
    }
}

#[test]
fn aci_login() {
    let aci = login();

    assert_eq!("TOKEN", aci.get_token().as_str());
    assert_eq!("TOKEN", aci.get_token());
}

#[test]
#[should_panic]
fn get_invalid_json() {
    let aci = login();

    aci.get_json(String::from("this_is_nonsense")).unwrap();
}

#[test]
fn aci_get_json() {
    let aci = login();

    match aci.get_json(String::from("class/fvTenant.json")) {
        Ok(bds) => {
            let bd_array = bds
                .as_array()
                .unwrap()
                .iter()
                .map(|bd| {
                    bd.get("fvTenant")
                        .unwrap()
                        .get("attributes")
                        .unwrap()
                        .get("name")
                        .unwrap()
                        .as_str()
                        .unwrap()
                        .as_str()
                })
                .collect::<Vec<_>>();
            assert_eq!(bd_array, vec!["infra", "common"]);
            assert_ne!(bd_array, vec!["infra", "common", "test"])
        }
        Err(e) => panic!("{:?}", e),
    }
}

#[test]
fn aci_post_json() {
    let aci = login();
    let data = EPG_TEST_DOC.to_string();

    match aci.post_json(String::from("mo.json"), data) {
        Ok(()) => (),
        Err(e) => panic!("{:?}", e),
    }
}

#[test]
fn aci_post_json_inline_data() {
    let aci = login();
    let data = r#"
        {
  "fvAEPg": {
    "attributes": {
      "dn": "uni/tn-TEST/ap-TEST/epg-TEST",
      "name": "TEST"
    }
  }
}
        "#;

    match aci.post_json(String::from("mo.json"), String::from(data)) {
        Ok(()) => (),
        Err(e) => panic!("{:?}", e),
    }
}

#[test]
fn test_aci_snapshot() {
    let aci = login();
    match aci.snapshot(None, None) {
        Ok(()) => (),
        Err(e) => panic!("{:?}", e),
    }
}

#[test]
fn aci_post_json_invalid_body_is_caller_error() {
    let aci = login();

    let result = aci.post_json(String::from("mo.json"), String::from("this is not json"));
    assert!(matches!(result, Err(AciError::InvalidJson)));
}

#[test]
fn aci_get_json_without_imdata_fails() {
    let aci = login();

    let result = aci.get_json(String::from("class/empty.json"));
    assert!(matches!(result, Err(AciError::GetError)));
}

#[test]
fn aci_get_tenants() {
    let aci = login();

    let tenants = match aci.get_tenants() {
        Ok(tenants) => tenants,
        Err(e) => panic!("{:?}", e),
    };
    assert_eq!(tenants.len(), 2);
    assert_eq!(tenants[0].dn.as_str(), "uni/tn-infra");
    assert_eq!(tenants[0].name.as_str(), "infra");
    assert_eq!(tenants[1].dn.as_str(), "uni/tn-common");
    assert_eq!(tenants[1].name.as_str(), "common");
}

/// Answers the login request with a fixture whose token is JSON `null`.
pub struct NullTokenClient;

impl Executor for NullTokenClient {
    fn execute_request(&self, request: HttpRequest) -> Result<HttpResponse, String> {
        match request.url.as_str() {
            "https://SERVER/api/aaaLogin.json" => {
                ok_response(r#"{"imdata":[{"aaaLogin":{"attributes":{"token":null}}}]}"#)
            }
            _ => Err("not supported in NullTokenClient!".to_string()),
        }
    }
}

#[test]
fn aci_login_null_token_fails() {
    let aci = ACI::new_with_executor(
        NullTokenClient,
        String::from("SERVER"),
        String::from("USERNAME"),
        String::from("PASSWORD"),
    );
    assert!(matches!(aci, Err(AciError::LoginError)));
}
