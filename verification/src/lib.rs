//! A typed client for a network fabric controller's REST management API.
//!
//! The client authenticates a session against the controller, executes
//! read and write requests against the managed-object tree, and decodes
//! the controller's JSON response envelopes into typed records. Sending a
//! prepared request is abstracted behind the [`Executor`] trait, so a
//! deterministic, fixture-backed executor can stand in for the network.

use vstd::prelude::*;
use vstd::string::*;

mod envelope;
mod json;
pub mod mapper;
mod parse;
mod ser;
pub mod structs;

pub use envelope::decode_login;
pub use envelope::decode_read;
pub use envelope::decode_write;
pub use envelope::first_of;
pub use envelope::login_token;
pub use envelope::spec_first;
pub use envelope::spec_imdata;
pub use envelope::spec_login_token;
pub use json::Json;
pub use json::JsonValue;
pub use json::jget;
pub use json::member_models_of;
pub use json::models_of;
pub use json::obj_get;
pub use mapper::GetValue;
pub use mapper::MacroError;
pub use mapper::Mapper;
pub use parse::parsed_json;
pub use ser::json_text;
pub use ser::to_json_string;

use crate::json::lemma_obj_models;
use crate::json::obj_get_from;
use crate::parse::parse_json;
use crate::structs::Tenant;
use crate::structs::tenants_from_imdata;

verus! {

broadcast use vstd::std_specs::vec::group_vec_axioms, vstd::seq::group_seq_axioms;

/// What an operation of the client can fail with. Every failure is returned
/// to the caller; none is retried and none aborts the process.
#[derive(Debug, PartialEq, Eq)]
pub enum AciError {
    /// The login response carried no usable session token.
    LoginError,
    /// A read response carried no `imdata` envelope, or did not parse.
    GetError,
    /// A write acknowledgment carried no `imdata` envelope, or did not parse.
    PostError,
    /// A caller-supplied write body was not valid JSON.
    InvalidJson,
    /// The transport failed to deliver the request; the message is passed
    /// through untouched.
    Transport(String),
}

/// The HTTP method of a prepared request.
#[derive(Debug, Clone, Copy, PartialEq, Eq, Structural)]
pub enum HttpMethod {
    Get,
    Post,
}

/// A prepared request: method, absolute URL, the session token to attach,
/// and an optional JSON body.
#[derive(Debug)]
pub struct HttpRequest {
    pub method: HttpMethod,
    pub url: String,
    pub token: String,
    pub body: Option<String>,
}

/// A response as the transport hands it back: a status code and a body
/// expected to decode as JSON.
#[derive(Debug)]
pub struct HttpResponse {
    pub status: u16,
    pub body: String,
}

/// The capability to send a prepared request and hand back a response or a
/// transport error. The production implementation wraps a real HTTPS
/// client; a test implementation resolves requests against fixtures. The
/// client promises nothing of what an implementation returns: every
/// response is decoded defensively.
pub trait Executor {
    fn execute_request(&self, request: HttpRequest) -> Result<HttpResponse, String>;
}

/// A client session against one controller: its address, the credentials,
/// and the bearer token of the current login.
pub struct ACI<E: Executor> {
    executor: E,
    server: String,
    username: String,
    password: String,
    token: String,
}

/// The absolute URL for a request path against a controller.
fn build_url(server: &String, uri: &str) -> (r: String)
    ensures
        r@ == "https://"@ + server@ + "/api/"@ + uri@,
{
    let mut url = String::new();
    url.append("https://");
    url.append(server.as_str());
    url.append("/api/");
    url.append(uri);
    proof {
        assert(url@ =~= "https://"@ + server@ + "/api/"@ + uri@);
    }
    url
}

/// Appends one member to an object under construction.
fn push_member(m: &mut Vec<(String, JsonValue)>, name: &str, v: JsonValue)
    ensures
        member_models_of(final(m)@) == member_models_of(old(m)@).push((name@, v@)),
{
    m.push((String::from_str(name), v));
    proof {
        lemma_obj_models(old(m)@, old(m)@.len() as int);
        lemma_obj_models(m@, m@.len() as int);
        assert(member_models_of(m@) =~= member_models_of(old(m)@).push((name@, v@)));
    }
}

/// Appends one string-valued member to an object under construction.
fn push_str_member(m: &mut Vec<(String, JsonValue)>, name: &str, value: &str)
    ensures
        member_models_of(final(m)@) == member_models_of(old(m)@).push(
            (name@, Json::Str(value@)),
        ),
{
    push_member(m, name, JsonValue::Str(String::from_str(value)));
}

/// The login request document for the given credentials.
pub open spec fn spec_login_doc(username: Seq<char>, password: Seq<char>) -> Json {
    Json::Obj(
        seq![
            (
                "aaaUser"@,
                Json::Obj(
                    seq![
                        (
                            "attributes"@,
                            Json::Obj(
                                seq![
                                    ("name"@, Json::Str(username)),
                                    ("pwd"@, Json::Str(password)),
                                ],
                            ),
                        ),
                    ],
                ),
            ),
        ],
    )
}

/// Builds the login request document.
fn login_doc(username: &String, password: &String) -> (r: JsonValue)
    ensures
        r@ == spec_login_doc(username@, password@),
{
    let mut attrs: Vec<(String, JsonValue)> = Vec::new();
    assert(member_models_of(attrs@) =~= Seq::<(Seq<char>, Json)>::empty());
    push_member(&mut attrs, "name", JsonValue::Str(username.clone()));
    assert(member_models_of(attrs@) =~= seq![("name"@, Json::Str(username@))]);
    push_member(&mut attrs, "pwd", JsonValue::Str(password.clone()));
    assert(member_models_of(attrs@) =~= seq![
        ("name"@, Json::Str(username@)),
        ("pwd"@, Json::Str(password@)),
    ]);
    let mut inner: Vec<(String, JsonValue)> = Vec::new();
    push_member(&mut inner, "attributes", JsonValue::Object(attrs));
    assert(member_models_of(inner@) =~~= seq![
        (
            "attributes"@,
            Json::Obj(seq![("name"@, Json::Str(username@)), ("pwd"@, Json::Str(password@))]),
        ),
    ]);
    let mut outer: Vec<(String, JsonValue)> = Vec::new();
    push_member(&mut outer, "aaaUser", JsonValue::Object(inner));
    let r = JsonValue::Object(outer);
    proof {
        assert(r@ =~~= spec_login_doc(username@, password@));
    }
    r
}

/// The model of an optional string argument.
pub open spec fn opt_text(o: Option<String>) -> Option<Seq<char>> {
    match o {
        Some(s) => Some(s@),
        None => None,
    }
}

/// The `descr` attribute of a snapshot document: the fixed tool prefix,
/// then the caller's description or the literal `Snapshot`.
pub open spec fn descr_text(description: Option<Seq<char>>) -> Seq<char> {
    "by rustyaci - "@ + match description {
        Some(d) => d,
        None => "Snapshot"@,
    }
}

/// The `targetDn` attribute of a snapshot document: the caller's target, or
/// empty for the whole fabric.
pub open spec fn target_text(dn: Option<Seq<char>>) -> Seq<char> {
    match dn {
        Some(d) => d,
        None => Seq::empty(),
    }
}

/// The attributes of a snapshot document, in order.
pub open spec fn spec_snapshot_attrs(
    description: Option<Seq<char>>,
    dn: Option<Seq<char>>,
) -> Seq<(Seq<char>, Json)> {
    seq![
        ("adminSt"@, Json::Str("triggered"@)),
        ("descr"@, Json::Str(descr_text(description))),
        ("dn"@, Json::Str("uni/fabric/configexp-rustyaci"@)),
        ("format"@, Json::Str("json"@)),
        ("includeSecureFields"@, Json::Str("yes"@)),
        ("maxSnapshotCount"@, Json::Str("global-limit"@)),
        ("name"@, Json::Str("rustyaci"@)),
        ("nameAlias"@, Json::Str(""@)),
        ("snapshot"@, Json::Str("yes"@)),
        ("targetDn"@, Json::Str(target_text(dn))),
    ]
}

/// The whole `configExportP` snapshot document.
pub open spec fn spec_snapshot_doc(
    description: Option<Seq<char>>,
    dn: Option<Seq<char>>,
) -> Json {
    Json::Obj(
        seq![
            (
                "configExportP"@,
                Json::Obj(seq![("attributes"@, Json::Obj(spec_snapshot_attrs(description, dn)))]),
            ),
        ],
    )
}

/// Builds the managed-object document that triggers a configuration export
/// of the fabric, exactly as [`spec_snapshot_doc`] describes it.
pub fn get_snapshot_data(description: Option<String>, dn: Option<String>) -> (r: JsonValue)
    ensures
        r@ == spec_snapshot_doc(opt_text(description), opt_text(dn)),
{
    let mut descr = String::from_str("by rustyaci - ");
    match &description {
        Some(d) => descr.append(d.as_str()),
        None => descr.append("Snapshot"),
    }
    let target = match dn {
        Some(d) => d,
        None => String::new(),
    };
    let mut attrs: Vec<(String, JsonValue)> = Vec::new();
    push_str_member(&mut attrs, "adminSt", "triggered");
    push_member(&mut attrs, "descr", JsonValue::Str(descr));
    push_str_member(&mut attrs, "dn", "uni/fabric/configexp-rustyaci");
    push_str_member(&mut attrs, "format", "json");
    push_str_member(&mut attrs, "includeSecureFields", "yes");
    push_str_member(&mut attrs, "maxSnapshotCount", "global-limit");
    push_str_member(&mut attrs, "name", "rustyaci");
    push_str_member(&mut attrs, "nameAlias", "");
    push_str_member(&mut attrs, "snapshot", "yes");
    push_member(&mut attrs, "targetDn", JsonValue::Str(target));
    let mut inner: Vec<(String, JsonValue)> = Vec::new();
    push_member(&mut inner, "attributes", JsonValue::Object(attrs));
    let mut outer: Vec<(String, JsonValue)> = Vec::new();
    push_member(&mut outer, "configExportP", JsonValue::Object(inner));
    let r = JsonValue::Object(outer);
    proof {
        assert(member_models_of(attrs@) =~~= spec_snapshot_attrs(
            opt_text(description),
            opt_text(dn),
        ));
        assert(r@ =~~= spec_snapshot_doc(opt_text(description), opt_text(dn)));
    }
    r
}

/// Two snapshot documents, whatever their arguments, agree on every
/// attribute other than `descr` and `targetDn`; `descr` is the tool prefix
/// followed by the description or `Snapshot`, and `targetDn` is the target
/// or empty.
pub proof fn lemma_snapshot_varies_only_in_descr_and_target(
    d1: Option<Seq<char>>,
    t1: Option<Seq<char>>,
    d2: Option<Seq<char>>,
    t2: Option<Seq<char>>,
)
    ensures
        forall|k: Seq<char>| k != "descr"@ && k != "targetDn"@ ==> obj_get(
            spec_snapshot_attrs(d1, t1),
            k,
        ) == obj_get(spec_snapshot_attrs(d2, t2), k),
        obj_get(spec_snapshot_attrs(d1, t1), "descr"@) == Some(Json::Str(descr_text(d1))),
        obj_get(spec_snapshot_attrs(d1, t1), "targetDn"@) == Some(Json::Str(target_text(t1))),
{
    reveal_strlit("adminSt");
    reveal_strlit("descr");
    reveal_strlit("dn");
    reveal_strlit("format");
    reveal_strlit("includeSecureFields");
    reveal_strlit("maxSnapshotCount");
    reveal_strlit("name");
    reveal_strlit("nameAlias");
    reveal_strlit("snapshot");
    reveal_strlit("targetDn");
    let a1 = spec_snapshot_attrs(d1, t1);
    let a2 = spec_snapshot_attrs(d2, t2);
    assert forall|k: Seq<char>| k != "descr"@ && k != "targetDn"@ implies obj_get(a1, k)
        == obj_get(a2, k) by {
        reveal_with_fuel(obj_get_from, 12);
    }
    reveal_with_fuel(obj_get_from, 12);
    // Walking to `descr` and `targetDn` needs the other keys to be visibly
    // different from them; lengths settle all pairs but snapshot/targetDn,
    // which differ in their first character.
    assert("adminSt"@.len() == 7);
    assert("descr"@.len() == 5);
    assert("dn"@.len() == 2);
    assert("format"@.len() == 6);
    assert("includeSecureFields"@.len() == 19);
    assert("maxSnapshotCount"@.len() == 16);
    assert("name"@.len() == 4);
    assert("nameAlias"@.len() == 9);
    assert("snapshot"@.len() == 8);
    assert("targetDn"@.len() == 8);
    assert("snapshot"@[0] == 's' && "targetDn"@[0] == 't');
    assert("snapshot"@ != "targetDn"@);
    assert(obj_get_from(a1, "descr"@, 1) == Some(Json::Str(descr_text(d1))));
    assert(obj_get(a1, "descr"@) == Some(Json::Str(descr_text(d1))));
    assert(obj_get_from(a1, "targetDn"@, 9) == Some(Json::Str(target_text(t1))));
    assert(obj_get(a1, "targetDn"@) == Some(Json::Str(target_text(t1))));
}

impl<E: Executor> ACI<E> {
    /// The controller address this session speaks to.
    pub closed spec fn spec_server(&self) -> Seq<char> {
        self.server@
    }

    /// The user this session authenticates as.
    pub closed spec fn spec_username(&self) -> Seq<char> {
        self.username@
    }

    /// The password this session authenticates with.
    pub closed spec fn spec_password(&self) -> Seq<char> {
        self.password@
    }

    /// The bearer token of the current login; empty before the first
    /// successful login, nonempty after.
    pub closed spec fn spec_token(&self) -> Seq<char> {
        self.token@
    }

    /// Builds a session and logs it in. Construction is fail-fast: when the
    /// login fails, no client is returned at all.
    pub fn new_with_executor(
        executor: E,
        server: String,
        username: String,
        password: String,
    ) -> (r: Result<Self, AciError>)
        ensures
            match r {
                Ok(aci) => aci.spec_server() == server@ && aci.spec_username() == username@
                    && aci.spec_password() == password@ && aci.spec_token().len() > 0,
                Err(e) => e == AciError::LoginError || e matches AciError::Transport(_),
            },
    {
        let mut aci = ACI { executor, server, username, password, token: String::new() };
        match aci.login() {
            Ok(()) => Ok(aci),
            Err(e) => Err(e),
        }
    }

    /// Posts the login document and stores the session token the controller
    /// answers with. The token is written here and nowhere else; a response
    /// without a usable token leaves it untouched and fails with
    /// `LoginError`.
    fn login(&mut self) -> (r: Result<(), AciError>)
        ensures
            final(self).spec_server() == old(self).spec_server(),
            final(self).spec_username() == old(self).spec_username(),
            final(self).spec_password() == old(self).spec_password(),
            r is Ok ==> final(self).spec_token().len() > 0,
            r matches Err(e) ==> (e == AciError::LoginError || e matches AciError::Transport(_))
                && final(self).spec_token() == old(self).spec_token(),
    {
        let url = build_url(&self.server, "aaaLogin.json");
        let doc = login_doc(&self.username, &self.password);
        let request = HttpRequest {
            method: HttpMethod::Post,
            url,
            token: self.token.clone(),
            body: Some(to_json_string(&doc)),
        };
        let response = match self.executor.execute_request(request) {
            Ok(response) => response,
            Err(message) => {
                return Err(AciError::Transport(message));
            },
        };
        match decode_login(response.body.as_str()) {
            Ok(token) => {
                self.token = token;
                Ok(())
            },
            Err(e) => Err(e),
        }
    }

    /// Reads `https://{server}/api/{uri}` and returns the value of the
    /// response's `imdata` key verbatim; what that value holds is the
    /// caller's to decode further.
    pub fn get_json(&self, uri: String) -> (r: Result<JsonValue, AciError>)
        ensures
            r matches Err(e) ==> e == AciError::GetError || e matches AciError::Transport(_),
    {
        let url = build_url(&self.server, uri.as_str());
        let request = HttpRequest {
            method: HttpMethod::Get,
            url,
            token: self.token.clone(),
            body: None,
        };
        match self.executor.execute_request(request) {
            Ok(response) => decode_read(response.body.as_str()),
            Err(message) => Err(AciError::Transport(message)),
        }
    }

    /// Posts a document to `https://{server}/api/{uri}`. The document must
    /// be valid JSON text — anything else is the caller's error, distinct
    /// from a failed write — and the write counts as processed exactly when
    /// the acknowledgment carries `imdata`.
    pub fn post_json(&self, uri: String, data: String) -> (r: Result<(), AciError>)
        ensures
            parsed_json(data@) is None <==> r == Err::<(), AciError>(AciError::InvalidJson),
            r matches Err(e) ==> e == AciError::InvalidJson || e == AciError::PostError
                || e matches AciError::Transport(_),
    {
        let doc = match parse_json(data.as_str()) {
            Some(doc) => doc,
            None => {
                return Err(AciError::InvalidJson);
            },
        };
        self.post_doc(uri, &doc)
    }

    /// Posts an already-built document.
    fn post_doc(&self, uri: String, doc: &JsonValue) -> (r: Result<(), AciError>)
        ensures
            r matches Err(e) ==> e == AciError::PostError || e matches AciError::Transport(_),
    {
        let url = build_url(&self.server, uri.as_str());
        let request = HttpRequest {
            method: HttpMethod::Post,
            url,
            token: self.token.clone(),
            body: Some(to_json_string(doc)),
        };
        match self.executor.execute_request(request) {
            Ok(response) => decode_write(response.body.as_str()),
            Err(message) => Err(AciError::Transport(message)),
        }
    }

    /// Triggers a configuration export of the fabric by posting the
    /// snapshot document to the generic managed-object endpoint.
    pub fn snapshot(&self, description: Option<String>, dn: Option<String>) -> (r: Result<
        (),
        AciError,
    >)
        ensures
            r matches Err(e) ==> e == AciError::PostError || e matches AciError::Transport(_),
    {
        let json = get_snapshot_data(description, dn);
        self.post_doc(String::from_str("mo.json"), &json)
    }

    /// The session token of the current login.
    pub fn get_token(&self) -> (r: &String)
        ensures
            r@ == self.spec_token(),
    {
        &self.token
    }

    /// Reads every tenant of the fabric and decodes the response into typed
    /// records.
    pub fn get_tenants(&self) -> (r: Result<Vec<Tenant>, AciError>)
        ensures
            r matches Err(e) ==> e == AciError::GetError || e matches AciError::Transport(_),
    {
        match self.get_json(String::from_str("class/fvTenant.json")) {
            Ok(data) => tenants_from_imdata(&data),
            Err(e) => Err(e),
        }
    }
}

} // verus!
