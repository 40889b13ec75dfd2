//! The controller's response envelope.
//!
//! Every well-formed response is a JSON object carrying the key `imdata`;
//! its absence is itself an error. The login response additionally carries,
//! as the first element of `imdata`, an `aaaLogin` class wrapper whose
//! `attributes.token` member is the session token.

use vstd::prelude::*;
use vstd::string::*;
use crate::json::Json;
use crate::json::JsonValue;
use crate::json::jget;
use crate::json::models_of;
use crate::json::lemma_arr_models;
use crate::parse::parsed_json;
use crate::parse::parse_json;
use crate::AciError;

verus! {

broadcast use vstd::std_specs::vec::group_vec_axioms, vstd::seq::group_seq_axioms;

/// The value of the envelope key `imdata`, when the response carries it.
pub open spec fn spec_imdata(j: Json) -> Option<Json> {
    jget(j, "imdata"@)
}

/// The first element of `j`, when `j` is a nonempty array.
pub open spec fn spec_first(j: Json) -> Option<Json> {
    match j {
        Json::Arr(a) => if a.len() > 0 {
            Some(a[0])
        } else {
            None
        },
        _ => None,
    }
}

/// The session token carried by a login response: the member
/// `imdata[0].aaaLogin.attributes.token`, provided it is a nonempty JSON
/// string. A response whose token is absent, null, not a string, or empty
/// yields no token — an empty bearer token is no credential.
pub open spec fn spec_login_token(j: Json) -> Option<Seq<char>> {
    match spec_imdata(j) {
        Some(d) => match spec_first(d) {
            Some(w) => match jget(w, "aaaLogin"@) {
                Some(l) => match jget(l, "attributes"@) {
                    Some(at) => match jget(at, "token"@) {
                        Some(t) => match t {
                            Json::Str(s) => if s.len() > 0 {
                                Some(s)
                            } else {
                                None
                            },
                            _ => None,
                        },
                        None => None,
                    },
                    None => None,
                },
                None => None,
            },
            None => None,
        },
        None => None,
    }
}

/// The first element of `v`, when `v` is a nonempty array.
pub fn first_of<'a>(v: &'a JsonValue) -> (r: Option<&'a JsonValue>)
    ensures
        match r {
            Some(x) => spec_first(v@) == Some(x@),
            None => spec_first(v@) is None,
        },
{
    match v.as_array() {
        Some(a) => {
            if a.len() > 0 {
                proof {
                    lemma_arr_models(a@, a@.len() as int);
                }
                Some(&a[0])
            } else {
                None
            }
        },
        None => None,
    }
}

/// The session token of a login response document, as
/// [`spec_login_token`] describes it.
pub fn login_token(v: &JsonValue) -> (r: Option<String>)
    ensures
        match r {
            Some(t) => spec_login_token(v@) == Some(t@) && t@.len() > 0,
            None => spec_login_token(v@) is None,
        },
{
    let d = match v.get("imdata") {
        Some(d) => d,
        None => {
            return None;
        },
    };
    let w = match first_of(d) {
        Some(w) => w,
        None => {
            return None;
        },
    };
    let l = match w.get("aaaLogin") {
        Some(l) => l,
        None => {
            return None;
        },
    };
    let at = match l.get("attributes") {
        Some(at) => at,
        None => {
            return None;
        },
    };
    let t = match at.get("token") {
        Some(t) => t,
        None => {
            return None;
        },
    };
    match t.as_str() {
        Some(s) => {
            if s.as_str().unicode_len() > 0 {
                Some(s.clone())
            } else {
                None
            }
        },
        None => None,
    }
}

/// Decodes a login response body: the session token it carries, or
/// `LoginError` when the body does not parse or carries none.
pub fn decode_login(body: &str) -> (r: Result<String, AciError>)
    ensures
        match parsed_json(body@) {
            Some(v) => match spec_login_token(v@) {
                Some(t) => r matches Ok(s) && s@ == t && t.len() > 0,
                None => r == Err::<String, AciError>(AciError::LoginError),
            },
            None => r == Err::<String, AciError>(AciError::LoginError),
        },
{
    match parse_json(body) {
        Some(v) => match login_token(&v) {
            Some(t) => Ok(t),
            None => Err(AciError::LoginError),
        },
        None => Err(AciError::LoginError),
    }
}

/// Decodes a read response body: the value of its `imdata` key, or
/// `GetError` when the body does not parse or carries no `imdata`.
pub fn decode_read(body: &str) -> (r: Result<JsonValue, AciError>)
    ensures
        match parsed_json(body@) {
            Some(v) => match spec_imdata(v@) {
                Some(d) => r matches Ok(x) && x@ == d,
                None => r == Err::<JsonValue, AciError>(AciError::GetError),
            },
            None => r == Err::<JsonValue, AciError>(AciError::GetError),
        },
{
    match parse_json(body) {
        Some(v) => match v.get("imdata") {
            Some(d) => Ok(d.duplicate()),
            None => Err(AciError::GetError),
        },
        None => Err(AciError::GetError),
    }
}

/// Decodes a write acknowledgment body: success exactly when the body
/// parses and carries the key `imdata`, `PostError` otherwise.
pub fn decode_write(body: &str) -> (r: Result<(), AciError>)
    ensures
        match parsed_json(body@) {
            Some(v) => if spec_imdata(v@) is Some {
                r is Ok
            } else {
                r == Err::<(), AciError>(AciError::PostError)
            },
            None => r == Err::<(), AciError>(AciError::PostError),
        },
{
    match parse_json(body) {
        Some(v) => match v.get("imdata") {
            Some(_) => Ok(()),
            None => Err(AciError::PostError),
        },
        None => Err(AciError::PostError),
    }
}

} // verus!
