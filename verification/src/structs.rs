//! Typed decoding of the tenant class.
//!
//! A tenant read returns an `imdata` array of `fvTenant` class wrappers;
//! each wrapper's attributes carry the tenant's distinguished name and its
//! name. Decoding the array either yields every tenant or fails on the
//! first wrapper that does not carry both fields as strings.

use vstd::prelude::*;
use crate::AciError;
use crate::json::Json;
use crate::json::JsonValue;
use crate::json::jget;
use crate::json::lemma_arr_models;
use crate::mapper::spec_str_field;
use crate::mapper::GetValue;
use crate::mapper::MacroError;

verus! {

broadcast use vstd::std_specs::vec::group_vec_axioms, vstd::seq::group_seq_axioms;

/// One tenant of the fabric: its distinguished name and its name.
#[derive(Debug, Clone)]
pub struct Tenant {
    pub dn: String,
    pub name: String,
}

/// The tenant read from one `fvTenant` class wrapper: the `dn` and `name`
/// members of its attributes, both required to be strings.
pub open spec fn spec_tenant(j: Json) -> Option<(Seq<char>, Seq<char>)> {
    match jget(j, "fvTenant"@) {
        Some(w) => match jget(w, "attributes"@) {
            Some(at) => match spec_str_field(at, "dn"@) {
                Some(dn) => match spec_str_field(at, "name"@) {
                    Some(name) => Some((dn, name)),
                    None => None,
                },
                None => None,
            },
            None => None,
        },
        None => None,
    }
}

/// The tenants read from the first `n` elements of an `imdata` array, or
/// nothing as soon as one element does not decode.
pub open spec fn spec_tenants(elems: Seq<Json>, n: int) -> Option<Seq<(Seq<char>, Seq<char>)>>
    decreases n,
{
    if n <= 0 {
        Some(Seq::empty())
    } else {
        match spec_tenants(elems, n - 1) {
            Some(ts) => match spec_tenant(elems[n - 1]) {
                Some(t) => Some(ts.push(t)),
                None => None,
            },
            None => None,
        }
    }
}

/// The tenants read from a whole `imdata` value, which must be an array.
pub open spec fn spec_tenants_of(j: Json) -> Option<Seq<(Seq<char>, Seq<char>)>> {
    match j {
        Json::Arr(elems) => spec_tenants(elems, elems.len() as int),
        _ => None,
    }
}

/// The models of a sequence of tenants.
pub open spec fn tenant_views(ts: Seq<Tenant>) -> Seq<(Seq<char>, Seq<char>)> {
    Seq::new(ts.len(), |i: int| (ts[i].dn@, ts[i].name@))
}

proof fn lemma_spec_tenants_none(elems: Seq<Json>, i: int, n: int)
    requires
        0 <= i < n,
        spec_tenant(elems[i]) is None,
    ensures
        spec_tenants(elems, n) is None,
    decreases n,
{
    if n > i + 1 {
        lemma_spec_tenants_none(elems, i, n - 1);
    }
}

/// Decodes one `fvTenant` class wrapper.
pub fn tenant_of(v: &JsonValue) -> (r: Option<Tenant>)
    ensures
        match r {
            Some(t) => spec_tenant(v@) == Some((t.dn@, t.name@)),
            None => spec_tenant(v@) is None,
        },
{
    let w = match v.get("fvTenant") {
        Some(w) => w,
        None => {
            return None;
        },
    };
    let at = match w.get("attributes") {
        Some(at) => at,
        None => {
            return None;
        },
    };
    let dn = match <String as GetValue>::get_value(at, "dn") {
        Ok(dn) => dn,
        Err(_) => {
            return None;
        },
    };
    let name = match <String as GetValue>::get_value(at, "name") {
        Ok(name) => name,
        Err(_) => {
            return None;
        },
    };
    Some(Tenant { dn, name })
}

/// Decodes an `imdata` array of `fvTenant` class wrappers into tenants, in
/// order; a value that is no array, or any wrapper that does not decode,
/// fails the read.
pub fn tenants_from_imdata(v: &JsonValue) -> (r: Result<Vec<Tenant>, AciError>)
    ensures
        match r {
            Ok(ts) => spec_tenants_of(v@) == Some(tenant_views(ts@)),
            Err(e) => e == AciError::GetError && spec_tenants_of(v@) is None,
        },
{
    let a = match v.as_array() {
        Some(a) => a,
        None => {
            return Err(AciError::GetError);
        },
    };
    let ghost elems = crate::json::models_of(a@);
    proof {
        lemma_arr_models(a@, a@.len() as int);
    }
    let mut out: Vec<Tenant> = Vec::new();
    let n = a.len();
    for i in 0..n
        invariant
            n == a@.len(),
            v@ == Json::Arr(elems),
            elems == crate::json::models_of(a@),
            elems.len() == a@.len(),
            forall|k: int| 0 <= k < a@.len() ==> elems[k] == a@[k]@,
            out@.len() == i,
            spec_tenants(elems, i as int) == Some(tenant_views(out@)),
    {
        match tenant_of(&a[i]) {
            Some(t) => {
                out.push(t);
                proof {
                    assert(tenant_views(out@) =~= tenant_views(out@.drop_last()).push(
                        (out@.last().dn@, out@.last().name@),
                    ));
                }
            },
            None => {
                proof {
                    lemma_spec_tenants_none(elems, i as int, n as int);
                }
                return Err(AciError::GetError);
            },
        }
    }
    Ok(out)
}

/// Decodes a whole read response document: its `imdata` array of tenant
/// wrappers, as [`tenants_from_imdata`] does; a response without `imdata`
/// fails the read.
pub fn tenants_from_response(v: &JsonValue) -> (r: Result<Vec<Tenant>, AciError>)
    ensures
        match jget(v@, "imdata"@) {
            Some(d) => match r {
                Ok(ts) => spec_tenants_of(d) == Some(tenant_views(ts@)),
                Err(e) => e == AciError::GetError && spec_tenants_of(d) is None,
            },
            None => r == Err::<Vec<Tenant>, AciError>(AciError::GetError),
        },
{
    match v.get("imdata") {
        Some(d) => tenants_from_imdata(d),
        None => Err(AciError::GetError),
    }
}

} // verus!
