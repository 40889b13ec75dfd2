//! The JSON document model that the client's logic works on.
//!
//! The controller speaks JSON over HTTPS; every payload the client reads or
//! writes is held in [`JsonValue`]. Its mathematical model is the ghost type
//! [`Json`], which contracts throughout the crate speak of. Object members
//! are kept as an ordered list of key/value pairs; a key is found by the
//! first matching entry.

use vstd::prelude::*;
use vstd::string::*;

verus! {

broadcast use vstd::std_specs::vec::group_vec_axioms, vstd::seq::group_seq_axioms;

/// A JSON document, as the client models it.
///
/// Numbers are restricted to unsigned integers: the controller's object
/// attributes are strings or non-negative counts, and the typed decoders of
/// this crate extract nothing else.
#[derive(Debug, PartialEq, Eq)]
pub enum JsonValue {
    Null,
    Bool(bool),
    UInt(u64),
    Str(String),
    Array(Vec<JsonValue>),
    Object(Vec<(String, JsonValue)>),
}

/// The mathematical model of a [`JsonValue`].
#[verifier::ext_equal]
pub ghost enum Json {
    Null,
    Bool(bool),
    UInt(u64),
    Str(Seq<char>),
    Arr(Seq<Json>),
    Obj(Seq<(Seq<char>, Json)>),
}

/// The model of a single document node.
pub open spec fn model_of(v: &JsonValue) -> Json
    decreases v, 0int, 0int,
    via model_of_decreases
{
    match v {
        JsonValue::Null => Json::Null,
        JsonValue::Bool(b) => Json::Bool(*b),
        JsonValue::UInt(n) => Json::UInt(*n),
        JsonValue::Str(s) => Json::Str(s@),
        JsonValue::Array(a) => Json::Arr(arr_models(a@, a@.len() as int)),
        JsonValue::Object(m) => Json::Obj(obj_models(m@, m@.len() as int)),
    }
}

/// The models of the first `n` elements of an array.
pub open spec fn arr_models(a: Seq<JsonValue>, n: int) -> Seq<Json>
    decreases a, 1int, n,
    via arr_models_decreases
{
    if 0 < n <= a.len() {
        arr_models(a, n - 1).push(model_of(&a[n - 1]))
    } else {
        Seq::empty()
    }
}

/// The models of the first `n` members of an object.
pub open spec fn obj_models(m: Seq<(String, JsonValue)>, n: int) -> Seq<(Seq<char>, Json)>
    decreases m, 1int, n,
    via obj_models_decreases
{
    if 0 < n <= m.len() {
        obj_models(m, n - 1).push((m[n - 1].0@, model_of(&m[n - 1].1)))
    } else {
        Seq::empty()
    }
}

#[via_fn]
proof fn model_of_decreases(v: &JsonValue) {
    broadcast use vstd::std_specs::vec::group_vec_axioms;

    match v {
        JsonValue::Array(a) => {
            assert(decreases_to!(*a => a@));
        },
        JsonValue::Object(m) => {
            assert(decreases_to!(*m => m@));
        },
        _ => {},
    }
}

#[via_fn]
proof fn arr_models_decreases(a: Seq<JsonValue>, n: int) {
    if 0 < n <= a.len() {
        assert(decreases_to!(a => a[n - 1]));
    }
}

#[via_fn]
proof fn obj_models_decreases(m: Seq<(String, JsonValue)>, n: int) {
    if 0 < n <= m.len() {
        assert(decreases_to!(m => m[n - 1]));
        assert(decreases_to!(m[n - 1] => m[n - 1].1));
    }
}

impl View for JsonValue {
    type V = Json;

    open spec fn view(&self) -> Json {
        model_of(self)
    }
}

/// The models of all elements of an array.
pub open spec fn models_of(a: Seq<JsonValue>) -> Seq<Json> {
    arr_models(a, a.len() as int)
}

/// The models of all members of an object.
pub open spec fn member_models_of(m: Seq<(String, JsonValue)>) -> Seq<(Seq<char>, Json)> {
    obj_models(m, m.len() as int)
}

pub proof fn lemma_arr_models(a: Seq<JsonValue>, n: int)
    requires
        0 <= n <= a.len(),
    ensures
        arr_models(a, n).len() == n,
        forall|i: int| 0 <= i < n ==> arr_models(a, n)[i] == a[i]@,
    decreases n,
{
    if n > 0 {
        lemma_arr_models(a, n - 1);
    }
}

pub proof fn lemma_obj_models(m: Seq<(String, JsonValue)>, n: int)
    requires
        0 <= n <= m.len(),
    ensures
        obj_models(m, n).len() == n,
        forall|i: int| 0 <= i < n ==> obj_models(m, n)[i] == (m[i].0@, m[i].1@),
    decreases n,
{
    if n > 0 {
        lemma_obj_models(m, n - 1);
    }
}

/// Looks a key up among the members `ms[i..]`; the first match wins.
pub open spec fn obj_get_from(ms: Seq<(Seq<char>, Json)>, key: Seq<char>, i: int) -> Option<Json>
    decreases ms.len() - i,
{
    if 0 <= i < ms.len() {
        if ms[i].0 == key {
            Some(ms[i].1)
        } else {
            obj_get_from(ms, key, i + 1)
        }
    } else {
        None
    }
}

/// Looks a key up among an object's members; the first match wins.
pub open spec fn obj_get(ms: Seq<(Seq<char>, Json)>, key: Seq<char>) -> Option<Json> {
    obj_get_from(ms, key, 0)
}

/// The member named `key` of `j`, when `j` is an object that has it.
pub open spec fn jget(j: Json, key: Seq<char>) -> Option<Json> {
    match j {
        Json::Obj(ms) => obj_get(ms, key),
        _ => None,
    }
}

impl JsonValue {
    /// The member named `key`, when this document is an object that has it.
    pub fn get<'a>(&'a self, key: &str) -> (r: Option<&'a JsonValue>)
        ensures
            match r {
                Some(x) => jget(self@, key@) == Some(x@),
                None => jget(self@, key@) is None,
            },
    {
        match self {
            JsonValue::Object(m) => {
                let key_string: String = String::from_str(key);
                let ghost ms = member_models_of(m@);
                proof {
                    lemma_obj_models(m@, m@.len() as int);
                }
                for i in 0..m.len()
                    invariant
                        self@ == Json::Obj(ms),
                        ms == member_models_of(m@),
                        ms.len() == m@.len(),
                        forall|k: int| 0 <= k < m@.len() ==> ms[k] == (m@[k].0@, m@[k].1@),
                        key_string@ == key@,
                        obj_get(ms, key@) == obj_get_from(ms, key@, i as int),
                {
                    if m[i].0 == key_string {
                        return Some(&m[i].1);
                    }
                }
                None
            },
            _ => None,
        }
    }

    /// The held string, when this document is a string.
    pub fn as_str<'a>(&'a self) -> (r: Option<&'a String>)
        ensures
            match r {
                Some(s) => self@ == Json::Str(s@),
                None => !(self@ is Str),
            },
    {
        match self {
            JsonValue::Str(s) => Some(s),
            _ => None,
        }
    }

    /// The held integer, when this document is an unsigned number.
    pub fn as_u64(&self) -> (r: Option<u64>)
        ensures
            match r {
                Some(n) => self@ == Json::UInt(n),
                None => !(self@ is UInt),
            },
    {
        match self {
            JsonValue::UInt(n) => Some(*n),
            _ => None,
        }
    }

    /// The held elements, when this document is an array.
    pub fn as_array<'a>(&'a self) -> (r: Option<&'a Vec<JsonValue>>)
        ensures
            match r {
                Some(a) => self@ == Json::Arr(models_of(a@)),
                None => !(self@ is Arr),
            },
    {
        match self {
            JsonValue::Array(a) => Some(a),
            _ => None,
        }
    }

    /// A deep copy of the document; the copy has the same model.
    pub fn duplicate(&self) -> (r: JsonValue)
        ensures
            r@ == self@,
        decreases self,
    {
        match self {
            JsonValue::Null => JsonValue::Null,
            JsonValue::Bool(b) => JsonValue::Bool(*b),
            JsonValue::UInt(n) => JsonValue::UInt(*n),
            JsonValue::Str(s) => JsonValue::Str(s.clone()),
            JsonValue::Array(a) => {
                let mut out: Vec<JsonValue> = Vec::new();
                for i in 0..a.len()
                    invariant
                        out@.len() == i,
                        forall|k: int| 0 <= k < i ==> out@[k]@ == a@[k]@,
                        decreases_to!(*self => *a),
                {
                    proof {
                        assert(decreases_to!(*a => a@[i as int]));
                    }
                    let copied = a[i].duplicate();
                    out.push(copied);
                }
                proof {
                    lemma_arr_models(out@, out@.len() as int);
                    lemma_arr_models(a@, a@.len() as int);
                    assert(models_of(out@) =~= models_of(a@));
                }
                JsonValue::Array(out)
            },
            JsonValue::Object(m) => {
                let mut out: Vec<(String, JsonValue)> = Vec::new();
                for i in 0..m.len()
                    invariant
                        out@.len() == i,
                        forall|k: int| 0 <= k < i ==> out@[k].0@ == m@[k].0@
                            && out@[k].1@ == m@[k].1@,
                        decreases_to!(*self => *m),
                {
                    proof {
                        assert(decreases_to!(*m => m@[i as int]));
                        assert(decreases_to!(m@[i as int] => m@[i as int].1));
                    }
                    let copied = m[i].1.duplicate();
                    let name = m[i].0.clone();
                    out.push((name, copied));
                }
                proof {
                    lemma_obj_models(out@, out@.len() as int);
                    lemma_obj_models(m@, m@.len() as int);
                    assert(member_models_of(out@) =~= member_models_of(m@));
                }
                JsonValue::Object(out)
            },
        }
    }
}

} // verus!
