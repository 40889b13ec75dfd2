//! Declarative decoding of class wrappers into typed records.
//!
//! A managed object arrives as `{"<class>": {"attributes": {...}}}`. A
//! [`Mapper`] holds a class name and an ordered field list; decoding
//! extracts every declared field from the wrapper's attributes with the
//! scalar extractor declared for it, and fails at the first field that is
//! absent or of the wrong JSON type, naming that field. Adding a mapped
//! type is a pure data change: declare its class name and field list.

use vstd::prelude::*;
use vstd::string::*;
use crate::json::Json;
use crate::json::JsonValue;
use crate::json::jget;

verus! {

broadcast use vstd::std_specs::vec::group_vec_axioms, vstd::seq::group_seq_axioms;

/// Why a decode failed: the named field could not be extracted.
#[derive(Debug, PartialEq, Eq)]
pub enum MacroError {
    MissingField(String),
}

/// The attributes object of the class wrapper named `class` in `j`; where
/// the wrapper or its attributes are absent, `Json::Null`, against which
/// every field extraction fails.
pub open spec fn attrs_or_null(j: Json, class: Seq<char>) -> Json {
    match jget(j, class) {
        Some(w) => match jget(w, "attributes"@) {
            Some(at) => at,
            None => Json::Null,
        },
        None => Json::Null,
    }
}

/// A scalar extracted by the string extractor: the member must be a JSON
/// string.
pub open spec fn spec_str_field(at: Json, name: Seq<char>) -> Option<Seq<char>> {
    match jget(at, name) {
        Some(x) => match x {
            Json::Str(s) => Some(s),
            _ => None,
        },
        None => None,
    }
}

/// A scalar extracted by the unsigned-integer extractor: the member must be
/// a JSON number representable as a non-negative integer.
pub open spec fn spec_uint_field(at: Json, name: Seq<char>) -> Option<u64> {
    match jget(at, name) {
        Some(x) => match x {
            Json::UInt(n) => Some(n),
            _ => None,
        },
        None => None,
    }
}

/// The scalar extractors a field can declare.
pub trait GetValue: View + Sized {
    /// What extracting a member of `at` named `name` yields for this type.
    spec fn spec_value(at: Json, name: Seq<char>) -> Option<Self::V>;

    /// Extracts the member of `at` named `name`, or reports it missing.
    fn get_value(at: &JsonValue, field_name: &str) -> (r: Result<Self, MacroError>)
        ensures
            match r {
                Ok(x) => Self::spec_value(at@, field_name@) == Some(x@),
                Err(e) => Self::spec_value(at@, field_name@) is None && (e matches
                    MacroError::MissingField(f) && f@ == field_name@),
            },
    ;
}

impl GetValue for String {
    open spec fn spec_value(at: Json, name: Seq<char>) -> Option<Seq<char>> {
        spec_str_field(at, name)
    }

    fn get_value(at: &JsonValue, field_name: &str) -> (r: Result<String, MacroError>) {
        match at.get(field_name) {
            Some(x) => match x.as_str() {
                Some(s) => Ok(s.clone()),
                None => Err(MacroError::MissingField(String::from_str(field_name))),
            },
            None => Err(MacroError::MissingField(String::from_str(field_name))),
        }
    }
}

impl GetValue for u64 {
    open spec fn spec_value(at: Json, name: Seq<char>) -> Option<u64> {
        spec_uint_field(at, name)
    }

    fn get_value(at: &JsonValue, field_name: &str) -> (r: Result<u64, MacroError>) {
        match at.get(field_name) {
            Some(x) => match x.as_u64() {
                Some(n) => Ok(n),
                None => Err(MacroError::MissingField(String::from_str(field_name))),
            },
            None => Err(MacroError::MissingField(String::from_str(field_name))),
        }
    }
}

/// The scalar type a declared field is extracted as.
#[derive(Debug, Clone, Copy, PartialEq, Eq, Structural)]
pub enum FieldKind {
    Str,
    UInt,
}

/// One extracted scalar.
#[derive(Debug, PartialEq, Eq)]
pub enum FieldValue {
    Str(String),
    UInt(u64),
}

/// The mathematical model of a [`FieldValue`].
#[verifier::ext_equal]
pub ghost enum FieldModel {
    Str(Seq<char>),
    UInt(u64),
}

impl View for FieldValue {
    type V = FieldModel;

    open spec fn view(&self) -> FieldModel {
        match self {
            FieldValue::Str(s) => FieldModel::Str(s@),
            FieldValue::UInt(n) => FieldModel::UInt(*n),
        }
    }
}

/// One declared field: its name and the extractor for it.
#[derive(Debug)]
pub struct FieldDecl {
    pub name: String,
    pub kind: FieldKind,
}

/// What extracting one declared field from the attributes `at` yields.
pub open spec fn spec_field(at: Json, name: Seq<char>, kind: FieldKind) -> Option<FieldModel> {
    match kind {
        FieldKind::Str => match spec_str_field(at, name) {
            Some(s) => Some(FieldModel::Str(s)),
            None => None,
        },
        FieldKind::UInt => match spec_uint_field(at, name) {
            Some(n) => Some(FieldModel::UInt(n)),
            None => None,
        },
    }
}

/// What decoding the first `n` declared fields yields: the extracted
/// scalars in declaration order, or the name of the first field that could
/// not be extracted.
pub open spec fn spec_decode_fields(at: Json, fields: Seq<FieldDecl>, n: int) -> Result<
    Seq<FieldModel>,
    Seq<char>,
>
    decreases n,
{
    if n <= 0 {
        Ok(Seq::empty())
    } else {
        match spec_decode_fields(at, fields, n - 1) {
            Ok(vs) => match spec_field(at, fields[n - 1].name@, fields[n - 1].kind) {
                Some(x) => Ok(vs.push(x)),
                None => Err(fields[n - 1].name@),
            },
            Err(f) => Err(f),
        }
    }
}

/// The models of a sequence of extracted scalars.
pub open spec fn field_views(vals: Seq<FieldValue>) -> Seq<FieldModel> {
    Seq::new(vals.len(), |i: int| vals[i]@)
}

proof fn lemma_decode_fields_err(at: Json, fields: Seq<FieldDecl>, i: int, n: int)
    requires
        0 <= i < n <= fields.len(),
        spec_decode_fields(at, fields, i) is Ok,
        spec_field(at, fields[i].name@, fields[i].kind) is None,
    ensures
        spec_decode_fields(at, fields, n) == Err::<Seq<FieldModel>, Seq<char>>(fields[i].name@),
    decreases n,
{
    if n > i + 1 {
        lemma_decode_fields_err(at, fields, i, n - 1);
    }
}

/// A declarative decoder for one managed-object class: the class name and
/// the ordered field list. Decoding either extracts every declared field or
/// fails at the first one that cannot be extracted.
#[derive(Debug)]
pub struct Mapper {
    pub class_name: String,
    pub fields: Vec<FieldDecl>,
}

impl Mapper {
    /// Decodes the class wrapper `v` into the declared scalars, in
    /// declaration order; a record is never partial — the first field that
    /// cannot be extracted fails the whole decode with its name.
    pub fn decode(&self, v: &JsonValue) -> (r: Result<Vec<FieldValue>, MacroError>)
        ensures
            ({
                let at = attrs_or_null(v@, self.class_name@);
                let outcome = spec_decode_fields(at, self.fields@, self.fields@.len() as int);
                match r {
                    Ok(vals) => outcome == Ok::<Seq<FieldModel>, Seq<char>>(field_views(vals@)),
                    Err(e) => e matches MacroError::MissingField(f) && outcome == Err::<
                        Seq<FieldModel>,
                        Seq<char>,
                    >(f@),
                }
            }),
    {
        let null_doc = JsonValue::Null;
        let at: &JsonValue = match v.get(self.class_name.as_str()) {
            Some(w) => match w.get("attributes") {
                Some(found) => found,
                None => &null_doc,
            },
            None => &null_doc,
        };
        let mut vals: Vec<FieldValue> = Vec::new();
        assert(field_views(vals@) =~= Seq::<FieldModel>::empty());
        let n = self.fields.len();
        for i in 0..n
            invariant
                n == self.fields@.len(),
                at@ == attrs_or_null(v@, self.class_name@),
                vals@.len() == i,
                spec_decode_fields(at@, self.fields@, i as int) == Ok::<
                    Seq<FieldModel>,
                    Seq<char>,
                >(field_views(vals@)),
        {
            let fd = &self.fields[i];
            let extracted: FieldValue = match fd.kind {
                FieldKind::Str => match <String as GetValue>::get_value(at, fd.name.as_str()) {
                    Ok(s) => FieldValue::Str(s),
                    Err(e) => {
                        proof {
                            lemma_decode_fields_err(at@, self.fields@, i as int, n as int);
                        }
                        return Err(e);
                    },
                },
                FieldKind::UInt => match <u64 as GetValue>::get_value(at, fd.name.as_str()) {
                    Ok(u) => FieldValue::UInt(u),
                    Err(e) => {
                        proof {
                            lemma_decode_fields_err(at@, self.fields@, i as int, n as int);
                        }
                        return Err(e);
                    },
                },
            };
            let ghost prev = vals@;
            vals.push(extracted);
            proof {
                assert(field_views(vals@) =~= field_views(prev).push(extracted@));
            }
        }
        Ok(vals)
    }
}

/// An illustrative mapped record: the `fvTenant` class, with its name and
/// its byte count.
#[derive(Debug)]
pub struct Tenant {
    pub name: String,
    pub bytes: u64,
}

impl Tenant {
    /// Decodes a `fvTenant` class wrapper into a [`Tenant`], extracting
    /// `name` as a string and `bytes` as an unsigned integer; the first
    /// field that cannot be extracted fails the decode with its name.
    pub fn from_json(v: &JsonValue) -> (r: Result<Tenant, MacroError>)
        ensures
            ({
                let at = attrs_or_null(v@, "fvTenant"@);
                match r {
                    Ok(t) => spec_str_field(at, "name"@) == Some(t.name@) && spec_uint_field(
                        at,
                        "bytes"@,
                    ) == Some(t.bytes),
                    Err(e) => e matches MacroError::MissingField(f) && ((spec_str_field(
                        at,
                        "name"@,
                    ) is None && f@ == "name"@) || (spec_str_field(at, "name"@) is Some
                        && spec_uint_field(at, "bytes"@) is None && f@ == "bytes"@)),
                }
            }),
    {
        let null_doc = JsonValue::Null;
        let at: &JsonValue = match v.get("fvTenant") {
            Some(w) => match w.get("attributes") {
                Some(found) => found,
                None => &null_doc,
            },
            None => &null_doc,
        };
        let name = match <String as GetValue>::get_value(at, "name") {
            Ok(name) => name,
            Err(e) => {
                return Err(e);
            },
        };
        let bytes = match <u64 as GetValue>::get_value(at, "bytes") {
            Ok(bytes) => bytes,
            Err(e) => {
                return Err(e);
            },
        };
        Ok(Tenant { name, bytes })
    }
}

} // verus!
