//! Serialization of the document model into JSON text.
//!
//! [`to_json_string`] renders a [`JsonValue`] exactly as the spec function
//! [`json_text`] describes: members in order, strings quoted with `"`,
//! `\` and control characters escaped, integers in decimal.

use vstd::prelude::*;
use vstd::string::*;
use crate::json::Json;
use crate::json::JsonValue;
use crate::json::arr_models;
use crate::json::obj_models;
use crate::json::lemma_arr_models;
use crate::json::lemma_obj_models;

verus! {

broadcast use vstd::std_specs::vec::group_vec_axioms, vstd::seq::group_seq_axioms;

/// The decimal digit character for `d`.
pub open spec fn digit_char(d: int) -> char {
    ((48 + d) as u8) as char
}

/// The lower-case hexadecimal digit character for `d`.
pub open spec fn hex_char(d: int) -> char {
    if d < 10 {
        digit_char(d)
    } else {
        ((97 + (d - 10)) as u8) as char
    }
}

/// The decimal rendering of `n`, most significant digit first.
pub open spec fn uint_digits(n: nat) -> Seq<char>
    decreases n,
    via uint_digits_decreases
{
    if n < 10 {
        seq![digit_char(n as int)]
    } else {
        uint_digits(n / 10).push(digit_char((n % 10) as int))
    }
}

#[via_fn]
proof fn uint_digits_decreases(n: nat) {
    if n >= 10 {
        assert(n / 10 < n) by (nonlinear_arith)
            requires n >= 10,
        ;
    }
}

/// How one character is rendered inside a JSON string: quote and backslash
/// get a backslash, a control character becomes a `\u00..` escape, and every
/// other character stands for itself.
pub open spec fn escaped_char(c: char) -> Seq<char> {
    if c == '"' {
        seq!['\\', '"']
    } else if c == '\\' {
        seq!['\\', '\\']
    } else if (c as u32) < 32 {
        seq!['\\', 'u', '0', '0', hex_char((c as u32) as int / 16), hex_char((c as u32) as int % 16)]
    } else {
        seq![c]
    }
}

/// The rendering of the first `n` characters of a string's contents.
pub open spec fn escaped_prefix(s: Seq<char>, n: int) -> Seq<char>
    decreases n,
{
    if 0 < n <= s.len() {
        escaped_prefix(s, n - 1) + escaped_char(s[n - 1])
    } else {
        Seq::empty()
    }
}

/// The rendering of a whole string: its contents escaped, between quotes.
pub open spec fn str_text(s: Seq<char>) -> Seq<char> {
    seq!['"'] + escaped_prefix(s, s.len() as int) + seq!['"']
}

/// The text of a document.
pub open spec fn json_text(j: Json) -> Seq<char>
    decreases j, 0int, 0int,
    via json_text_decreases
{
    match j {
        Json::Null => "null"@,
        Json::Bool(b) => if b {
            "true"@
        } else {
            "false"@
        },
        Json::UInt(n) => uint_digits(n as nat),
        Json::Str(s) => str_text(s),
        Json::Arr(a) => seq!['['] + arr_text(a, a.len() as int) + seq![']'],
        Json::Obj(ms) => seq!['{'] + obj_text(ms, ms.len() as int) + seq!['}'],
    }
}

/// The text of one object member: quoted key, colon, value.
pub open spec fn member_text(p: (Seq<char>, Json)) -> Seq<char>
    decreases p, 0int, 0int,
    via member_text_decreases
{
    str_text(p.0) + seq![':'] + json_text(p.1)
}

/// The text of the first `n` elements of an array, comma-separated.
pub open spec fn arr_text(a: Seq<Json>, n: int) -> Seq<char>
    decreases a, 1int, n,
    via arr_text_decreases
{
    if 0 < n <= a.len() {
        if n == 1 {
            json_text(a[0])
        } else {
            arr_text(a, n - 1) + seq![','] + json_text(a[n - 1])
        }
    } else {
        Seq::empty()
    }
}

/// The text of the first `n` members of an object, comma-separated.
pub open spec fn obj_text(ms: Seq<(Seq<char>, Json)>, n: int) -> Seq<char>
    decreases ms, 1int, n,
    via obj_text_decreases
{
    if 0 < n <= ms.len() {
        if n == 1 {
            member_text(ms[0])
        } else {
            obj_text(ms, n - 1) + seq![','] + member_text(ms[n - 1])
        }
    } else {
        Seq::empty()
    }
}

#[via_fn]
proof fn json_text_decreases(j: Json) {
    match j {
        Json::Arr(a) => {
            assert(decreases_to!(j => a));
        },
        Json::Obj(ms) => {
            assert(decreases_to!(j => ms));
        },
        _ => {},
    }
}

#[via_fn]
proof fn member_text_decreases(p: (Seq<char>, Json)) {
    assert(decreases_to!(p => p.1));
}

#[via_fn]
proof fn arr_text_decreases(a: Seq<Json>, n: int) {
    if 0 < n <= a.len() {
        assert(decreases_to!(a => a[0]));
        assert(decreases_to!(a => a[n - 1]));
    }
}

#[via_fn]
proof fn obj_text_decreases(ms: Seq<(Seq<char>, Json)>, n: int) {
    if 0 < n <= ms.len() {
        assert(decreases_to!(ms => ms[0]));
        assert(decreases_to!(ms => ms[n - 1]));
    }
}

/// Relies on `String::push`: it appends the one character.
#[verifier::external_body]
fn push_char(out: &mut String, c: char)
    ensures
        final(out)@ == old(out)@ + seq![c],
{
    out.push(c);
}

/// Appends the decimal rendering of `n`.
fn push_uint(out: &mut String, n: u64)
    ensures
        final(out)@ == old(out)@ + uint_digits(n as nat),
    decreases n,
{
    if n < 10 {
        push_char(out, (48 + (n as u8)) as char);
    } else {
        proof {
            assert(n / 10 < n) by (nonlinear_arith)
                requires n >= 10,
            ;
        }
        push_uint(out, n / 10);
        push_char(out, (48 + ((n % 10) as u8)) as char);
    }
}

/// The hexadecimal digit character for `d`.
fn hex_digit(d: u32) -> (c: char)
    requires
        d < 16,
    ensures
        c == hex_char(d as int),
{
    if d < 10 {
        (48 + (d as u8)) as char
    } else {
        (97 + ((d - 10) as u8)) as char
    }
}

/// Appends the contents of `s`, escaped for a JSON string.
fn push_escaped(out: &mut String, s: &String)
    ensures
        final(out)@ == old(out)@ + escaped_prefix(s@, s@.len() as int),
{
    let text = s.as_str();
    let n = text.unicode_len();
    for i in 0..n
        invariant
            n == s@.len(),
            text@ == s@,
            out@ == old(out)@ + escaped_prefix(s@, i as int),
    {
        let c = text.get_char(i);
        if c == '"' {
            push_char(out, '\\');
            push_char(out, '"');
        } else if c == '\\' {
            push_char(out, '\\');
            push_char(out, '\\');
        } else if (c as u32) < 32 {
            let u = c as u32;
            push_char(out, '\\');
            push_char(out, 'u');
            push_char(out, '0');
            push_char(out, '0');
            push_char(out, hex_digit(u / 16));
            push_char(out, hex_digit(u % 16));
        } else {
            push_char(out, c);
        }
        assert(out@ =~= old(out)@ + escaped_prefix(s@, i + 1));
    }
}

/// Appends the text of the string `s` as a JSON string, quotes included.
fn push_str_text(out: &mut String, s: &String)
    ensures
        final(out)@ == old(out)@ + str_text(s@),
{
    push_char(out, '"');
    push_escaped(out, s);
    push_char(out, '"');
    assert(out@ =~= old(out)@ + str_text(s@));
}

/// Appends the text of the document `v`.
fn push_json(out: &mut String, v: &JsonValue)
    ensures
        final(out)@ == old(out)@ + json_text(v@),
    decreases v,
{
    match v {
        JsonValue::Null => {
            out.append("null");
        },
        JsonValue::Bool(b) => {
            if *b {
                out.append("true");
            } else {
                out.append("false");
            }
        },
        JsonValue::UInt(n) => {
            push_uint(out, *n);
        },
        JsonValue::Str(s) => {
            push_str_text(out, s);
        },
        JsonValue::Array(a) => {
            let ghost am = arr_models(a@, a@.len() as int);
            proof {
                lemma_arr_models(a@, a@.len() as int);
            }
            push_char(out, '[');
            let ghost base = out@;
            assert(out@ =~= base + arr_text(am, 0));
            for i in 0..a.len()
                invariant
                    v@ == Json::Arr(am),
                    am == arr_models(a@, a@.len() as int),
                    am.len() == a@.len(),
                    forall|k: int| 0 <= k < a@.len() ==> am[k] == a@[k]@,
                    out@ == base + arr_text(am, i as int),
                    decreases_to!(*v => *a),
            {
                if i > 0 {
                    push_char(out, ',');
                }
                proof {
                    assert(decreases_to!(*a => a@[i as int]));
                }
                push_json(out, &a[i]);
                assert(out@ =~= base + arr_text(am, i + 1));
            }
            push_char(out, ']');
            assert(out@ =~= old(out)@ + json_text(v@));
        },
        JsonValue::Object(m) => {
            let ghost mm = obj_models(m@, m@.len() as int);
            proof {
                lemma_obj_models(m@, m@.len() as int);
            }
            push_char(out, '{');
            let ghost base = out@;
            assert(out@ =~= base + obj_text(mm, 0));
            for i in 0..m.len()
                invariant
                    v@ == Json::Obj(mm),
                    mm == obj_models(m@, m@.len() as int),
                    mm.len() == m@.len(),
                    forall|k: int| 0 <= k < m@.len() ==> mm[k] == (m@[k].0@, m@[k].1@),
                    out@ == base + obj_text(mm, i as int),
                    decreases_to!(*v => *m),
            {
                if i > 0 {
                    push_char(out, ',');
                }
                proof {
                    assert(decreases_to!(*m => m@[i as int]));
                    assert(decreases_to!(m@[i as int] => m@[i as int].1));
                }
                push_str_text(out, &m[i].0);
                push_char(out, ':');
                push_json(out, &m[i].1);
                proof {
                    let p = mm[i as int];
                    assert(p.0 == m@[i as int].0@ && p.1 == m@[i as int].1@);
                    assert(member_text(p) == str_text(p.0) + seq![':'] + json_text(p.1));
                    if i == 0 {
                        assert(obj_text(mm, 1) == member_text(mm[0]));
                    } else {
                        assert(obj_text(mm, i + 1) == obj_text(mm, i as int) + seq![',']
                            + member_text(mm[i as int]));
                    }
                    assert(out@ =~= base + obj_text(mm, i + 1));
                }
            }
            push_char(out, '}');
            assert(out@ =~= old(out)@ + json_text(v@));
        },
    }
}

/// The JSON text of the document `v`.
pub fn to_json_string(v: &JsonValue) -> (r: String)
    ensures
        r@ == json_text(v@),
{
    let mut out = String::new();
    push_json(&mut out, v);
    out
}

} // verus!
