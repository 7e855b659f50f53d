//! Shared helpers for reading typed fields out of a decoded JSON object.
//!
//! Absent fields and `null` fields both denote a missing optional value,
//! exactly as the upstream payloads use them.

use vstd::prelude::*;

use crate::fixed::{num_fixed_spec, num_to_fixed, Fixed};
use crate::json::value::{field_of, jv_view_fields, jv_view_fields_index, JsonNum, JsonSpec,
    JsonValue};

verus! {

broadcast use vstd::seq::group_seq_axioms, vstd::std_specs::vec::group_vec_axioms;

/// The unsigned 32-bit reading of a JSON number: only a plain integer form
/// in range qualifies.
pub open spec fn u32_of_num(n: JsonNum) -> Option<u32> {
    if !n.neg && n.exp == 0 && n.mantissa <= u32::MAX {
        Some(n.mantissa as u32)
    } else {
        None
    }
}

/// An optional unsigned field: absent or `null` is a missing value, a
/// suitable number is a present one, anything else refuses the document.
pub open spec fn opt_u32_of(f: Option<JsonSpec>) -> Option<Option<u32>> {
    match f {
        None => Some(None),
        Some(JsonSpec::Null) => Some(None),
        Some(JsonSpec::Num(n)) => match u32_of_num(n) {
            Some(v) => Some(Some(v)),
            None => None,
        },
        Some(_) => None,
    }
}

/// An optional string field.
pub open spec fn opt_str_of(f: Option<JsonSpec>) -> Option<Option<Seq<char>>> {
    match f {
        None => Some(None),
        Some(JsonSpec::Null) => Some(None),
        Some(JsonSpec::Str(s)) => Some(Some(s)),
        Some(_) => None,
    }
}

/// An optional boolean field.
pub open spec fn opt_bool_of(f: Option<JsonSpec>) -> Option<Option<bool>> {
    match f {
        None => Some(None),
        Some(JsonSpec::Null) => Some(None),
        Some(JsonSpec::Bool(b)) => Some(Some(b)),
        Some(_) => None,
    }
}

/// An optional fixed-point field.
pub open spec fn opt_fixed_of(f: Option<JsonSpec>) -> Option<Option<Fixed>> {
    match f {
        None => Some(None),
        Some(JsonSpec::Null) => Some(None),
        Some(JsonSpec::Num(n)) => match num_fixed_spec(n) {
            Some(v) => Some(Some(v)),
            None => None,
        },
        Some(_) => None,
    }
}

/// A required string field.
pub open spec fn req_str_of(f: Option<JsonSpec>) -> Option<Seq<char>> {
    match f {
        Some(JsonSpec::Str(s)) => Some(s),
        _ => None,
    }
}

/// A required fixed-point field.
pub open spec fn req_fixed_of(f: Option<JsonSpec>) -> Option<Fixed> {
    match f {
        Some(JsonSpec::Num(n)) => num_fixed_spec(n),
        _ => None,
    }
}

/// An optional unsigned value as a JSON field value.
pub open spec fn opt_u32_json(c: Option<u32>) -> JsonSpec {
    match c {
        None => JsonSpec::Null,
        Some(n) => JsonSpec::Num(JsonNum { neg: false, mantissa: n as u64, exp: 0i32 }),
    }
}

/// An optional string as a JSON field value.
pub open spec fn opt_str_json(s: Option<Seq<char>>) -> JsonSpec {
    match s {
        None => JsonSpec::Null,
        Some(t) => JsonSpec::Str(t),
    }
}

/// An optional boolean as a JSON field value.
pub open spec fn opt_bool_json(b: Option<bool>) -> JsonSpec {
    match b {
        None => JsonSpec::Null,
        Some(v) => JsonSpec::Bool(v),
    }
}

/// An optional fixed-point value as a JSON field value.
pub open spec fn opt_fixed_json(f: Option<Fixed>) -> JsonSpec {
    match f {
        None => JsonSpec::Null,
        Some(v) => JsonSpec::Num(crate::fixed::fixed_num_spec(v)),
    }
}

/// Renders an optional unsigned value.
pub fn opt_u32_value(c: &Option<u32>) -> (r: JsonValue)
    ensures
        r@ == opt_u32_json(*c),
{
    match c {
        None => JsonValue::Null,
        Some(n) => JsonValue::Num(JsonNum { neg: false, mantissa: *n as u64, exp: 0 }),
    }
}

/// Renders an optional string.
pub fn opt_str_value(s: &Option<String>) -> (r: JsonValue)
    ensures
        r@ == opt_str_json(s.deep_view()),
{
    match s {
        None => JsonValue::Null,
        Some(t) => JsonValue::Str(t.clone()),
    }
}

/// Renders an optional boolean.
pub fn opt_bool_value(b: &Option<bool>) -> (r: JsonValue)
    ensures
        r@ == opt_bool_json(*b),
{
    match b {
        None => JsonValue::Null,
        Some(v) => JsonValue::Bool(*v),
    }
}

/// Renders an optional fixed-point value.
pub fn opt_fixed_value(f: &Option<Fixed>) -> (r: JsonValue)
    ensures
        r@ == opt_fixed_json(*f),
{
    match f {
        None => JsonValue::Null,
        Some(v) => JsonValue::Num(crate::fixed::fixed_to_num(v)),
    }
}

/// Reading back an encoded optional fixed-point field yields it unchanged.
pub proof fn lemma_opt_fixed_round_trip(f: Option<Fixed>)
    requires
        f matches Some(v) ==> v.wf(),
    ensures
        opt_fixed_of(Some(opt_fixed_json(f))) == Some(f),
{
    if let Some(v) = f {
        crate::fixed::lemma_fixed_num_round_trip(v);
    }
}

/// The first field of `fields` named `key`, as the spec-level lookup sees
/// it.
pub fn get_field<'a>(fields: &'a Vec<(String, JsonValue)>, key: &String) -> (r: Option<
    &'a JsonValue,
>)
    ensures
        match r {
            Some(v) => field_of(jv_view_fields(fields@), key@) == Some(v@),
            None => field_of(jv_view_fields(fields@), key@) is None,
        },
        r matches Some(v) ==> exists|k: int|
            0 <= k < fields@.len() && *v == #[trigger] fields@[k].1,
{
    proof {
        jv_view_fields_index(fields@);
        assert(jv_view_fields(fields@).skip(0) =~= jv_view_fields(fields@));
    }
    let mut i: usize = 0;
    while i < fields.len()
        invariant
            i <= fields@.len(),
            jv_view_fields(fields@).len() == fields@.len(),
            forall|k: int|
                0 <= k < fields@.len() ==> jv_view_fields(fields@)[k] == (
                fields@[k].0@,
                crate::json::value::jv_view(fields@[k].1),
                ),
            field_of(jv_view_fields(fields@), key@) == field_of(
                jv_view_fields(fields@).skip(i as int),
                key@,
            ),
        decreases fields@.len() - i,
    {
        proof {
            assert(jv_view_fields(fields@).skip(i as int).drop_first() =~= jv_view_fields(
                fields@,
            ).skip(i + 1));
        }
        if fields[i].0 == *key {
            return Some(&fields[i].1);
        }
        i += 1;
    }
    proof {
        assert(jv_view_fields(fields@).skip(fields@.len() as int) =~= Seq::<
            (Seq<char>, JsonSpec),
        >::empty());
    }
    None
}

/// Reads an optional unsigned field out of an object.
pub fn get_opt_u32(fields: &Vec<(String, JsonValue)>, key: &String) -> (r: Option<Option<u32>>)
    ensures
        r == opt_u32_of(field_of(jv_view_fields(fields@), key@)),
{
    match get_field(fields, key) {
        None => Some(None),
        Some(v) => match v {
            JsonValue::Null => Some(None),
            JsonValue::Num(n) => {
                if !n.neg && n.exp == 0 && n.mantissa <= 0xffffffff {
                    Some(Some(n.mantissa as u32))
                } else {
                    None
                }
            },
            _ => None,
        },
    }
}

/// Reads an optional string field out of an object.
pub fn get_opt_str(fields: &Vec<(String, JsonValue)>, key: &String) -> (r: Option<
    Option<String>,
>)
    ensures
        match r {
            Some(Some(s)) => opt_str_of(field_of(jv_view_fields(fields@), key@)) == Some(
                Some(s@),
            ),
            Some(None) => opt_str_of(field_of(jv_view_fields(fields@), key@)) == Some(
                None::<Seq<char>>,
            ),
            None => opt_str_of(field_of(jv_view_fields(fields@), key@)) is None,
        },
{
    match get_field(fields, key) {
        None => Some(None),
        Some(v) => match v {
            JsonValue::Null => Some(None),
            JsonValue::Str(s) => Some(Some(s.clone())),
            _ => None,
        },
    }
}

/// Reads an optional boolean field out of an object.
pub fn get_opt_bool(fields: &Vec<(String, JsonValue)>, key: &String) -> (r: Option<
    Option<bool>,
>)
    ensures
        r == opt_bool_of(field_of(jv_view_fields(fields@), key@)),
{
    match get_field(fields, key) {
        None => Some(None),
        Some(v) => match v {
            JsonValue::Null => Some(None),
            JsonValue::Bool(b) => Some(Some(*b)),
            _ => None,
        },
    }
}

/// Reads an optional fixed-point field out of an object.
pub fn get_opt_fixed(fields: &Vec<(String, JsonValue)>, key: &String) -> (r: Option<
    Option<Fixed>,
>)
    ensures
        r == opt_fixed_of(field_of(jv_view_fields(fields@), key@)),
{
    match get_field(fields, key) {
        None => Some(None),
        Some(v) => match v {
            JsonValue::Null => Some(None),
            JsonValue::Num(n) => match num_to_fixed(n) {
                Some(f) => Some(Some(f)),
                None => None,
            },
            _ => None,
        },
    }
}

/// Reads a required string field out of an object.
pub fn get_req_str(fields: &Vec<(String, JsonValue)>, key: &String) -> (r: Option<String>)
    ensures
        match r {
            Some(s) => req_str_of(field_of(jv_view_fields(fields@), key@)) == Some(s@),
            None => req_str_of(field_of(jv_view_fields(fields@), key@)) is None,
        },
{
    match get_field(fields, key) {
        Some(v) => match v {
            JsonValue::Str(s) => Some(s.clone()),
            _ => None,
        },
        None => None,
    }
}

/// Reads a required fixed-point field out of an object.
pub fn get_req_fixed(fields: &Vec<(String, JsonValue)>, key: &String) -> (r: Option<Fixed>)
    ensures
        r == req_fixed_of(field_of(jv_view_fields(fields@), key@)),
{
    match get_field(fields, key) {
        Some(v) => match v {
            JsonValue::Num(n) => num_to_fixed(n),
            _ => None,
        },
        None => None,
    }
}

} // verus!
