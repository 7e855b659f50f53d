//! The JSON document model and its mathematical counterpart.

use vstd::prelude::*;

verus! {

broadcast use vstd::seq::group_seq_axioms, vstd::std_specs::vec::group_vec_axioms;

/// A JSON number kept exactly as written: a sign, the decimal digits of the
/// mantissa, and a power of ten. The numeric value is
/// `(if neg { -1 } else { 1 }) * mantissa * 10^exp`.
///
/// Keeping the written form exact lets every consumer decide how strictly it
/// reads a number (an integer field rejects a fractional form, a coordinate
/// accepts one) without a lossy intermediate.
#[derive(Clone, Copy, PartialEq, Eq, Structural, Debug)]
pub struct JsonNum {
    pub neg: bool,
    pub mantissa: u64,
    pub exp: i32,
}

/// A structured JSON document.
///
/// Object fields keep their order of appearance; the writer emits them in
/// that order.
#[derive(Debug)]
pub enum JsonValue {
    Null,
    Bool(bool),
    Num(JsonNum),
    Str(String),
    Arr(Vec<JsonValue>),
    Obj(Vec<(String, JsonValue)>),
}

/// The mathematical shape of a JSON document, used by every contract.
pub enum JsonSpec {
    Null,
    Bool(bool),
    Num(JsonNum),
    Str(Seq<char>),
    Arr(Seq<JsonSpec>),
    Obj(Seq<(Seq<char>, JsonSpec)>),
}

/// The mathematical shape of a document.
pub open spec fn jv_view(v: JsonValue) -> JsonSpec
    decreases v,
{
    match v {
        JsonValue::Null => JsonSpec::Null,
        JsonValue::Bool(b) => JsonSpec::Bool(b),
        JsonValue::Num(n) => JsonSpec::Num(n),
        JsonValue::Str(s) => JsonSpec::Str(s@),
        JsonValue::Arr(items) => JsonSpec::Arr(jv_view_seq(items@)),
        JsonValue::Obj(fields) => JsonSpec::Obj(jv_view_fields(fields@)),
    }
}

/// The shapes of a sequence of documents.
pub open spec fn jv_view_seq(s: Seq<JsonValue>) -> Seq<JsonSpec>
    decreases s,
{
    if s.len() == 0 {
        Seq::empty()
    } else {
        jv_view_seq(s.drop_last()).push(jv_view(s.last()))
    }
}

/// The shapes of a sequence of object fields.
pub open spec fn jv_view_fields(s: Seq<(String, JsonValue)>) -> Seq<(Seq<char>, JsonSpec)>
    decreases s,
{
    if s.len() == 0 {
        Seq::empty()
    } else {
        jv_view_fields(s.drop_last()).push((s.last().0@, jv_view(s.last().1)))
    }
}

impl View for JsonValue {
    type V = JsonSpec;

    open spec fn view(&self) -> JsonSpec {
        jv_view(*self)
    }
}

/// Viewing a sequence of documents is viewing each document.
pub proof fn jv_view_seq_index(s: Seq<JsonValue>)
    ensures
        jv_view_seq(s).len() == s.len(),
        forall|i: int| 0 <= i < s.len() ==> jv_view_seq(s)[i] == jv_view(s[i]),
    decreases s.len(),
{
    if s.len() > 0 {
        jv_view_seq_index(s.drop_last());
    }
}

/// Viewing a sequence of fields is viewing each name and each value.
pub proof fn jv_view_fields_index(s: Seq<(String, JsonValue)>)
    ensures
        jv_view_fields(s).len() == s.len(),
        forall|i: int|
            0 <= i < s.len() ==> jv_view_fields(s)[i] == (s[i].0@, jv_view(s[i].1)),
    decreases s.len(),
{
    if s.len() > 0 {
        jv_view_fields_index(s.drop_last());
    }
}

/// The value of the first field named `key` among `fields`.
pub open spec fn field_of(fields: Seq<(Seq<char>, JsonSpec)>, key: Seq<char>) -> Option<
    JsonSpec,
>
    decreases fields.len(),
{
    if fields.len() == 0 {
        None
    } else if fields[0].0 == key {
        Some(fields[0].1)
    } else {
        field_of(fields.drop_first(), key)
    }
}

/// A found field value sits strictly inside the field sequence.
pub proof fn lemma_field_of_decreases(fields: Seq<(Seq<char>, JsonSpec)>, key: Seq<char>)
    requires
        field_of(fields, key) is Some,
    ensures
        decreases_to!(fields => field_of(fields, key).unwrap()),
    decreases fields.len(),
{
    if fields.len() > 0 {
        if fields[0].0 == key {
            assert(decreases_to!(fields => fields[0]));
            assert(decreases_to!(fields[0] => fields[0].1));
        } else {
            lemma_field_of_decreases(fields.drop_first(), key);
            assert(decreases_to!(fields => fields.drop_first()));
        }
    }
}

/// Looking up a key finds the field at the first position holding it.
pub proof fn lemma_field_of_at(fields: Seq<(Seq<char>, JsonSpec)>, key: Seq<char>, i: int)
    requires
        0 <= i < fields.len(),
        fields[i].0 == key,
        forall|j: int| 0 <= j < i ==> fields[j].0 != key,
    ensures
        field_of(fields, key) == Some(fields[i].1),
    decreases fields.len(),
{
    if i > 0 {
        lemma_field_of_at(fields.drop_first(), key, i - 1);
    }
}

impl JsonSpec {
    /// The value of the first field named `key`, if the document is an
    /// object with such a field.
    pub open spec fn field(self, key: Seq<char>) -> Option<JsonSpec> {
        match self {
            JsonSpec::Obj(fields) => field_of(fields, key),
            _ => None,
        }
    }
}

} // verus!
