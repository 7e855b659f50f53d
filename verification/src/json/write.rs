//! Rendering of a [`JsonValue`] as JSON text.
//!
//! The spec functions define the exact text; the executable writer is proved
//! to produce it.

use vstd::prelude::*;

use crate::json::value::{jv_view, jv_view_fields, jv_view_fields_index, jv_view_seq,
    jv_view_seq_index, JsonNum, JsonSpec, JsonValue};
use crate::text::{dec_digits, hex_char, hex_char_exec, push_dec, str_chars, string_from_chars};

verus! {

broadcast use vstd::seq::group_seq_axioms, vstd::std_specs::vec::group_vec_axioms;

/// How one character appears inside a JSON string literal.
pub open spec fn escape_char(c: char) -> Seq<char> {
    if c == '"' {
        seq!['\\', '"']
    } else if c == '\\' {
        seq!['\\', '\\']
    } else if (c as u32) < 0x20 {
        seq!['\\', 'u', '0', '0', hex_char((c as u32 / 16) as nat), hex_char(
            (c as u32 % 16) as nat,
        )]
    } else {
        seq![c]
    }
}

/// The body of a JSON string literal for the characters `s`.
pub open spec fn escape_str(s: Seq<char>) -> Seq<char>
    decreases s.len(),
{
    if s.len() == 0 {
        Seq::empty()
    } else {
        escape_str(s.drop_last()) + escape_char(s.last())
    }
}

/// A run of `n` zero digits.
pub open spec fn zeros(n: nat) -> Seq<char> {
    Seq::new(n, |i: int| '0')
}

/// The text of a JSON number: the mantissa digits with the decimal point
/// placed according to the exponent, or trailing zeros for a non-negative
/// exponent.
pub open spec fn num_chars(n: JsonNum) -> Seq<char> {
    let d = dec_digits(n.mantissa as nat);
    let digits = if n.exp >= 0 {
        d + zeros(n.exp as nat)
    } else if d.len() > -(n.exp as int) {
        d.take(d.len() + n.exp as int) + seq!['.'] + d.skip(d.len() + n.exp as int)
    } else {
        seq!['0', '.'] + zeros((-(n.exp as int) - d.len()) as nat) + d
    };
    if n.neg {
        seq!['-'] + digits
    } else {
        digits
    }
}

/// The JSON text of a document.
pub open spec fn write_spec(j: JsonSpec) -> Seq<char>
    decreases j,
{
    match j {
        JsonSpec::Null => "null"@,
        JsonSpec::Bool(b) => if b {
            "true"@
        } else {
            "false"@
        },
        JsonSpec::Num(n) => num_chars(n),
        JsonSpec::Str(s) => seq!['"'] + escape_str(s) + seq!['"'],
        JsonSpec::Arr(items) => seq!['['] + arr_body(items) + seq![']'],
        JsonSpec::Obj(fields) => seq!['{'] + obj_body(fields) + seq!['}'],
    }
}

/// The comma-separated renderings of the array elements.
pub open spec fn arr_body(items: Seq<JsonSpec>) -> Seq<char>
    decreases items,
{
    if items.len() == 0 {
        Seq::empty()
    } else if items.len() == 1 {
        write_spec(items[0])
    } else {
        arr_body(items.drop_last()) + seq![','] + write_spec(items.last())
    }
}

/// The comma-separated renderings of the object fields.
pub open spec fn obj_body(fields: Seq<(Seq<char>, JsonSpec)>) -> Seq<char>
    decreases fields,
{
    if fields.len() == 0 {
        Seq::empty()
    } else {
        let entry = seq!['"'] + escape_str(fields.last().0) + seq!['"', ':'] + write_spec(
            fields.last().1,
        );
        if fields.len() == 1 {
            entry
        } else {
            obj_body(fields.drop_last()) + seq![','] + entry
        }
    }
}

/// Appends the escape sequence for one character.
fn push_escape_char(out: &mut Vec<char>, c: char)
    ensures
        final(out)@ == old(out)@ + escape_char(c),
{
    if c == '"' {
        out.push('\\');
        out.push('"');
    } else if c == '\\' {
        out.push('\\');
        out.push('\\');
    } else if (c as u32) < 0x20 {
        out.push('\\');
        out.push('u');
        out.push('0');
        out.push('0');
        out.push(hex_char_exec((c as u32) / 16));
        out.push(hex_char_exec((c as u32) % 16));
    } else {
        out.push(c);
    }
}

/// Appends a quoted, escaped JSON string literal for `s`.
fn push_quoted(out: &mut Vec<char>, s: &str)
    ensures
        final(out)@ == old(out)@ + seq!['"'] + escape_str(s@) + seq!['"'],
{
    let chars = str_chars(s);
    out.push('"');
    let ghost base = out@;
    let mut i: usize = 0;
    while i < chars.len()
        invariant
            i <= chars.len(),
            chars@ == s@,
            out@ == base + escape_str(s@.take(i as int)),
        decreases chars.len() - i,
    {
        proof {
            assert(s@.take(i + 1).drop_last() =~= s@.take(i as int));
            assert(s@.take(i + 1).last() == s@[i as int]);
        }
        push_escape_char(out, chars[i]);
        i += 1;
    }
    proof {
        assert(s@.take(s@.len() as int) =~= s@);
    }
    out.push('"');
}

/// Appends `n` zero digits.
fn push_zeros(out: &mut Vec<char>, n: u64)
    ensures
        final(out)@ == old(out)@ + zeros(n as nat),
{
    let ghost base = out@;
    let mut i: u64 = 0;
    while i < n
        invariant
            i <= n,
            out@ == base + zeros(i as nat),
        decreases n - i,
    {
        proof {
            assert(zeros((i + 1) as nat) =~= zeros(i as nat) + seq!['0']);
        }
        out.push('0');
        i += 1;
    }
}

/// Appends the text of a JSON number.
fn push_num(out: &mut Vec<char>, n: &JsonNum)
    ensures
        final(out)@ == old(out)@ + num_chars(*n),
{
    if n.neg {
        out.push('-');
    }
    let mut d: Vec<char> = Vec::new();
    push_dec(&mut d, n.mantissa);
    if n.exp >= 0 {
        let ghost mid = out@;
        let mut i: usize = 0;
        while i < d.len()
            invariant
                i <= d.len(),
                d@ == dec_digits(n.mantissa as nat),
                out@ == mid + d@.take(i as int),
            decreases d.len() - i,
        {
            proof {
                assert(d@.take(i + 1) =~= d@.take(i as int) + seq![d@[i as int]]);
            }
            out.push(d[i]);
            i += 1;
        }
        proof {
            assert(d@.take(d@.len() as int) =~= d@);
        }
        push_zeros(out, n.exp as u64);
    } else {
        let k: u64 = -(n.exp as i64) as u64;
        if d.len() as u64 > k {
            let point: usize = d.len() - k as usize;
            let ghost mid = out@;
            let mut i: usize = 0;
            while i < d.len()
                invariant
                    i <= d.len(),
                    point == d@.len() + n.exp,
                    d@ == dec_digits(n.mantissa as nat),
                    i <= point ==> out@ == mid + d@.take(i as int),
                    i > point ==> out@ == mid + d@.take(point as int) + seq!['.'] + d@.subrange(
                        point as int,
                        i as int,
                    ),
                decreases d.len() - i,
            {
                if i == point {
                    out.push('.');
                    proof {
                        assert(d@.subrange(point as int, point as int) =~= Seq::<char>::empty());
                    }
                }
                proof {
                    if i < point {
                        assert(d@.take(i + 1) =~= d@.take(i as int) + seq![d@[i as int]]);
                    } else {
                        assert(d@.subrange(point as int, i + 1) =~= d@.subrange(
                            point as int,
                            i as int,
                        ) + seq![d@[i as int]]);
                    }
                }
                out.push(d[i]);
                i += 1;
            }
            proof {
                assert(d@.subrange(point as int, d@.len() as int) =~= d@.skip(
                    d@.len() + n.exp as int,
                ));
                assert(d@.take(point as int) =~= d@.take(d@.len() + n.exp as int));
            }
        } else {
            out.push('0');
            out.push('.');
            push_zeros(out, k - d.len() as u64);
            let ghost mid = out@;
            let mut i: usize = 0;
            while i < d.len()
                invariant
                    i <= d.len(),
                    d@ == dec_digits(n.mantissa as nat),
                    out@ == mid + d@.take(i as int),
                decreases d.len() - i,
            {
                proof {
                    assert(d@.take(i + 1) =~= d@.take(i as int) + seq![d@[i as int]]);
                }
                out.push(d[i]);
                i += 1;
            }
            proof {
                assert(d@.take(d@.len() as int) =~= d@);
            }
        }
    }
}

/// Appends the JSON text of `j`.
#[verifier::loop_isolation(false)]
fn write_value(out: &mut Vec<char>, j: &JsonValue)
    ensures
        final(out)@ == old(out)@ + write_spec(j@),
    decreases j,
{
    match j {
        JsonValue::Null => {
            proof {
                reveal_strlit("null");
            }
            out.push('n');
            out.push('u');
            out.push('l');
            out.push('l');
            proof {
                assert(out@ =~= old(out)@ + "null"@);
            }
        },
        JsonValue::Bool(b) => {
            if *b {
                proof {
                    reveal_strlit("true");
                }
                out.push('t');
                out.push('r');
                out.push('u');
                out.push('e');
                proof {
                    assert(out@ =~= old(out)@ + "true"@);
                }
            } else {
                proof {
                    reveal_strlit("false");
                }
                out.push('f');
                out.push('a');
                out.push('l');
                out.push('s');
                out.push('e');
                proof {
                    assert(out@ =~= old(out)@ + "false"@);
                }
            }
        },
        JsonValue::Num(n) => {
            push_num(out, n);
        },
        JsonValue::Str(s) => {
            push_quoted(out, s.as_str());
            proof {
                assert(out@ =~= old(out)@ + write_spec(j@));
            }
        },
        JsonValue::Arr(items) => {
            let ghost views = jv_view_seq(items@);
            proof {
                jv_view_seq_index(items@);
            }
            out.push('[');
            let ghost base = out@;
            let mut i: usize = 0;
            while i < items.len()
                invariant
                    i <= items.len(),
                    views == jv_view_seq(items@),
                    views.len() == items@.len(),
                    forall|k: int| 0 <= k < items@.len() ==> views[k] == jv_view(items@[k]),
                    j@ == JsonSpec::Arr(views),
                    out@ == base + arr_body(views.take(i as int)),
                decreases items.len() - i,
            {
                if i > 0 {
                    out.push(',');
                }
                proof {
                    assert(decreases_to!(*j => *items));
                    assert(decreases_to!(*items => items@[i as int]));
                }
                write_value(out, &items[i]);
                proof {
                    assert(views.take(i + 1).drop_last() =~= views.take(i as int));
                    assert(views.take(i + 1).last() == jv_view(items@[i as int]));
                    assert(out@ =~= base + arr_body(views.take(i + 1)));
                }
                i += 1;
            }
            out.push(']');
            proof {
                assert(views.take(views.len() as int) =~= views);
                assert(out@ =~= old(out)@ + write_spec(j@));
            }
        },
        JsonValue::Obj(fields) => {
            let ghost views = jv_view_fields(fields@);
            proof {
                jv_view_fields_index(fields@);
            }
            out.push('{');
            let ghost base = out@;
            let mut i: usize = 0;
            while i < fields.len()
                invariant
                    i <= fields.len(),
                    views == jv_view_fields(fields@),
                    views.len() == fields@.len(),
                    forall|k: int|
                        0 <= k < fields@.len() ==> views[k] == (
                        fields@[k].0@,
                        jv_view(fields@[k].1),
                        ),
                    j@ == JsonSpec::Obj(views),
                    out@ == base + obj_body(views.take(i as int)),
                decreases fields.len() - i,
            {
                if i > 0 {
                    out.push(',');
                }
                push_quoted(out, fields[i].0.as_str());
                out.push(':');
                proof {
                    assert(decreases_to!(*j => *fields));
                    assert(decreases_to!(*fields => fields@[i as int]));
                    assert(decreases_to!(fields@[i as int] => fields@[i as int].1));
                }
                write_value(out, &fields[i].1);
                proof {
                    assert(views.take(i + 1).drop_last() =~= views.take(i as int));
                    assert(views.take(i + 1).last() == (
                        fields@[i as int].0@,
                        jv_view(fields@[i as int].1),
                    ));
                    assert(out@ =~= base + obj_body(views.take(i + 1)));
                }
                i += 1;
            }
            out.push('}');
            proof {
                assert(views.take(views.len() as int) =~= views);
                assert(out@ =~= old(out)@ + write_spec(j@));
            }
        },
    }
}

/// Renders `j` as JSON text.
pub fn write_json(j: &JsonValue) -> (r: String)
    ensures
        r@ == write_spec(j@),
{
    let mut out: Vec<char> = Vec::new();
    write_value(&mut out, j);
    string_from_chars(&out)
}

} // verus!
