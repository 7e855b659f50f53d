//! A recursive-descent reader of JSON text into a [`JsonValue`].
//!
//! The spec functions define exactly which texts are accepted and what
//! document they denote: objects, arrays, strings with the usual escapes
//! (including surrogate pairs), numbers kept exactly as sign, digits and a
//! power of ten, and the three literals. The executable reader is proved to
//! return precisely what the spec functions say, so every consumer of a
//! parsed document knows which body texts succeed and what they yield.

use vstd::prelude::*;

use crate::json::value::{jv_view_seq, jv_view_fields, JsonNum, JsonSpec, JsonValue};
use crate::text::string_from_chars;

verus! {

broadcast use vstd::seq::group_seq_axioms, vstd::std_specs::vec::group_vec_axioms,
    vstd::string::group_string_axioms;

/// Relies on `char::from_u32`: yields the character with the given code
/// point, and nothing for a surrogate code point or one above the Unicode
/// maximum.
pub assume_specification[ char::from_u32 ](v: u32) -> (r: Option<char>)
    ensures
        r matches Some(c) ==> c as u32 == v,
        r is Some <==> (v < 0xD800 || (0xE000 <= v && v <= 0x10FFFF)),
;

/// The character with the given code point.
pub open spec fn char_from_code(v: u32) -> char {
    v as char
}

/// JSON insignificant whitespace.
pub open spec fn is_ws_spec(c: char) -> bool {
    c == ' ' || c == '\t' || c == '\n' || c == '\r'
}

/// A decimal digit.
pub open spec fn is_digit_spec(c: char) -> bool {
    c == '0' || c == '1' || c == '2' || c == '3' || c == '4' || c == '5' || c == '6' || c == '7'
        || c == '8' || c == '9'
}

/// The numeric value of a decimal digit.
pub open spec fn digit_val_spec(c: char) -> u64 {
    if c == '0' {
        0
    } else if c == '1' {
        1
    } else if c == '2' {
        2
    } else if c == '3' {
        3
    } else if c == '4' {
        4
    } else if c == '5' {
        5
    } else if c == '6' {
        6
    } else if c == '7' {
        7
    } else if c == '8' {
        8
    } else {
        9
    }
}

/// The numeric value of a hexadecimal digit, if `c` is one.
pub open spec fn hex_val_spec(c: char) -> Option<u32> {
    if is_digit_spec(c) {
        Some(digit_val_spec(c) as u32)
    } else if c == 'a' || c == 'A' {
        Some(10)
    } else if c == 'b' || c == 'B' {
        Some(11)
    } else if c == 'c' || c == 'C' {
        Some(12)
    } else if c == 'd' || c == 'D' {
        Some(13)
    } else if c == 'e' || c == 'E' {
        Some(14)
    } else if c == 'f' || c == 'F' {
        Some(15)
    } else {
        None
    }
}

/// The first position at or after `i` holding something other than
/// whitespace.
pub open spec fn skip_ws_spec(s: Seq<char>, i: int) -> int
    decreases s.len() - i,
{
    if 0 <= i && i < s.len() && is_ws_spec(s[i]) {
        skip_ws_spec(s, i + 1)
    } else {
        i
    }
}

/// Whether the characters `lit` stand at position `i` of `s`.
pub open spec fn lit_at(s: Seq<char>, i: int, lit: Seq<char>) -> bool {
    0 <= i && i + lit.len() <= s.len() && s.subrange(i, i + lit.len()) == lit
}

/// The value of four hexadecimal digits at `i`, if they stand there.
pub open spec fn hex4_spec(s: Seq<char>, i: int) -> Option<u32> {
    if !(0 <= i && i + 4 <= s.len()) {
        None
    } else {
        match (hex_val_spec(s[i]), hex_val_spec(s[i + 1]), hex_val_spec(s[i + 2]), hex_val_spec(
            s[i + 3],
        )) {
            (Some(d0), Some(d1), Some(d2), Some(d3)) => Some(
                (((d0 * 16 + d1) * 16 + d2) * 16 + d3) as u32,
            ),
            _ => None,
        }
    }
}

/// The rest of a string literal from `j` (after the opening quote), with
/// `acc` already read.
pub open spec fn string_body_spec(s: Seq<char>, j: int, acc: Seq<char>) -> Option<
    (Seq<char>, int),
>
    decreases s.len() - j,
{
    if !(0 <= j && j < s.len()) {
        None
    } else {
        let c = s[j];
        if c == '"' {
            Some((acc, j + 1))
        } else if c == '\\' {
            if j + 1 >= s.len() {
                None
            } else {
                let e = s[j + 1];
                if e == '"' {
                    string_body_spec(s, j + 2, acc.push('"'))
                } else if e == '\\' {
                    string_body_spec(s, j + 2, acc.push('\\'))
                } else if e == '/' {
                    string_body_spec(s, j + 2, acc.push('/'))
                } else if e == 'b' {
                    string_body_spec(s, j + 2, acc.push('\u{0008}'))
                } else if e == 'f' {
                    string_body_spec(s, j + 2, acc.push('\u{000c}'))
                } else if e == 'n' {
                    string_body_spec(s, j + 2, acc.push('\n'))
                } else if e == 'r' {
                    string_body_spec(s, j + 2, acc.push('\r'))
                } else if e == 't' {
                    string_body_spec(s, j + 2, acc.push('\t'))
                } else if e == 'u' {
                    match hex4_spec(s, j + 2) {
                        None => None,
                        Some(unit) => if 0xD800 <= unit && unit < 0xDC00 {
                            if s.len() - (j + 6) < 2 || s[j + 6] != '\\' || s[j + 7] != 'u' {
                                None
                            } else {
                                match hex4_spec(s, j + 8) {
                                    None => None,
                                    Some(low) => if !(0xDC00 <= low && low < 0xE000) {
                                        None
                                    } else {
                                        string_body_spec(
                                            s,
                                            j + 12,
                                            acc.push(
                                                char_from_code(
                                                    (0x10000 + (unit - 0xD800) * 0x400 + (low
                                                        - 0xDC00)) as u32,
                                                ),
                                            ),
                                        )
                                    },
                                }
                            }
                        } else if 0xDC00 <= unit && unit < 0xE000 {
                            None
                        } else {
                            string_body_spec(s, j + 6, acc.push(char_from_code(unit)))
                        },
                    }
                } else {
                    None
                }
            }
        } else if (c as u32) < 0x20 {
            None
        } else {
            string_body_spec(s, j + 1, acc.push(c))
        }
    }
}

/// A string literal at `i`.
pub open spec fn parse_string_spec(s: Seq<char>, i: int) -> Option<(Seq<char>, int)> {
    if 0 <= i && i < s.len() && s[i] == '"' {
        string_body_spec(s, i + 1, Seq::empty())
    } else {
        None
    }
}

/// A run of digits accumulated onto `m`; too many digits for 64 bits
/// refuse the text.
pub open spec fn int_digits_spec(s: Seq<char>, j: int, m: u64) -> Option<(u64, int)>
    decreases s.len() - j,
{
    if 0 <= j && j < s.len() && is_digit_spec(s[j]) {
        if m * 10 + digit_val_spec(s[j]) > u64::MAX {
            None
        } else {
            int_digits_spec(s, j + 1, (m * 10 + digit_val_spec(s[j])) as u64)
        }
    } else {
        Some((m, j))
    }
}

/// A run of fraction digits accumulated onto `m`, counted in `count`.
pub open spec fn frac_digits_spec(s: Seq<char>, j: int, m: u64, count: int) -> Option<
    (u64, int, int),
>
    decreases s.len() - j,
{
    if 0 <= j && j < s.len() && is_digit_spec(s[j]) {
        if m * 10 + digit_val_spec(s[j]) > u64::MAX {
            None
        } else {
            frac_digits_spec(s, j + 1, (m * 10 + digit_val_spec(s[j])) as u64, count + 1)
        }
    } else {
        Some((m, count, j))
    }
}

/// A run of exponent digits; an exponent beyond any field this crate reads
/// refuses the text.
pub open spec fn exp_digits_spec(s: Seq<char>, j: int, mag: int) -> Option<(int, int)>
    decreases s.len() - j,
{
    if 0 <= j && j < s.len() && is_digit_spec(s[j]) {
        if mag > 0xffffff {
            None
        } else {
            exp_digits_spec(s, j + 1, mag * 10 + digit_val_spec(s[j]))
        }
    } else {
        Some((mag, j))
    }
}

/// A number at `i`: sign, an integer part without a spurious leading zero,
/// an optional fraction, and an optional exponent.
pub open spec fn parse_number_spec(s: Seq<char>, i: int) -> Option<(JsonNum, int)> {
    if !(0 <= i && i <= s.len()) {
        None
    } else {
        let neg = i < s.len() && s[i] == '-';
        let j0 = if neg {
            i + 1
        } else {
            i
        };
        if !(j0 < s.len() && is_digit_spec(s[j0])) {
            None
        } else {
            let int_part = if s[j0] == '0' {
                Some((0u64, j0 + 1))
            } else {
                int_digits_spec(s, j0, 0)
            };
            match int_part {
                None => None,
                Some((m1, j1)) => {
                    let frac_part = if j1 < s.len() && s[j1] == '.' {
                        if j1 + 1 >= s.len() || !is_digit_spec(s[j1 + 1]) {
                            None
                        } else {
                            frac_digits_spec(s, j1 + 1, m1, 0)
                        }
                    } else {
                        Some((m1, 0, j1))
                    };
                    match frac_part {
                        None => None,
                        Some((m2, c2, j2)) => {
                            let exp_part = if j2 < s.len() && (s[j2] == 'e' || s[j2] == 'E') {
                                let has_sign = j2 + 1 < s.len() && (s[j2 + 1] == '+' || s[j2 + 1]
                                    == '-');
                                let exp_neg = j2 + 1 < s.len() && s[j2 + 1] == '-';
                                let j4 = if has_sign {
                                    j2 + 2
                                } else {
                                    j2 + 1
                                };
                                if !(j4 < s.len() && is_digit_spec(s[j4])) {
                                    None
                                } else {
                                    match exp_digits_spec(s, j4, 0) {
                                        None => None,
                                        Some((mag, j5)) => Some(
                                            (
                                                if exp_neg {
                                                    -mag
                                                } else {
                                                    mag
                                                },
                                                j5,
                                            ),
                                        ),
                                    }
                                }
                            } else {
                                Some((0, j2))
                            };
                            match exp_part {
                                None => None,
                                Some((ev, j6)) => {
                                    if c2 > 0x7fffffff {
                                        None
                                    } else if ev - c2 < -0x80000000 || ev - c2 > 0x7fffffff {
                                        None
                                    } else if j6 <= i {
                                        None
                                    } else {
                                        Some(
                                            (
                                                JsonNum {
                                                    neg,
                                                    mantissa: m2,
                                                    exp: (ev - c2) as i32,
                                                },
                                                j6,
                                            ),
                                        )
                                    }
                                },
                            }
                        },
                    }
                },
            }
        }
    }
}

/// One JSON value at `i`, after optional whitespace.
pub open spec fn parse_value_spec(s: Seq<char>, i: int) -> Option<(JsonSpec, int)>
    decreases s.len() - i, 0int,
{
    if !(0 <= i && i <= s.len()) {
        None
    } else {
        let j = skip_ws_spec(s, i);
        if !(i <= j && j < s.len()) {
            None
        } else {
            let c = s[j];
            if c == 'n' {
                if lit_at(s, j, "null"@) {
                    Some((JsonSpec::Null, j + "null"@.len()))
                } else {
                    None
                }
            } else if c == 't' {
                if lit_at(s, j, "true"@) {
                    Some((JsonSpec::Bool(true), j + "true"@.len()))
                } else {
                    None
                }
            } else if c == 'f' {
                if lit_at(s, j, "false"@) {
                    Some((JsonSpec::Bool(false), j + "false"@.len()))
                } else {
                    None
                }
            } else if c == '"' {
                match parse_string_spec(s, j) {
                    Some((t, p)) => Some((JsonSpec::Str(t), p)),
                    None => None,
                }
            } else if c == '-' || is_digit_spec(c) {
                match parse_number_spec(s, j) {
                    Some((n, p)) => Some((JsonSpec::Num(n), p)),
                    None => None,
                }
            } else if c == '[' {
                parse_array_spec(s, j + 1)
            } else if c == '{' {
                parse_object_spec(s, j + 1)
            } else {
                None
            }
        }
    }
}

/// The rest of an array, just after the opening bracket.
pub open spec fn parse_array_spec(s: Seq<char>, i: int) -> Option<(JsonSpec, int)>
    decreases s.len() - i, 2int,
{
    if !(0 <= i && i <= s.len()) {
        None
    } else {
        let j = skip_ws_spec(s, i);
        if !(i <= j && j <= s.len()) {
            None
        } else if j < s.len() && s[j] == ']' {
            Some((JsonSpec::Arr(Seq::empty()), j + 1))
        } else {
            arr_items_spec(s, j, Seq::empty())
        }
    }
}

/// The elements of an array from `j`, with `acc` already read.
pub open spec fn arr_items_spec(s: Seq<char>, j: int, acc: Seq<JsonSpec>) -> Option<
    (JsonSpec, int),
>
    decreases s.len() - j, 1int,
{
    if !(0 <= j && j <= s.len()) {
        None
    } else {
        match parse_value_spec(s, j) {
            None => None,
            Some((v, p)) => if !(j < p && p <= s.len()) {
                None
            } else {
                let q = skip_ws_spec(s, p);
                if !(p <= q && q <= s.len()) {
                    None
                } else if q < s.len() && s[q] == ',' {
                    arr_items_spec(s, q + 1, acc.push(v))
                } else if q < s.len() && s[q] == ']' {
                    Some((JsonSpec::Arr(acc.push(v)), q + 1))
                } else {
                    None
                }
            },
        }
    }
}

/// The rest of an object, just after the opening brace.
pub open spec fn parse_object_spec(s: Seq<char>, i: int) -> Option<(JsonSpec, int)>
    decreases s.len() - i, 2int,
{
    if !(0 <= i && i <= s.len()) {
        None
    } else {
        let j = skip_ws_spec(s, i);
        if !(i <= j && j <= s.len()) {
            None
        } else if j < s.len() && s[j] == '}' {
            Some((JsonSpec::Obj(Seq::empty()), j + 1))
        } else {
            obj_fields_spec(s, j, Seq::empty())
        }
    }
}

/// The fields of an object from `j`, with `acc` already read.
pub open spec fn obj_fields_spec(
    s: Seq<char>,
    j: int,
    acc: Seq<(Seq<char>, JsonSpec)>,
) -> Option<(JsonSpec, int)>
    decreases s.len() - j, 1int,
{
    if !(0 <= j && j <= s.len()) {
        None
    } else {
        let k = skip_ws_spec(s, j);
        if !(j <= k && k <= s.len()) {
            None
        } else {
            match parse_string_spec(s, k) {
                None => None,
                Some((key, p)) => if !(k < p && p <= s.len()) {
                    None
                } else {
                    let colon = skip_ws_spec(s, p);
                    if !(p <= colon && colon <= s.len()) {
                        None
                    } else if !(colon < s.len() && s[colon] == ':') {
                        None
                    } else {
                        match parse_value_spec(s, colon + 1) {
                            None => None,
                            Some((v, q)) => if !(colon + 1 < q && q <= s.len()) {
                                None
                            } else {
                                let t = skip_ws_spec(s, q);
                                if !(q <= t && t <= s.len()) {
                                    None
                                } else if t < s.len() && s[t] == ',' {
                                    obj_fields_spec(s, t + 1, acc.push((key, v)))
                                } else if t < s.len() && s[t] == '}' {
                                    Some((JsonSpec::Obj(acc.push((key, v))), t + 1))
                                } else {
                                    None
                                }
                            },
                        }
                    }
                },
            }
        }
    }
}

/// The document a complete text denotes: one value, with nothing but
/// whitespace around it.
pub open spec fn json_parse_spec(t: Seq<char>) -> Option<JsonSpec> {
    match parse_value_spec(t, 0) {
        None => None,
        Some((v, p)) => if 0 <= p && p <= t.len() && skip_ws_spec(t, p) == t.len() {
            Some(v)
        } else {
            None
        },
    }
}

/// JSON insignificant whitespace.
fn is_ws(c: char) -> (r: bool)
    ensures
        r == is_ws_spec(c),
{
    c == ' ' || c == '\t' || c == '\n' || c == '\r'
}

/// A decimal digit.
fn is_digit(c: char) -> (r: bool)
    ensures
        r == is_digit_spec(c),
{
    c == '0' || c == '1' || c == '2' || c == '3' || c == '4' || c == '5' || c == '6' || c == '7'
        || c == '8' || c == '9'
}

/// The numeric value of a decimal digit.
fn digit_val(c: char) -> (r: u64)
    ensures
        r == digit_val_spec(c),
        r < 10,
{
    if c == '0' {
        0
    } else if c == '1' {
        1
    } else if c == '2' {
        2
    } else if c == '3' {
        3
    } else if c == '4' {
        4
    } else if c == '5' {
        5
    } else if c == '6' {
        6
    } else if c == '7' {
        7
    } else if c == '8' {
        8
    } else {
        9
    }
}

/// The numeric value of a hexadecimal digit, if `c` is one.
fn hex_val(c: char) -> (r: Option<u32>)
    ensures
        r == hex_val_spec(c),
        r matches Some(d) ==> d < 16,
{
    if is_digit(c) {
        Some(digit_val(c) as u32)
    } else if c == 'a' || c == 'A' {
        Some(10)
    } else if c == 'b' || c == 'B' {
        Some(11)
    } else if c == 'c' || c == 'C' {
        Some(12)
    } else if c == 'd' || c == 'D' {
        Some(13)
    } else if c == 'e' || c == 'E' {
        Some(14)
    } else if c == 'f' || c == 'F' {
        Some(15)
    } else {
        None
    }
}

/// The first position at or after `i` holding something other than
/// whitespace.
fn skip_ws(s: &Vec<char>, i: usize) -> (r: usize)
    requires
        i <= s@.len(),
    ensures
        i <= r <= s@.len(),
        r == skip_ws_spec(s@, i as int),
{
    let mut j: usize = i;
    while j < s.len() && is_ws(s[j])
        invariant
            i <= j <= s@.len(),
            skip_ws_spec(s@, i as int) == skip_ws_spec(s@, j as int),
        decreases s@.len() - j,
    {
        j += 1;
    }
    j
}

/// Consumes the literal characters `lit` at `i`.
fn expect_lit(s: &Vec<char>, i: usize, lit: &Vec<char>) -> (r: Option<usize>)
    requires
        i <= s@.len(),
    ensures
        match r {
            Some(p) => lit_at(s@, i as int, lit@) && p == i + lit@.len(),
            None => !lit_at(s@, i as int, lit@),
        },
{
    if lit.len() > s.len() - i {
        return None;
    }
    let mut k: usize = 0;
    let mut p: usize = i;
    while k < lit.len()
        invariant
            0 <= k <= lit@.len(),
            p == i + k,
            i + lit@.len() <= s.len(),
            forall|m: int| 0 <= m < k ==> s@[i + m] == lit@[m],
        decreases lit@.len() - k,
    {
        if s[p] != lit[k] {
            proof {
                if lit_at(s@, i as int, lit@) {
                    assert(s@.subrange(i as int, i + lit@.len())[k as int] == s@[i + k]);
                }
            }
            return None;
        }
        k += 1;
        p += 1;
    }
    proof {
        assert(s@.subrange(i as int, i + lit@.len()) =~= lit@);
    }
    Some(p)
}

/// Reads four hexadecimal digits at `i`.
fn parse_hex4(s: &Vec<char>, i: usize) -> (r: Option<u32>)
    ensures
        r == hex4_spec(s@, i as int),
        r matches Some(u) ==> u < 0x10000,
        r is Some ==> i + 4 <= s@.len(),
{
    if i > s.len() || s.len() - i < 4 {
        return None;
    }
    let d0 = match hex_val(s[i]) {
        Some(d) => d,
        None => { return None; },
    };
    let d1 = match hex_val(s[i + 1]) {
        Some(d) => d,
        None => { return None; },
    };
    let d2 = match hex_val(s[i + 2]) {
        Some(d) => d,
        None => { return None; },
    };
    let d3 = match hex_val(s[i + 3]) {
        Some(d) => d,
        None => { return None; },
    };
    Some(((d0 * 16 + d1) * 16 + d2) * 16 + d3)
}

/// Reads a JSON string literal starting at the opening quote.
#[verifier::loop_isolation(false)]
fn parse_string(s: &Vec<char>, i: usize) -> (r: Option<(String, usize)>)
    requires
        i <= s@.len(),
    ensures
        r matches Some(p) ==> i < p.1 <= s@.len(),
        match r {
            Some(p) => parse_string_spec(s@, i as int) == Some((p.0@, p.1 as int)),
            None => parse_string_spec(s@, i as int) is None,
        },
{
    if i >= s.len() || s[i] != '"' {
        return None;
    }
    let mut out: Vec<char> = Vec::new();
    let mut j: usize = i + 1;
    loop
        invariant
            i < j <= s@.len(),
            string_body_spec(s@, i + 1, Seq::empty()) == string_body_spec(s@, j as int, out@),
        decreases s@.len() - j,
    {
        if j >= s.len() {
            return None;
        }
        let c = s[j];
        if c == '"' {
            return Some((string_from_chars(&out), j + 1));
        }
        if c == '\\' {
            if j + 1 >= s.len() {
                return None;
            }
            let e = s[j + 1];
            if e == '"' {
                out.push('"');
                j += 2;
            } else if e == '\\' {
                out.push('\\');
                j += 2;
            } else if e == '/' {
                out.push('/');
                j += 2;
            } else if e == 'b' {
                out.push('\u{0008}');
                j += 2;
            } else if e == 'f' {
                out.push('\u{000c}');
                j += 2;
            } else if e == 'n' {
                out.push('\n');
                j += 2;
            } else if e == 'r' {
                out.push('\r');
                j += 2;
            } else if e == 't' {
                out.push('\t');
                j += 2;
            } else if e == 'u' {
                let unit = match parse_hex4(s, j + 2) {
                    Some(u) => u,
                    None => { return None; },
                };
                if 0xD800 <= unit && unit < 0xDC00 {
                    // A high surrogate must be followed by an escaped low
                    // surrogate; the pair addresses one supplementary
                    // character.
                    if s.len() - (j + 6) < 2 || s[j + 6] != '\\' || s[j + 7] != 'u' {
                        return None;
                    }
                    let low = match parse_hex4(s, j + 8) {
                        Some(u) => u,
                        None => { return None; },
                    };
                    if !(0xDC00 <= low && low < 0xE000) {
                        return None;
                    }
                    let code: u32 = 0x10000 + ((unit - 0xD800) * 0x400) + (low - 0xDC00);
                    match char::from_u32(code) {
                        Some(ch) => {
                            proof {
                                vstd::utf8::char_u32_cast(ch, code);
                            }
                            out.push(ch);
                        },
                        None => { return None; },
                    }
                    j += 12;
                } else {
                    match char::from_u32(unit) {
                        Some(ch) => {
                            proof {
                                vstd::utf8::char_u32_cast(ch, unit);
                            }
                            out.push(ch);
                        },
                        None => { return None; },
                    }
                    j += 6;
                }
            } else {
                return None;
            }
        } else if (c as u32) < 0x20 {
            return None;
        } else {
            out.push(c);
            j += 1;
        }
    }
}

/// Reads a JSON number starting at its sign or first digit.
#[verifier::loop_isolation(false)]
fn parse_number(s: &Vec<char>, i: usize) -> (r: Option<(JsonNum, usize)>)
    requires
        i <= s@.len(),
    ensures
        r matches Some(p) ==> i < p.1 <= s@.len(),
        match r {
            Some(p) => parse_number_spec(s@, i as int) == Some((p.0, p.1 as int)),
            None => parse_number_spec(s@, i as int) is None,
        },
{
    let mut j: usize = i;
    let mut neg: bool = false;
    if j < s.len() && s[j] == '-' {
        neg = true;
        j += 1;
    }
    if j >= s.len() || !is_digit(s[j]) {
        return None;
    }
    let ghost j0 = j as int;
    let mut mantissa: u64 = 0;
    // The integer part: a lone zero, or digits without a leading zero.
    if s[j] == '0' {
        j += 1;
    } else {
        while j < s.len() && is_digit(s[j])
            invariant
                i <= j <= s@.len(),
                int_digits_spec(s@, j0, 0) == int_digits_spec(s@, j as int, mantissa),
            decreases s@.len() - j,
        {
            mantissa = match mantissa.checked_mul(10) {
                Some(m) => m,
                None => { return None; },
            };
            mantissa = match mantissa.checked_add(digit_val(s[j])) {
                Some(m) => m,
                None => { return None; },
            };
            j += 1;
        }
    }
    let ghost m1 = mantissa;
    let ghost j1 = j as int;
    let mut frac_len: u64 = 0;
    if j < s.len() && s[j] == '.' {
        if j + 1 >= s.len() || !is_digit(s[j + 1]) {
            return None;
        }
        j += 1;
        while j < s.len() && is_digit(s[j])
            invariant
                i <= j <= s@.len(),
                frac_len <= j,
                frac_digits_spec(s@, j1 + 1, m1, 0) == frac_digits_spec(
                    s@,
                    j as int,
                    mantissa,
                    frac_len as int,
                ),
            decreases s@.len() - j,
        {
            mantissa = match mantissa.checked_mul(10) {
                Some(m) => m,
                None => { return None; },
            };
            mantissa = match mantissa.checked_add(digit_val(s[j])) {
                Some(m) => m,
                None => { return None; },
            };
            frac_len += 1;
            j += 1;
        }
    }
    let ghost m2 = mantissa;
    let ghost c2 = frac_len as int;
    let ghost j2 = j as int;
    let mut exp_val: i64 = 0;
    if j < s.len() && (s[j] == 'e' || s[j] == 'E') {
        j += 1;
        let mut exp_neg: bool = false;
        if j < s.len() && (s[j] == '+' || s[j] == '-') {
            exp_neg = s[j] == '-';
            j += 1;
        }
        if j >= s.len() || !is_digit(s[j]) {
            return None;
        }
        let ghost j4 = j as int;
        let mut mag: i64 = 0;
        while j < s.len() && is_digit(s[j])
            invariant
                i <= j <= s@.len(),
                0 <= mag <= 0x7fffffff,
                exp_digits_spec(s@, j4, 0) == exp_digits_spec(s@, j as int, mag as int),
            decreases s@.len() - j,
        {
            if mag > 0xffffff {
                // An exponent this large can only address a value outside
                // any field this crate reads; refuse it rather than round.
                return None;
            }
            mag = mag * 10 + digit_val(s[j]) as i64;
            j += 1;
        }
        exp_val = if exp_neg {
            -mag
        } else {
            mag
        };
    }
    if frac_len > 0x7fffffff {
        return None;
    }
    let exp_total: i64 = exp_val - frac_len as i64;
    if exp_total < -0x80000000i64 || exp_total > 0x7fffffffi64 {
        return None;
    }
    if j <= i {
        return None;
    }
    Some((JsonNum { neg, mantissa, exp: exp_total as i32 }, j))
}

/// Reads one JSON value starting at `i`, after optional whitespace.
fn parse_value(s: &Vec<char>, i: usize) -> (r: Option<(JsonValue, usize)>)
    requires
        i <= s@.len(),
    ensures
        r matches Some(p) ==> i < p.1 <= s@.len(),
        match r {
            Some(p) => parse_value_spec(s@, i as int) == Some((p.0@, p.1 as int)),
            None => parse_value_spec(s@, i as int) is None,
        },
    decreases s@.len() - i, 0int,
{
    let j = skip_ws(s, i);
    if j >= s.len() {
        return None;
    }
    let c = s[j];
    if c == 'n' {
        let lit: Vec<char> = vec!['n', 'u', 'l', 'l'];
        proof {
            reveal_strlit("null");
            assert(lit@ =~= "null"@);
        }
        match expect_lit(s, j, &lit) {
            Some(p) => Some((JsonValue::Null, p)),
            None => None,
        }
    } else if c == 't' {
        let lit: Vec<char> = vec!['t', 'r', 'u', 'e'];
        proof {
            reveal_strlit("true");
            assert(lit@ =~= "true"@);
        }
        match expect_lit(s, j, &lit) {
            Some(p) => Some((JsonValue::Bool(true), p)),
            None => None,
        }
    } else if c == 'f' {
        let lit: Vec<char> = vec!['f', 'a', 'l', 's', 'e'];
        proof {
            reveal_strlit("false");
            assert(lit@ =~= "false"@);
        }
        match expect_lit(s, j, &lit) {
            Some(p) => Some((JsonValue::Bool(false), p)),
            None => None,
        }
    } else if c == '"' {
        match parse_string(s, j) {
            Some((text, p)) => Some((JsonValue::Str(text), p)),
            None => None,
        }
    } else if c == '-' || is_digit(c) {
        match parse_number(s, j) {
            Some((num, p)) => Some((JsonValue::Num(num), p)),
            None => None,
        }
    } else if c == '[' {
        parse_array(s, j + 1)
    } else if c == '{' {
        parse_object(s, j + 1)
    } else {
        None
    }
}

/// Reads the rest of an array, starting just after the opening bracket.
#[verifier::loop_isolation(false)]
fn parse_array(s: &Vec<char>, i: usize) -> (r: Option<(JsonValue, usize)>)
    requires
        i <= s@.len(),
    ensures
        r matches Some(p) ==> i <= p.1 <= s@.len(),
        match r {
            Some(p) => parse_array_spec(s@, i as int) == Some((p.0@, p.1 as int)),
            None => parse_array_spec(s@, i as int) is None,
        },
    decreases s@.len() - i, 1int,
{
    let mut items: Vec<JsonValue> = Vec::new();
    let mut j: usize = skip_ws(s, i);
    if j < s.len() && s[j] == ']' {
        proof {
            assert(jv_view_seq(items@) =~= Seq::<JsonSpec>::empty());
        }
        return Some((JsonValue::Arr(items), j + 1));
    }
    proof {
        assert(jv_view_seq(items@) =~= Seq::<JsonSpec>::empty());
    }
    loop
        invariant
            i <= j <= s@.len(),
            parse_array_spec(s@, i as int) == arr_items_spec(s@, j as int, jv_view_seq(items@)),
        decreases s@.len() - j,
    {
        let (item, p) = match parse_value(s, j) {
            Some(x) => x,
            None => { return None; },
        };
        let ghost items0 = items@;
        let ghost acc0 = jv_view_seq(items@);
        let ghost itemv = item@;
        items.push(item);
        proof {
            assert(items@.drop_last() =~= items0);
            assert(jv_view_seq(items@) == acc0.push(itemv));
        }
        let q = skip_ws(s, p);
        if q < s.len() && s[q] == ',' {
            j = q + 1;
        } else if q < s.len() && s[q] == ']' {
            return Some((JsonValue::Arr(items), q + 1));
        } else {
            return None;
        }
    }
}

/// Reads the rest of an object, starting just after the opening brace.
#[verifier::loop_isolation(false)]
fn parse_object(s: &Vec<char>, i: usize) -> (r: Option<(JsonValue, usize)>)
    requires
        i <= s@.len(),
    ensures
        r matches Some(p) ==> i <= p.1 <= s@.len(),
        match r {
            Some(p) => parse_object_spec(s@, i as int) == Some((p.0@, p.1 as int)),
            None => parse_object_spec(s@, i as int) is None,
        },
    decreases s@.len() - i, 1int,
{
    let mut fields: Vec<(String, JsonValue)> = Vec::new();
    let mut j: usize = skip_ws(s, i);
    if j < s.len() && s[j] == '}' {
        proof {
            assert(jv_view_fields(fields@) =~= Seq::<(Seq<char>, JsonSpec)>::empty());
        }
        return Some((JsonValue::Obj(fields), j + 1));
    }
    proof {
        assert(jv_view_fields(fields@) =~= Seq::<(Seq<char>, JsonSpec)>::empty());
    }
    loop
        invariant
            i <= j <= s@.len(),
            parse_object_spec(s@, i as int) == obj_fields_spec(
                s@,
                j as int,
                jv_view_fields(fields@),
            ),
        decreases s@.len() - j,
    {
        let k = skip_ws(s, j);
        let (key, p) = match parse_string(s, k) {
            Some(x) => x,
            None => { return None; },
        };
        let colon = skip_ws(s, p);
        if !(colon < s.len() && s[colon] == ':') {
            return None;
        }
        let (val, q) = match parse_value(s, colon + 1) {
            Some(x) => x,
            None => { return None; },
        };
        let ghost fields0 = fields@;
        let ghost acc0 = jv_view_fields(fields@);
        let ghost key_view = key@;
        let ghost valv = val@;
        fields.push((key, val));
        proof {
            assert(fields@.drop_last() =~= fields0);
            assert(jv_view_fields(fields@) == acc0.push((key_view, valv)));
        }
        let t = skip_ws(s, q);
        if t < s.len() && s[t] == ',' {
            j = t + 1;
        } else if t < s.len() && s[t] == '}' {
            return Some((JsonValue::Obj(fields), t + 1));
        } else {
            return None;
        }
    }
}

/// Reads a complete JSON document; trailing content other than whitespace
/// is refused.
pub fn parse_json(text: &str) -> (r: Option<JsonValue>)
    ensures
        match r {
            Some(v) => json_parse_spec(text@) == Some(v@),
            None => json_parse_spec(text@) is None,
        },
{
    let s = crate::text::str_chars(text);
    let (value, p) = match parse_value(&s, 0) {
        Some(x) => x,
        None => { return None; },
    };
    let q = skip_ws(&s, p);
    if q == s.len() {
        Some(value)
    } else {
        None
    }
}

} // verus!
