//! Signed fixed-point numbers with four decimal places, used for
//! geographic coordinates and kilometre distances.

use vstd::prelude::*;

use crate::json::value::JsonNum;
use crate::text::{dec_digits, digit_char, push_dec};

verus! {

broadcast use vstd::seq::group_seq_axioms, vstd::std_specs::vec::group_vec_axioms;

/// Ten to the `n`.
pub open spec fn pow10(n: nat) -> nat
    decreases n,
{
    if n == 0 {
        1
    } else {
        10 * pow10((n - 1) as nat)
    }
}

/// Ten to the power of anything does not shrink as the exponent grows.
pub proof fn lemma_pow10_increases(a: nat, b: nat)
    requires
        a <= b,
    ensures
        pow10(a) <= pow10(b),
    decreases b,
{
    if a < b {
        lemma_pow10_increases(a, (b - 1) as nat);
    }
}

/// The first nineteen powers of ten fit in 64 bits.
pub proof fn lemma_pow10_19()
    ensures
        pow10(19) == 10_000_000_000_000_000_000,
{
    reveal_with_fuel(pow10, 20);
}

/// Ten to the `k`, for exponents that fit in 64 bits.
pub fn pow10_u64(k: u64) -> (r: u64)
    requires
        k <= 19,
    ensures
        r == pow10(k as nat),
{
    let mut r: u64 = 1;
    let mut i: u64 = 0;
    while i < k
        invariant
            i <= k <= 19,
            r == pow10(i as nat),
        decreases k - i,
    {
        proof {
            lemma_pow10_increases(i as nat, 18);
            lemma_pow10_19();
        }
        r = r * 10;
        i = i + 1;
    }
    r
}

/// A signed count of ten-thousandths. `neg` is never set on a zero
/// magnitude, so every value has one representation.
#[derive(Clone, Copy, PartialEq, Eq, Structural, Debug)]
pub struct Fixed {
    pub neg: bool,
    pub mag: u64,
}

impl Fixed {
    /// One representation per value.
    pub open spec fn wf(self) -> bool {
        self.mag == 0 ==> !self.neg
    }

    /// The value, counted in ten-thousandths.
    pub open spec fn value(self) -> int {
        if self.neg {
            -(self.mag as int)
        } else {
            self.mag as int
        }
    }

    /// Builds the value of `mag` ten-thousandths, negative when `neg`.
    pub fn new(neg: bool, mag: u64) -> (r: Fixed)
        ensures
            r.wf(),
            r.mag == mag,
            r.neg == (neg && mag != 0),
    {
        Fixed { neg: neg && mag != 0, mag }
    }
}

/// The decimal rendering of `f`: an optional sign, the whole part, a point,
/// and exactly four fraction digits.
pub open spec fn fixed_chars(f: Fixed) -> Seq<char> {
    let frac = (f.mag % 10000) as nat;
    let digits = dec_digits((f.mag / 10000) as nat) + seq![
        '.',
        digit_char(frac / 1000),
        digit_char((frac / 100) % 10),
        digit_char((frac / 10) % 10),
        digit_char(frac % 10),
    ];
    if f.neg {
        seq!['-'] + digits
    } else {
        digits
    }
}

/// Appends the decimal rendering of `f`.
pub fn push_fixed(out: &mut Vec<char>, f: &Fixed)
    ensures
        final(out)@ == old(out)@ + fixed_chars(*f),
{
    if f.neg {
        out.push('-');
    }
    push_dec(out, f.mag / 10000);
    let frac: u64 = f.mag % 10000;
    out.push('.');
    out.push(crate::text::digit_char_exec(frac / 1000));
    out.push(crate::text::digit_char_exec((frac / 100) % 10));
    out.push(crate::text::digit_char_exec((frac / 10) % 10));
    out.push(crate::text::digit_char_exec(frac % 10));
    proof {
        assert(final(out)@ =~= old(out)@ + fixed_chars(*f));
    }
}

/// The decimal rendering of `f`, as a string.
pub fn fixed_to_string(f: &Fixed) -> (r: String)
    ensures
        r@ == fixed_chars(*f),
{
    let mut out: Vec<char> = Vec::new();
    push_fixed(&mut out, f);
    crate::text::string_from_chars(&out)
}

/// The JSON number denoting exactly the value of `f`.
pub open spec fn fixed_num_spec(f: Fixed) -> JsonNum {
    JsonNum { neg: f.neg, mantissa: f.mag, exp: -4i32 }
}

/// Renders `f` as a JSON number.
pub fn fixed_to_num(f: &Fixed) -> (r: JsonNum)
    ensures
        r == fixed_num_spec(*f),
{
    JsonNum { neg: f.neg, mantissa: f.mag, exp: -4 }
}

/// The fixed-point reading of a JSON number: the value scaled to
/// ten-thousandths, truncated toward zero; nothing when the scaled
/// magnitude cannot be counted in 64 bits.
pub open spec fn num_fixed_spec(n: JsonNum) -> Option<Fixed> {
    let scale = n.exp + 4;
    if scale >= 0 {
        if n.mantissa * pow10(scale as nat) <= u64::MAX {
            let mag = (n.mantissa * pow10(scale as nat)) as u64;
            Some(Fixed { neg: n.neg && mag != 0, mag })
        } else {
            None
        }
    } else {
        let mag = (n.mantissa as nat / pow10((-scale) as nat)) as u64;
        Some(Fixed { neg: n.neg && mag != 0, mag })
    }
}

/// The twentieth power of ten is beyond 64 bits.
proof fn lemma_pow10_20()
    ensures
        pow10(20) == 100_000_000_000_000_000_000,
{
    reveal_with_fuel(pow10, 21);
}

/// Division by a larger power of ten truncates to zero.
proof fn lemma_div_large_pow10(m: u64, k: nat)
    requires
        k >= 20,
    ensures
        m as nat / pow10(k) == 0,
{
    lemma_pow10_20();
    lemma_pow10_increases(20, k);
    assert((m as nat) < pow10(k));
    vstd::arithmetic::div_mod::lemma_basic_div(m as int, pow10(k) as int);
}

/// Reads a JSON number as a fixed-point value.
pub fn num_to_fixed(n: &JsonNum) -> (r: Option<Fixed>)
    ensures
        r == num_fixed_spec(*n),
        r matches Some(f) ==> f.wf(),
{
    if n.exp >= -4 {
        // The exponent leaves at most whole ten-thousandths: scale up.
        let scale: i64 = n.exp as i64 + 4;
        if scale > 19 {
            if n.mantissa == 0 {
                proof {
                    assert(n.mantissa * pow10((n.exp + 4) as nat) == 0) by {
                        assert(n.mantissa == 0);
                    }
                }
                return Some(Fixed { neg: false, mag: 0 });
            }
            proof {
                lemma_pow10_20();
                lemma_pow10_increases(20, (n.exp + 4) as nat);
                assert(n.mantissa * pow10((n.exp + 4) as nat) >= 1 * pow10((n.exp + 4) as nat))
                    by (nonlinear_arith)
                    requires
                        n.mantissa >= 1,
                ;
            }
            return None;
        }
        let p = pow10_u64(scale as u64);
        match n.mantissa.checked_mul(p) {
            Some(mag) => Some(Fixed { neg: n.neg && mag != 0, mag }),
            None => None,
        }
    } else {
        // The exponent reaches below ten-thousandths: truncate.
        let down: i64 = -(n.exp as i64) - 4;
        if down > 19 {
            proof {
                lemma_div_large_pow10(n.mantissa, (-(n.exp + 4)) as nat);
            }
            return Some(Fixed { neg: false, mag: 0 });
        }
        let p = pow10_u64(down as u64);
        proof {
            assert(pow10((down as u64) as nat) >= 1) by {
                lemma_pow10_increases(0, (down as u64) as nat);
            }
        }
        let mag: u64 = n.mantissa / p;
        Some(Fixed { neg: n.neg && mag != 0, mag })
    }
}

/// Rendering a fixed-point value as a JSON number and reading it back
/// yields the value unchanged.
pub proof fn lemma_fixed_num_round_trip(f: Fixed)
    requires
        f.wf(),
    ensures
        num_fixed_spec(fixed_num_spec(f)) == Some(f),
{
    let n = fixed_num_spec(f);
    assert(n.exp + 4 == 0);
    assert(pow10(0) == 1);
    assert(n.mantissa * 1 == f.mag);
}

} // verus!
