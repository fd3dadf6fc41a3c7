//! Conversion between the three temperature scales.
//!
//! Each pairwise formula is stated over the exact rational model:
//! Celsius to Fahrenheit is `v * 9/5 + 32`, Fahrenheit to Celsius is
//! `(v - 32) * 5/9`, Celsius to Kelvin is `v + 273.15`, Kelvin to
//! Celsius is `v - 273.15`; the Fahrenheit/Kelvin directions compose
//! through Celsius. A same-scale conversion returns its input
//! unchanged rather than recomputing it through the formulas.

use vstd::prelude::*;

use crate::rat::Rat;
use crate::rat::lemma_scale_eq;
use crate::scale::Scale;
use crate::temp::Temp;

verus! {

/// Numerator magnitude up to which one formula step cannot overflow.
pub const STEP_NUM_BOUND: i64 = 0x200_0000_0000_0000;

/// Denominator bound up to which one formula step cannot overflow.
pub const STEP_DEN_BOUND: i64 = 0x2_0000_0000_0000;

/// Celsius to Fahrenheit: `v * 9/5 + 32`.
pub open spec fn spec_ctof(v: Rat) -> Rat {
    v.mul(Rat::frac(9, 5)).add(Rat::int_val(32))
}

/// Fahrenheit to Celsius: `(v - 32) * 5/9`.
pub open spec fn spec_ftoc(v: Rat) -> Rat {
    v.sub(Rat::int_val(32)).mul(Rat::frac(5, 9))
}

/// Celsius to Kelvin: `v + 273.15`, with `273.15 == 5463/20`.
pub open spec fn spec_ctok(v: Rat) -> Rat {
    v.add(Rat::frac(5463, 20))
}

/// Kelvin to Celsius: `v - 273.15`, with `273.15 == 5463/20`.
pub open spec fn spec_ktoc(v: Rat) -> Rat {
    v.sub(Rat::frac(5463, 20))
}

/// The converted value for each pair of scales; the value itself when
/// the scales coincide.
pub open spec fn spec_convert(from: Scale, to: Scale, v: Rat) -> Rat {
    match from {
        Scale::Celsius => match to {
            Scale::Fahrenheit => spec_ctof(v),
            Scale::Kelvin => spec_ctok(v),
            Scale::Celsius => v,
        },
        Scale::Fahrenheit => match to {
            Scale::Fahrenheit => v,
            Scale::Kelvin => spec_ctok(spec_ftoc(v)),
            Scale::Celsius => spec_ftoc(v),
        },
        Scale::Kelvin => match to {
            Scale::Fahrenheit => spec_ctof(spec_ktoc(v)),
            Scale::Kelvin => v,
            Scale::Celsius => spec_ktoc(v),
        },
    }
}

/// Converting a temperature to its own scale returns it unchanged,
/// for every scale and every value.
pub proof fn lemma_convert_identity(s: Scale, v: Rat)
    ensures
        spec_convert(s, s, v) == v,
{
}

/// Converting to another scale and back returns the original value,
/// exactly, for every pair of scales and every well-formed value.
pub proof fn lemma_convert_round_trip(a: Scale, b: Scale, v: Rat)
    requires
        v.wf(),
    ensures
        spec_convert(a, b, spec_convert(b, a, v)).eq_rat(v),
{
    let w = spec_convert(a, b, spec_convert(b, a, v));
    match (a, b) {
        (Scale::Celsius, Scale::Fahrenheit) | (Scale::Fahrenheit, Scale::Celsius) => {
            assert(w == Rat::frac(45 * v.num, 45 * v.den));
            lemma_scale_eq(v, 45);
        },
        (Scale::Celsius, Scale::Kelvin) | (Scale::Kelvin, Scale::Celsius) => {
            assert(w == Rat::frac(400 * v.num, 400 * v.den));
            lemma_scale_eq(v, 400);
        },
        (Scale::Fahrenheit, Scale::Kelvin) | (Scale::Kelvin, Scale::Fahrenheit) => {
            assert(w == Rat::frac(18000 * v.num, 18000 * v.den));
            lemma_scale_eq(v, 18000);
        },
        _ => {
            assert(w == v);
            assert(w.eq_rat(v));
        },
    }
}

/// Fahrenheit to Celsius: `(v - 32) * 5/9`.
pub fn ftoc(from: Temp) -> (r: Temp)
    requires
        from.wf(),
        -STEP_NUM_BOUND <= from.num <= STEP_NUM_BOUND,
        from.den <= STEP_DEN_BOUND,
    ensures
        r@ == spec_ftoc(from@),
        r.wf(),
{
    Temp::new(5 * from.num - 160 * from.den, 9 * from.den)
}

/// Celsius to Fahrenheit: `v * 9/5 + 32`.
pub fn ctof(from: Temp) -> (r: Temp)
    requires
        from.wf(),
        -STEP_NUM_BOUND <= from.num <= STEP_NUM_BOUND,
        from.den <= STEP_DEN_BOUND,
    ensures
        r@ == spec_ctof(from@),
        r.wf(),
{
    Temp::new(9 * from.num + 160 * from.den, 5 * from.den)
}

/// Kelvin to Celsius: `v - 273.15`.
pub fn ktoc(from: Temp) -> (r: Temp)
    requires
        from.wf(),
        -STEP_NUM_BOUND <= from.num <= STEP_NUM_BOUND,
        from.den <= STEP_DEN_BOUND,
    ensures
        r@ == spec_ktoc(from@),
        r.wf(),
{
    Temp::new(20 * from.num - 5463 * from.den, 20 * from.den)
}

/// Celsius to Kelvin: `v + 273.15`.
pub fn ctok(from: Temp) -> (r: Temp)
    requires
        from.wf(),
        -STEP_NUM_BOUND <= from.num <= STEP_NUM_BOUND,
        from.den <= STEP_DEN_BOUND,
    ensures
        r@ == spec_ctok(from@),
        r.wf(),
{
    Temp::new(20 * from.num + 5463 * from.den, 20 * from.den)
}

/// Converts `input` from scale `from` to scale `to`. A same-scale
/// request hands the input back unchanged.
pub fn convert(from: Scale, to: Scale, input: Temp) -> (r: Temp)
    requires
        input.wf(),
        input.in_range(),
    ensures
        r@ == spec_convert(from, to, input@),
        from == to ==> r == input,
        r.wf(),
{
    match from {
        Scale::Celsius => match to {
            Scale::Fahrenheit => ctof(input),
            Scale::Kelvin => ctok(input),
            Scale::Celsius => input,
        },
        Scale::Fahrenheit => match to {
            Scale::Fahrenheit => input,
            Scale::Kelvin => ctok(ftoc(input)),
            Scale::Celsius => ftoc(input),
        },
        Scale::Kelvin => match to {
            Scale::Fahrenheit => ctof(ktoc(input)),
            Scale::Kelvin => input,
            Scale::Celsius => ktoc(input),
        },
    }
}

} // verus!
