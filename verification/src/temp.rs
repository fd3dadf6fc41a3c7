//! Executable temperature values.
//!
//! A `Temp` carries a temperature as an exact fraction of two machine
//! integers, viewed as a `Rat`. The conversion formulas only ever scale
//! by small constant fractions, so results stay exact; bounds on the
//! fields keep every intermediate product inside `i64`.

use vstd::prelude::*;

use crate::rat::Rat;

verus! {

/// Magnitude bound on the numerator and denominator of a conversion
/// input; chosen so that chained conversion formulas cannot overflow.
pub const VAL_BOUND: i64 = 0x1000_0000_0000;

/// A temperature value, held exactly as `num / den`.
#[derive(Clone, Copy, Debug)]
pub struct Temp {
    pub num: i64,
    pub den: i64,
}

impl View for Temp {
    type V = Rat;

    open spec fn view(&self) -> Rat {
        Rat { num: self.num as int, den: self.den as int }
    }
}

impl Temp {
    /// Well-formed: the denominator is positive.
    pub open spec fn wf(self) -> bool {
        self.den > 0
    }

    /// Small enough for the conversion formulas to stay inside `i64`.
    pub open spec fn in_range(self) -> bool {
        &&& -VAL_BOUND <= self.num <= VAL_BOUND
        &&& 0 < self.den <= VAL_BOUND
    }

    /// The fraction `num / den`.
    pub fn new(num: i64, den: i64) -> (r: Temp)
        requires
            den > 0,
        ensures
            r@ == (Rat { num: num as int, den: den as int }),
            r.wf(),
    {
        Temp { num, den }
    }

    /// The whole number `v` of degrees.
    pub fn from_int(v: i64) -> (r: Temp)
        ensures
            r@ == Rat::int_val(v as int),
            r.wf(),
    {
        Temp { num: v, den: 1 }
    }

    /// Whether the value is small enough to convert.
    pub fn in_bounds(&self) -> (r: bool)
        ensures
            r == (self.wf() && self.in_range()),
    {
        -VAL_BOUND <= self.num && self.num <= VAL_BOUND && 0 < self.den && self.den <= VAL_BOUND
    }

    /// Whether the two fractions denote the same value.
    pub fn eq_value(&self, other: &Temp) -> (r: bool)
        requires
            self.wf(),
            other.wf(),
        ensures
            r == self@.eq_rat(other@),
    {
        proof {
            lemma_i64_product_fits(self.num as int, other.den as int);
            lemma_i64_product_fits(other.num as int, self.den as int);
        }
        let left: i128 = (self.num as i128) * (other.den as i128);
        let right: i128 = (other.num as i128) * (self.den as i128);
        left == right
    }

    /// Whether this value is strictly below `other`.
    pub fn lt_value(&self, other: &Temp) -> (r: bool)
        requires
            self.wf(),
            other.wf(),
        ensures
            r == self@.lt(other@),
    {
        proof {
            lemma_i64_product_fits(self.num as int, other.den as int);
            lemma_i64_product_fits(other.num as int, self.den as int);
        }
        let left: i128 = (self.num as i128) * (other.den as i128);
        let right: i128 = (other.num as i128) * (self.den as i128);
        left < right
    }
}

/// The product of two `i64` values always fits in an `i128`.
proof fn lemma_i64_product_fits(a: int, b: int)
    by (nonlinear_arith)
    requires
        i64::MIN <= a <= i64::MAX,
        i64::MIN <= b <= i64::MAX,
    ensures
        i128::MIN <= a * b <= i128::MAX,
{
}

} // verus!
