//! Exact rational numbers for specifications.
//!
//! A temperature value is modelled as a fraction `num / den` with a
//! positive denominator. Conversion formulas, the identity law and the
//! round-trip laws are stated and proved over this model, so they hold
//! exactly, with no rounding involved.

use vstd::prelude::*;

verus! {

/// A rational number `num / den`. Meaningful only when `wf()` holds.
pub ghost struct Rat {
    pub num: int,
    pub den: int,
}

impl Rat {
    /// Well-formed: the denominator is positive.
    pub open spec fn wf(self) -> bool {
        self.den > 0
    }

    /// The fraction `n / d`.
    pub open spec fn frac(n: int, d: int) -> Rat {
        Rat { num: n, den: d }
    }

    /// The integer `i`, as a rational.
    pub open spec fn int_val(i: int) -> Rat {
        Rat { num: i, den: 1 }
    }

    /// Equality of the represented values (cross multiplication).
    pub open spec fn eq_rat(self, other: Rat) -> bool {
        self.num * other.den == other.num * self.den
    }

    /// Strict order of the represented values; meaningful when both
    /// sides are well-formed.
    pub open spec fn lt(self, other: Rat) -> bool {
        self.num * other.den < other.num * self.den
    }

    /// Sum of two rationals.
    pub open spec fn add(self, other: Rat) -> Rat {
        Rat { num: self.num * other.den + other.num * self.den, den: self.den * other.den }
    }

    /// Difference of two rationals.
    pub open spec fn sub(self, other: Rat) -> Rat {
        Rat { num: self.num * other.den - other.num * self.den, den: self.den * other.den }
    }

    /// Product of two rationals.
    pub open spec fn mul(self, other: Rat) -> Rat {
        Rat { num: self.num * other.num, den: self.den * other.den }
    }
}

/// Scaling numerator and denominator by one positive factor leaves the
/// represented value unchanged.
pub proof fn lemma_scale_eq(v: Rat, k: int)
    by (nonlinear_arith)
    requires
        v.wf(),
        k > 0,
    ensures
        Rat::frac(k * v.num, k * v.den).eq_rat(v),
        Rat::frac(k * v.num, k * v.den).wf(),
{
}

} // verus!
