//! Ratios of machine integers, compared exactly.

use vstd::prelude::*;

verus! {

/// The exact ratio `num / den`.
///
/// The fraction is kept as given, not in lowest terms: `==` compares the
/// fields, and [`Fraction::lt`] compares the values.
#[derive(Clone, Copy, Debug, PartialEq, Eq, Structural)]
pub struct Fraction {
    pub num: u64,
    pub den: u64,
}

impl Fraction {
    /// A fraction is well formed when its denominator is not zero.
    pub open spec fn wf(self) -> bool {
        self.den > 0
    }

    /// `self < other` as rational numbers (both well formed).
    pub open spec fn lt(self, other: Fraction) -> bool {
        self.num * other.den < other.num * self.den
    }

    /// The value lies in the half-open interval `(0, 1]`.
    pub open spec fn in_unit_interval(self) -> bool {
        0 < self.num <= self.den
    }

    /// The value is exactly one.
    pub open spec fn is_one(self) -> bool {
        self.den > 0 && self.num == self.den
    }
}

} // verus!
