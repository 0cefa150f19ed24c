//! Exact fractions for scores, rates and thresholds.

use vstd::prelude::*;

verus! {

/// A non-negative fraction `num / den`.
///
/// Scores, success rates, confidences and thresholds are kept as exact
/// fractions, so that comparing them involves no rounding.
#[derive(Clone, Copy, Debug, PartialEq, Eq, Structural)]
pub struct Ratio {
    pub num: u64,
    pub den: u64,
}

impl Ratio {
    /// A fraction has a denominator that is not zero.
    pub open spec fn valid(self) -> bool {
        self.den > 0
    }

    /// `self >= other` as numbers.
    pub open spec fn ge(self, other: Ratio) -> bool {
        self.num * other.den >= other.num * self.den
    }

    /// `self > other` as numbers.
    pub open spec fn gt(self, other: Ratio) -> bool {
        self.num * other.den > other.num * self.den
    }

    /// `self == other` as numbers.
    pub open spec fn same(self, other: Ratio) -> bool {
        self.num * other.den == other.num * self.den
    }

    /// The fraction lies between zero and one.
    pub open spec fn unit(self) -> bool {
        self.den > 0 && self.num <= self.den
    }

    /// The fraction `num / den`.
    pub fn new(num: u64, den: u64) -> (r: Ratio)
        requires
            den > 0,
        ensures
            r == (Ratio { num, den }),
            r.valid(),
    {
        Ratio { num, den }
    }

    /// The fraction `num / den`, or `None` where `den` is zero.
    pub fn checked(num: u64, den: u64) -> (r: Option<Ratio>)
        ensures
            r == (if den > 0 {
                Some(Ratio { num, den })
            } else {
                None
            }),
    {
        if den > 0 {
            Some(Ratio { num, den })
        } else {
            None
        }
    }

    /// Zero.
    pub fn zero() -> (r: Ratio)
        ensures
            r == (Ratio { num: 0, den: 1 }),
    {
        Ratio { num: 0, den: 1 }
    }

    /// One.
    pub fn one() -> (r: Ratio)
        ensures
            r == (Ratio { num: 1, den: 1 }),
    {
        Ratio { num: 1, den: 1 }
    }

    /// `p` hundredths.
    pub fn percent(p: u64) -> (r: Ratio)
        ensures
            r == (Ratio { num: p, den: 100 }),
    {
        Ratio { num: p, den: 100 }
    }

    /// Whether `self >= other` as numbers.
    pub fn at_least(&self, other: &Ratio) -> (r: bool)
        ensures
            r == self.ge(*other),
    {
        let (a, b) = cross(self.num, other.den, other.num, self.den);
        a >= b
    }

    /// Whether `self > other` as numbers.
    pub fn exceeds(&self, other: &Ratio) -> (r: bool)
        ensures
            r == self.gt(*other),
    {
        let (a, b) = cross(self.num, other.den, other.num, self.den);
        a > b
    }

    /// Whether `self == other` as numbers.
    pub fn same_value(&self, other: &Ratio) -> (r: bool)
        ensures
            r == self.same(*other),
    {
        let (a, b) = cross(self.num, other.den, other.num, self.den);
        a == b
    }

    /// The fraction, but one where it is more than one.
    pub fn at_most_one(&self) -> (r: Ratio)
        requires
            self.valid(),
        ensures
            r.unit(),
            r == (if self.num > self.den {
                Ratio { num: 1, den: 1 }
            } else {
                *self
            }),
    {
        if self.num > self.den {
            Ratio { num: 1, den: 1 }
        } else {
            *self
        }
    }
}

/// The two products `a * b` and `c * d`, which always fit in 128 bits.
fn cross(a: u64, b: u64, c: u64, d: u64) -> (r: (u128, u128))
    ensures
        r.0 == a * b,
        r.1 == c * d,
{
    assert(a * b <= 0xffff_ffff_ffff_ffff * 0xffff_ffff_ffff_ffff) by (nonlinear_arith)
        requires
            0 <= a <= 0xffff_ffff_ffff_ffff,
            0 <= b <= 0xffff_ffff_ffff_ffff,
    ;
    assert(c * d <= 0xffff_ffff_ffff_ffff * 0xffff_ffff_ffff_ffff) by (nonlinear_arith)
        requires
            0 <= c <= 0xffff_ffff_ffff_ffff,
            0 <= d <= 0xffff_ffff_ffff_ffff,
    ;
    ((a as u128) * (b as u128), (c as u128) * (d as u128))
}

} // verus!
