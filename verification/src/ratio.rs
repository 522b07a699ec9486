//! Exact rational scalars.
//!
//! Every scale factor, coordinate and aspect ratio in this crate is an
//! exact rational `num / den` with a positive denominator. Values are kept
//! unreduced; equality and order are stated by cross-multiplication.

use vstd::prelude::*;

verus! {

/// The value and its negation both fit the machine's widest signed integer.
pub open spec fn fits_i128(v: int) -> bool {
    -0x7fff_ffff_ffff_ffff_ffff_ffff_ffff_ffff <= v
        <= 0x7fff_ffff_ffff_ffff_ffff_ffff_ffff_ffff
}

/// The integer nearest to `num / den` (positive `den`), halves rounded up.
pub open spec fn spec_round_pair(num: int, den: int) -> int {
    (2 * num + den) / (2 * den)
}

/// An exact rational number `num / den`, kept unreduced.
#[derive(Clone, Copy, PartialEq, Eq, Structural, Debug)]
pub struct Ratio {
    pub num: i128,
    pub den: i128,
}

impl Ratio {
    /// A ratio is well formed when its denominator is positive.
    pub open spec fn wf(self) -> bool {
        self.den > 0
    }

    /// `self` and `other` stand for the same rational number.
    pub open spec fn eqv(self, other: Ratio) -> bool {
        self.num * other.den == other.num * self.den
    }

    /// `self` is strictly below `other` (for well-formed ratios).
    pub open spec fn lt(self, other: Ratio) -> bool {
        self.num * other.den < other.num * self.den
    }

    /// The ratio stands for a strictly positive number.
    pub open spec fn is_pos(self) -> bool {
        self.num > 0
    }

    /// Builds `num / den`, normalising the sign so the denominator is positive.
    pub fn new(num: i64, den: i64) -> (r: Ratio)
        requires
            den != 0,
        ensures
            r.wf(),
            den > 0 ==> r.num == num as int && r.den == den as int,
            den < 0 ==> r.num == -(num as int) && r.den == -(den as int),
    {
        if den > 0 {
            Ratio { num: num as i128, den: den as i128 }
        } else {
            Ratio { num: -(num as i128), den: -(den as i128) }
        }
    }

    /// The whole number `v`.
    pub fn from_int(v: i64) -> (r: Ratio)
        ensures
            r.wf(),
            r.num == v as int,
            r.den == 1,
    {
        Ratio { num: v as i128, den: 1 }
    }

    /// The reciprocal: `1 / self`, witnessed by `r.num * self.num == r.den * self.den`.
    pub fn recip(self) -> (r: Ratio)
        requires
            self.wf(),
            self.num != 0,
            self.num > -0x8000_0000_0000_0000_0000_0000_0000_0000,
        ensures
            r.wf(),
            r.num * self.num == r.den * self.den,
            self.is_pos() ==> r.is_pos(),
            self.is_pos() ==> r == (Ratio { num: self.den, den: self.num }),
    {
        if self.num > 0 {
            let r = Ratio { num: self.den, den: self.num };
            proof {
                assert(r.num * self.num == r.den * self.den) by (nonlinear_arith)
                    requires
                        r.num == self.den,
                        r.den == self.num;
            }
            r
        } else {
            let r = Ratio { num: -self.den, den: -self.num };
            proof {
                assert(r.num * self.num == r.den * self.den) by (nonlinear_arith)
                    requires
                        r.num == -self.den,
                        r.den == -self.num;
            }
            r
        }
    }

    /// The product of two ratios, unreduced.
    pub fn times(self, other: Ratio) -> (r: Ratio)
        requires
            self.wf(),
            other.wf(),
            fits_i128(self.num * other.num),
            fits_i128(self.den * other.den),
        ensures
            r.wf(),
            r.num == self.num * other.num,
            r.den == self.den * other.den,
    {
        proof {
            assert(self.den * other.den > 0) by (nonlinear_arith)
                requires
                    self.den > 0,
                    other.den > 0;
        }
        Ratio { num: self.num * other.num, den: self.den * other.den }
    }

    /// Exact equality test by cross-multiplication.
    pub fn eqv_check(self, other: Ratio) -> (r: bool)
        requires
            self.wf(),
            other.wf(),
            fits_i128(self.num * other.den),
            fits_i128(other.num * self.den),
        ensures
            r == self.eqv(other),
    {
        self.num * other.den == other.num * self.den
    }

    /// Exact strict comparison by cross-multiplication.
    pub fn lt_check(self, other: Ratio) -> (r: bool)
        requires
            self.wf(),
            other.wf(),
            fits_i128(self.num * other.den),
            fits_i128(other.num * self.den),
        ensures
            r == self.lt(other),
    {
        self.num * other.den < other.num * self.den
    }

    /// The nearest integer, halves rounded up.
    pub open spec fn spec_round(self) -> int
        recommends
            self.wf(),
    {
        spec_round_pair(self.num as int, self.den as int)
    }

    /// Rounds a non-negative ratio to the nearest integer, halves up.
    pub fn round_to_u32(self) -> (r: u32)
        requires
            self.wf(),
            self.num >= 0,
            fits_i128(2 * self.num + self.den),
            fits_i128(2 * self.den),
            self.spec_round() <= 0xffff_ffff,
        ensures
            r == self.spec_round(),
    {
        let a: u128 = (2 * self.num + self.den) as u128;
        let b: u128 = (2 * self.den) as u128;
        let q: u128 = a / b;
        proof {
            assert(q == self.spec_round());
            assert(self.spec_round() >= 0) by (nonlinear_arith)
                requires
                    self.num >= 0,
                    self.den > 0,
                    self.spec_round() == (2 * self.num + self.den) / (2 * self.den);
        }
        q as u32
    }
}

} // verus!
