//! The petitioner sample ratio, kept as an exact fraction.

use vstd::prelude::*;
use vstd::arithmetic::div_mod::{lemma_div_is_ordered, lemma_fundamental_div_mod_converse};
use vstd::arithmetic::mul::lemma_mul_inequality;

verus! {

/// Numerator of the default petitioner ratio: by default a quarter of the
/// electorate is sampled for the petition stage.
pub const PETITIONER_RATIO_NUM: u64 = 1;

/// Denominator of the default petitioner ratio.
pub const PETITIONER_RATIO_DEN: u64 = 4;

/// A fraction in (0, 1], kept as an exact pair of integers so that the
/// share it names of a count is itself exact.
#[derive(Clone, Copy, PartialEq, Eq, Structural)]
pub struct Ratio {
    pub num: u64,
    pub den: u64,
}

/// `count * num / den`, rounded to the nearest integer; halves round up.
pub open spec fn scaled_count(count: int, num: int, den: int) -> int {
    (count * num + den / 2) / den
}

impl Ratio {
    /// A well-formed ratio is a fraction in (0, 1].
    pub open spec fn wf(self) -> bool {
        0 < self.num <= self.den
    }

    pub fn new(num: u64, den: u64) -> (r: Ratio)
        requires
            0 < num <= den,
        ensures
            r.num == num,
            r.den == den,
            r.wf(),
    {
        Ratio { num, den }
    }

    /// The share of `count` that this ratio names, rounded to the nearest
    /// integer. Since the ratio is at most one, the share never exceeds
    /// `count`.
    pub fn scale(self, count: usize) -> (r: usize)
        requires
            self.wf(),
        ensures
            r == scaled_count(count as int, self.num as int, self.den as int),
            r <= count,
    {
        let c = count as u128;
        let num = self.num as u128;
        let den = self.den as u128;
        proof {
            assert(c * num <= 0xffff_ffff_ffff_ffffu128 * 0xffff_ffff_ffff_ffffu128)
                by (nonlinear_arith)
                requires
                    c <= 0xffff_ffff_ffff_ffffu128,
                    num <= 0xffff_ffff_ffff_ffffu128,
            ;
        }
        let scaled: u128 = (c * num + den / 2) / den;
        proof {
            let ci = count as int;
            let ni = self.num as int;
            let di = self.den as int;
            lemma_mul_inequality(ni, di, ci);
            assert(ci * ni + di / 2 <= ci * di + di / 2);
            lemma_fundamental_div_mod_converse(ci * di + di / 2, di, ci, di / 2);
            lemma_div_is_ordered(ci * ni + di / 2, ci * di + di / 2, di);
            assert(scaled_count(ci, ni, di) <= ci);
            assert(scaled == scaled_count(ci, ni, di));
        }
        scaled as usize
    }
}

} // verus!
